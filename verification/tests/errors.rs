use judger_client::client::error::{
    AnyError, ClientConnectionErr, ErrText, ExecError, IoError, IoErrorKind, JobExecErr, JsonError,
    RequestError, TomlError, WsError,
};
use judger_client::client::model::JobResultKind;

fn text(what: &str) -> ErrText {
    ErrText {
        display: format!("{} shown", what),
        debug: format!("{} dumped", what),
    }
}

fn io(what: &str) -> IoError {
    IoError {
        kind: IoErrorKind::Other,
        text: text(what),
    }
}

#[test]
fn websocket_error_from_io_counts_as_io() {
    let e = WsError {
        io: Some(io("disk")),
        text: text("ws"),
    };
    match JobExecErr::from(e) {
        JobExecErr::Io(e) => assert_eq!(e.text.display, "disk shown"),
        other => panic!("{:?}", other),
    }
}

#[test]
fn websocket_error_without_io_stays_one() {
    let e = WsError {
        io: None,
        text: text("ws"),
    };
    match JobExecErr::from(e) {
        JobExecErr::Ws(e) => assert_eq!(e.text.debug, "ws dumped"),
        other => panic!("{:?}", other),
    }
}

#[test]
fn connection_error_keeps_the_websocket_error() {
    let e = WsError {
        io: Some(io("disk")),
        text: text("ws"),
    };
    match ClientConnectionErr::from(e) {
        ClientConnectionErr::Ws(e) => {
            assert_eq!(e.text.display, "ws shown");
            assert!(e.io.is_some());
        }
        other => panic!("{:?}", other),
    }
}

#[test]
fn each_error_turns_into_its_own_variant() {
    assert!(matches!(JobExecErr::from(io("a")), JobExecErr::Io(_)));
    assert!(matches!(
        JobExecErr::from(RequestError(text("a"))),
        JobExecErr::Request(_)
    ));
    assert!(matches!(
        JobExecErr::from(JsonError(text("a"))),
        JobExecErr::Json(_)
    ));
    assert!(matches!(
        JobExecErr::from(TomlError(text("a"))),
        JobExecErr::TomlDes(_)
    ));
    assert!(matches!(
        JobExecErr::from(ExecError(text("a"))),
        JobExecErr::Exec(_)
    ));
    assert!(matches!(
        JobExecErr::from(AnyError(text("a"))),
        JobExecErr::Any(_)
    ));
}

fn all_errors() -> Vec<JobExecErr> {
    vec![
        JobExecErr::NoSuchFile("a/b".to_string()),
        JobExecErr::NoSuchConfig("suite".to_string()),
        JobExecErr::Io(io("io")),
        JobExecErr::Request(RequestError(text("req"))),
        JobExecErr::Ws(WsError {
            io: None,
            text: text("ws"),
        }),
        JobExecErr::Json(JsonError(text("json"))),
        JobExecErr::TomlDes(TomlError(text("toml"))),
        JobExecErr::Exec(ExecError(text("exec"))),
        JobExecErr::Cancelled,
        JobExecErr::Any(AnyError(text("any"))),
    ]
}

#[test]
fn one_line_texts() {
    let shown: Vec<String> = all_errors().iter().map(|e| e.display()).collect();
    assert_eq!(
        shown,
        vec![
            "No such file: a/b",
            "No such config: suite",
            "IO error: io shown",
            "Web request error: req shown",
            "Websocket error: ws shown",
            "JSON error: json shown",
            "TOML error: toml shown",
            "Execution error: exec shown",
            "Job was cancelled",
            "Other error: any shown",
        ]
    );
}

#[test]
fn reported_kinds_and_texts() {
    let told: Vec<(JobResultKind, String)> = all_errors().iter().map(|e| e.describe()).collect();
    let expected = vec![
        (JobResultKind::CompileError, "Cannot find file: a/b"),
        (
            JobResultKind::CompileError,
            "Cannot find config for suite in `judger.toml`",
        ),
        (JobResultKind::JudgerError, "IO error: io dumped"),
        (JobResultKind::JudgerError, "Web request error: req dumped"),
        (JobResultKind::JudgerError, "Websocket error: ws dumped"),
        (JobResultKind::JudgerError, "JSON error: json dumped"),
        (
            JobResultKind::JudgerError,
            "TOML deserialization error: toml dumped",
        ),
        (JobResultKind::PipelineError, "exec dumped"),
        (JobResultKind::Aborted, "Job cancelled by user"),
        (JobResultKind::OtherError, "any dumped"),
    ];
    assert_eq!(told.len(), expected.len());
    for (got, want) in told.iter().zip(expected.iter()) {
        assert_eq!(got.0, want.0);
        assert_eq!(got.1, want.1);
    }
}
