use judger_client::client::error::{ErrText, JobExecErr, WsError};
use judger_client::client::forward::{
    forward_output, forward_results, ForwardAction, ForwardEvent, Forwarding,
};
use judger_client::client::model::{
    job_output, partial_result, ClientMsg, FlowSnake, HttpMethod, HttpRequest, Job, JobResultKind,
    JobResultMsg, NewJob,
};
use judger_client::client::report::{handle_job_wrapper, result_of, ReportAction, ReportEvent};
use std::collections::HashMap;

fn new_job() -> NewJob {
    NewJob {
        job: Job {
            id: FlowSnake(3),
            repo: "r".to_string(),
            revision: "v".to_string(),
            test_suite: FlowSnake(4),
            tests: vec![],
        },
    }
}

fn ok_result() -> JobResultMsg<i32> {
    let mut results = HashMap::new();
    results.insert("a".to_string(), 5);
    JobResultMsg {
        job_id: FlowSnake(3),
        results,
        job_result: JobResultKind::Accepted,
        message: None,
    }
}

fn run(
    token: Option<String>,
    outcome: Result<JobResultMsg<i32>, JobExecErr>,
) -> (Vec<&'static str>, HttpRequest, JobResultMsg<i32>) {
    let (mut report, mut action) =
        handle_job_wrapper::<i32>(new_job(), "http://c/result".to_string(), token);
    let mut outcome = Some(outcome);
    let mut posted = None;
    let mut seen = vec![];
    loop {
        let mut event = ReportEvent::Done;
        match action {
            ReportAction::FlagNewJob => seen.push("begun"),
            ReportAction::HandleJob(job) => {
                assert_eq!(job.job.id, FlowSnake(3));
                assert!(!report.check_awaits(&ReportEvent::<i32>::Done));
                seen.push("handle");
                event = ReportEvent::Handled(outcome.take().unwrap());
            }
            ReportAction::PostResult { request, msg } => {
                seen.push("post");
                posted = Some((request, msg));
            }
            ReportAction::FlagFinishedJob => seen.push("ended"),
            ReportAction::ForgetJob(id) => {
                assert_eq!(id, FlowSnake(3));
                seen.push("forget");
            }
            ReportAction::RemoveJobDir(id) => {
                assert_eq!(id, FlowSnake(3));
                seen.push("remove");
            }
            ReportAction::Stop => break,
        }
        assert!(report.check_awaits(&event));
        let (next_report, next_action) = report.next(event);
        report = next_report;
        action = next_action;
    }
    match posted {
        Some((request, ClientMsg::JobResult(msg))) => (seen, request, msg),
        other => panic!("{:?}", other),
    }
}

#[test]
fn a_successful_job_is_reported() {
    let (seen, request, msg) = run(Some("tok".to_string()), Ok(ok_result()));
    assert_eq!(
        seen,
        vec!["begun", "handle", "post", "ended", "forget", "remove"]
    );
    assert_eq!(request.method, HttpMethod::Post);
    assert_eq!(request.endpoint, "http://c/result");
    assert_eq!(request.authorization, Some("tok".to_string()));
    assert_eq!(msg.job_result, JobResultKind::Accepted);
    assert_eq!(msg.results["a"], 5);
    assert_eq!(msg.message, None);
}

#[test]
fn a_failed_job_is_reported_too() {
    let (seen, request, msg) = run(None, Err(JobExecErr::Cancelled));
    assert_eq!(
        seen,
        vec!["begun", "handle", "post", "ended", "forget", "remove"]
    );
    assert_eq!(request.authorization, None);
    assert_eq!(msg.job_id, FlowSnake(3));
    assert_eq!(msg.job_result, JobResultKind::Aborted);
    assert_eq!(msg.message, Some("Job cancelled by user".to_string()));
    assert!(msg.results.is_empty());
}

#[test]
fn a_missing_file_is_a_compile_error() {
    let msg = result_of::<i32>(
        FlowSnake(9),
        Err(JobExecErr::NoSuchFile("s/testconf.json".to_string())),
    );
    assert_eq!(msg.job_id, FlowSnake(9));
    assert_eq!(msg.job_result, JobResultKind::CompileError);
    assert_eq!(
        msg.message,
        Some("Cannot find file: s/testconf.json".to_string())
    );
}

#[test]
fn messages_along_the_way() {
    match partial_result(FlowSnake(1), "t".to_string(), 8) {
        ClientMsg::PartialResult(p) => {
            assert_eq!(p.job_id, FlowSnake(1));
            assert_eq!(p.test_id, "t");
            assert_eq!(p.test_result, 8);
        }
        other => panic!("{:?}", other),
    }
    match job_output::<i32>(FlowSnake(2), Some("out".to_string()), None) {
        ClientMsg::JobOutput(o) => {
            assert_eq!(o.job_id, FlowSnake(2));
            assert_eq!(o.stream, Some("out".to_string()));
            assert_eq!(o.error, None);
        }
        other => panic!("{:?}", other),
    }
}

/// Passes `items` on; every second message cannot be sent.
fn pass_on(
    start: (Forwarding, ForwardAction<i32>),
    items: Vec<ForwardEvent<i32>>,
) -> Vec<ClientMsg<i32>> {
    let (mut forwarding, mut action) = start;
    let mut items = items.into_iter();
    let mut sent = vec![];
    loop {
        let event = match action {
            ForwardAction::Receive => items.next().unwrap_or(ForwardEvent::Closed),
            ForwardAction::Send(msg) => {
                sent.push(msg);
                if sent.len() % 2 == 0 {
                    ForwardEvent::Sent
                } else {
                    ForwardEvent::SendFailed(WsError {
                        io: None,
                        text: ErrText {
                            display: String::new(),
                            debug: String::new(),
                        },
                    })
                }
            }
            ForwardAction::Stop => return sent,
        };
        assert!(forwarding.check_awaits(&event));
        let (next_forwarding, next_action) = forwarding.next(event);
        forwarding = next_forwarding;
        action = next_action;
    }
}

#[test]
fn results_are_passed_on_in_order() {
    let items = (0..3)
        .map(|i| ForwardEvent::Result {
            test_id: format!("t{}", i),
            test_result: i,
        })
        .collect();
    let sent = pass_on(forward_results(FlowSnake(7)), items);
    assert_eq!(sent.len(), 3);
    for (i, msg) in sent.iter().enumerate() {
        match msg {
            ClientMsg::PartialResult(p) => {
                assert_eq!(p.job_id, FlowSnake(7));
                assert_eq!(p.test_id, format!("t{}", i));
                assert_eq!(p.test_result, i as i32);
            }
            other => panic!("{:?}", other),
        }
    }
}

#[test]
fn output_is_passed_on_in_order() {
    let items = vec![
        ForwardEvent::Output {
            stream: Some("a".to_string()),
            error: None,
        },
        ForwardEvent::Output {
            stream: None,
            error: Some("b".to_string()),
        },
    ];
    let sent = pass_on(forward_output(FlowSnake(8)), items);
    assert_eq!(sent.len(), 2);
    match (&sent[0], &sent[1]) {
        (ClientMsg::JobOutput(a), ClientMsg::JobOutput(b)) => {
            assert_eq!((a.job_id, b.job_id), (FlowSnake(8), FlowSnake(8)));
            assert_eq!(a.stream, Some("a".to_string()));
            assert_eq!(a.error, None);
            assert_eq!(b.stream, None);
            assert_eq!(b.error, Some("b".to_string()));
        }
        other => panic!("{:?}", other),
    }
}

#[test]
fn what_is_passed_on_is_kept_apart() {
    let (results, _) = forward_results::<i32>(FlowSnake(1));
    let output = || ForwardEvent::<i32>::Output {
        stream: None,
        error: None,
    };
    assert!(!results.check_awaits(&output()));
    assert!(!results.check_awaits(&ForwardEvent::<i32>::Sent));
    let (outputs, _) = forward_output::<i32>(FlowSnake(1));
    assert!(outputs.check_awaits(&output()));
    assert!(!outputs.check_awaits(&ForwardEvent::Result {
        test_id: "t".to_string(),
        test_result: 1
    }));
}
