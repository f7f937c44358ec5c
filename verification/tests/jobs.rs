use judger_client::client::error::{ErrText, IoError, IoErrorKind, JobExecErr, TomlError, WsError};
use judger_client::client::job::{handle_job, JobAction, JobEvent, JobFolders};
use judger_client::client::model::{
    ClientMsg, FlowSnake, Job, JobResultKind, JobResultMsg, JobStage, NewJob,
};
use judger_client::config::{
    JobConfigs, JudgeToml, JudgeTomlTestConfig, JudgerPublicConfig, MappedDir,
};
use std::collections::HashMap;
use std::path::PathBuf;

type Config = JudgerPublicConfig<String, u8>;
type Action = JobAction<Config, String, i32>;
type Event = JobEvent<Config, String, i32>;

fn s(x: &str) -> String {
    x.to_string()
}

fn text(what: &str) -> ErrText {
    ErrText {
        display: s(what),
        debug: s(what),
    }
}

fn new_job() -> NewJob {
    NewJob {
        job: Job {
            id: FlowSnake(11),
            repo: s("git://r"),
            revision: s("abc"),
            test_suite: FlowSnake(5),
            tests: vec![s("t1"), s("t2")],
        },
    }
}

fn folders() -> JobFolders {
    JobFolders {
        job: PathBuf::from("/jobs/11"),
        suite: PathBuf::from("/suites/5"),
    }
}

fn config() -> Config {
    JudgerPublicConfig {
        time_limit: Some(60),
        memory_limit: Some(-1),
        name: s("golem"),
        mapped_dir: MappedDir {
            from: s("tests"),
            to: s("/golem"),
        },
        binds: None,
        run: vec![s("check")],
        rest: 4,
    }
}

fn judge_file(suite: &str) -> JudgeToml<String> {
    let mut jobs = JobConfigs::new();
    jobs.insert(
        s("other"),
        JudgeTomlTestConfig {
            image: s("wrong"),
            build: None,
            run: vec![],
        },
    );
    jobs.insert(
        s(suite),
        JudgeTomlTestConfig {
            image: s("img"),
            build: Some(vec![s("make")]),
            run: vec![s("./a"), s("./b")],
        },
    );
    JudgeToml { id: s("me"), jobs }
}

fn well(action: &Action) -> Event {
    match action {
        JobAction::FetchSuite(_) => JobEvent::SuiteReady(config()),
        JobAction::FindRoot(dir) => JobEvent::Root(dir.join("sub")),
        JobAction::ReadJudgeFile { .. } => JobEvent::JudgeFile(judge_file("golem")),
        JobAction::JoinPath { base, path } => JobEvent::Joined(base.join(path)),
        JobAction::RunSuite { .. } => {
            let mut results = HashMap::new();
            results.insert(s("t1"), 1);
            JobEvent::Ran(results)
        }
        _ => JobEvent::Done,
    }
}

fn name(action: &Action) -> &'static str {
    match action {
        JobAction::FetchSuite(_) => "suite",
        JobAction::Report(ClientMsg::JobProgress(p)) => {
            assert_eq!(p.job_id, FlowSnake(11));
            match p.stage {
                JobStage::Fetching => "fetching",
                JobStage::Running => "running",
            }
        }
        JobAction::Report(_) => "report",
        JobAction::ClearJobDir(_) => "clear",
        JobAction::CloneRepo { .. } => "clone",
        JobAction::FindRoot(_) => "root",
        JobAction::ReadJudgeFile { .. } => "read",
        JobAction::JoinPath { .. } => "join",
        JobAction::BuildSuite { .. } => "build",
        JobAction::ForwardResults(id) => {
            assert_eq!(*id, FlowSnake(11));
            "results"
        }
        JobAction::ForwardOutput(id) => {
            assert_eq!(*id, FlowSnake(11));
            "output"
        }
        JobAction::RunSuite { .. } => "run",
        JobAction::AwaitOutput => "await output",
        JobAction::AwaitResults => "await results",
        JobAction::Return(_) => "return",
    }
}

/// Runs a job in which all goes well except where `change` says otherwise.
fn run<F>(change: F) -> (Vec<Action>, Result<JobResultMsg<i32>, JobExecErr>)
where
    F: Fn(&Action) -> Option<Event>,
{
    let (mut job, mut action) =
        handle_job::<String, u8, String, i32>(new_job(), folders(), s("http://c/upload"), Some(s("tok")));
    let mut seen = vec![];
    loop {
        let event = change(&action).unwrap_or_else(|| well(&action));
        assert!(job.check_awaits(&event));
        let (next_job, next_action) = job.next(event);
        job = next_job;
        seen.push(action);
        match next_action {
            JobAction::Return(result) => return (seen, result),
            other => action = other,
        }
    }
}

#[test]
fn a_job_that_goes_well() {
    let (seen, result) = run(|_| None);
    let names: Vec<&str> = seen.iter().map(name).collect();
    assert_eq!(
        names,
        vec![
            "suite", "fetching", "clear", "clone", "root", "read", "running", "join", "build",
            "results", "output", "run", "await output", "await results"
        ]
    );
    let msg = result.unwrap();
    assert_eq!(msg.job_id, FlowSnake(11));
    assert_eq!(msg.job_result, JobResultKind::Accepted);
    assert_eq!(msg.message, None);
    assert_eq!(msg.results.len(), 1);
    assert_eq!(msg.results["t1"], 1);
}

#[test]
fn what_a_job_hands_out() {
    let (seen, _) = run(|_| None);
    match &seen[0] {
        JobAction::FetchSuite(suite) => assert_eq!(*suite, FlowSnake(5)),
        other => panic!("{:?}", other),
    }
    match &seen[2] {
        JobAction::ClearJobDir(dir) => assert_eq!(dir, &PathBuf::from("/jobs/11")),
        other => panic!("{:?}", other),
    }
    match &seen[3] {
        JobAction::CloneRepo { dir, options: o } => {
            assert_eq!(dir, &PathBuf::from("/jobs/11"));
            assert_eq!(o.repo, "git://r");
            assert_eq!(o.revision, "abc");
            assert_eq!(o.depth, 3);
        }
        other => panic!("{:?}", other),
    }
    match &seen[4] {
        JobAction::FindRoot(dir) => assert_eq!(dir, &PathBuf::from("/jobs/11")),
        other => panic!("{:?}", other),
    }
    match &seen[5] {
        JobAction::ReadJudgeFile { root } => assert_eq!(root, &PathBuf::from("/jobs/11/sub")),
        other => panic!("{:?}", other),
    }
    match &seen[7] {
        JobAction::JoinPath { base, path } => {
            assert_eq!(base, &PathBuf::from("/suites/5"));
            assert_eq!(path, "tests");
        }
        other => panic!("{:?}", other),
    }
    match &seen[8] {
        JobAction::BuildSuite { suite_root, setup } => {
            assert_eq!(suite_root, &PathBuf::from("/suites/5"));
            assert_eq!(setup.image, "img");
            assert_eq!(
                setup.private_cfg.test_root_dir,
                PathBuf::from("/suites/5/tests")
            );
            assert_eq!(setup.public_cfg.rest, 4);
            assert_eq!(setup.private_cfg.mapped_test_root_dir, "/golem");
            assert_eq!(setup.public_cfg.run, vec!["./a", "./b", "check"]);
            assert_eq!(setup.public_cfg.binds, Some(vec![]));
            assert_eq!(setup.public_cfg.name, "golem");
            assert_eq!(setup.public_cfg.mapped_dir.from, "tests");
            assert_eq!(setup.options.tests, vec!["t1", "t2"]);
            assert_eq!(setup.options.time_limit, Some(60));
            assert_eq!(setup.options.mem_limit, Some(usize::MAX));
            assert!(setup.options.build_image);
            assert!(setup.options.remove_image);
        }
        other => panic!("{:?}", other),
    }
    match &seen[11] {
        JobAction::RunSuite { root, upload } => {
            assert_eq!(root, &PathBuf::from("/jobs/11/sub"));
            assert_eq!(upload.endpoint, "http://c/upload");
            assert_eq!(upload.access_token, Some(s("tok")));
            assert_eq!(upload.job_id, FlowSnake(11));
        }
        other => panic!("{:?}", other),
    }
}

#[test]
fn binds_that_are_there_stay() {
    let (seen, _) = run(|a| match a {
        JobAction::FetchSuite(_) => Some(JobEvent::SuiteReady(JudgerPublicConfig {
            binds: Some(vec![s("b")]),
            time_limit: None,
            ..config()
        })),
        _ => None,
    });
    match &seen[8] {
        JobAction::BuildSuite { setup, .. } => {
            assert_eq!(setup.public_cfg.binds, Some(vec![s("b")]));
            assert_eq!(setup.options.time_limit, None);
        }
        other => panic!("{:?}", other),
    }
}

#[test]
fn a_job_cancelled_early() {
    let (seen, result) = run(|a| match a {
        JobAction::FetchSuite(_) => Some(JobEvent::Cancelled),
        _ => None,
    });
    assert_eq!(seen.len(), 1);
    assert!(matches!(result, Err(JobExecErr::Cancelled)));
}

#[test]
fn a_suite_without_an_entry() {
    let (seen, result) = run(|a| match a {
        JobAction::ReadJudgeFile { .. } => Some(JobEvent::JudgeFile(judge_file("silver"))),
        _ => None,
    });
    assert_eq!(seen.len(), 6);
    match result {
        Err(JobExecErr::NoSuchConfig(n)) => assert_eq!(n, "golem"),
        other => panic!("{:?}", other),
    }
}

#[test]
fn failing_to_clear_the_folder_is_no_failure() {
    let (seen, result) = run(|a| match a {
        JobAction::ClearJobDir(_) => Some(JobEvent::Failed(JobExecErr::Cancelled)),
        _ => None,
    });
    assert_eq!(seen.len(), 14);
    assert!(result.is_ok());
}

#[test]
fn any_other_failure_ends_the_job() {
    for (step, name_of_step) in ["suite", "clone", "root", "build", "run"].iter().enumerate() {
        let (seen, result) = run(|a| {
            if name(a) == *name_of_step {
                Some(JobEvent::Failed(JobExecErr::NoSuchFile(format!("{}", step))))
            } else {
                None
            }
        });
        assert_eq!(name(&seen[seen.len() - 1]), *name_of_step);
        match result {
            Err(JobExecErr::NoSuchFile(f)) => assert_eq!(f, format!("{}", step)),
            other => panic!("{:?}", other),
        }
    }
}

#[test]
fn failures_to_send_or_read_end_the_job() {
    let ws = || WsError {
        io: None,
        text: text("ws"),
    };
    let io = || IoError {
        kind: IoErrorKind::Other,
        text: text("io"),
    };
    let (seen, result) = run(|a| {
        if name(a) == "fetching" {
            Some(JobEvent::SendFailed(ws()))
        } else {
            None
        }
    });
    assert_eq!(seen.len(), 2);
    assert!(matches!(result, Err(JobExecErr::Ws(_))));
    let (seen, result) = run(|a| {
        if name(a) == "running" {
            Some(JobEvent::SendFailed(WsError {
                io: Some(io()),
                ..ws()
            }))
        } else {
            None
        }
    });
    assert_eq!(seen.len(), 7);
    assert!(matches!(result, Err(JobExecErr::Io(_))));
    let (_, result) = run(|a| match a {
        JobAction::ReadJudgeFile { .. } => Some(JobEvent::IoFailed(io())),
        _ => None,
    });
    assert!(matches!(result, Err(JobExecErr::Io(_))));
    let (_, result) = run(|a| match a {
        JobAction::ReadJudgeFile { .. } => Some(JobEvent::TomlFailed(TomlError(text("t")))),
        _ => None,
    });
    assert!(matches!(result, Err(JobExecErr::TomlDes(_))));
}

#[test]
fn events_out_of_turn_are_not_awaited() {
    let (job, _) =
        handle_job::<String, u8, String, i32>(new_job(), folders(), s("u"), None);
    assert!(!job.check_awaits(&Event::Done));
    assert!(!job.check_awaits(&Event::JudgeFile(judge_file("golem"))));
    assert!(job.check_awaits(&Event::Cancelled));
}
