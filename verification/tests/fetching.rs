use judger_client::client::error::{
    ErrText, IoError, IoErrorKind, JobExecErr, JsonError, RequestError,
};
use judger_client::client::model::{FlowSnake, HttpMethod, TestSuite};
use judger_client::client::suite::{
    check_download_read_test_suite, SuiteAction, SuiteEvent, SuiteSources, TEST_CONF_FILE,
};
use std::path::PathBuf;

fn text(what: &str) -> ErrText {
    ErrText {
        display: what.to_string(),
        debug: what.to_string(),
    }
}

fn io(kind: IoErrorKind) -> IoError {
    IoError {
        kind,
        text: text("io"),
    }
}

fn suite(id: &str) -> TestSuite<u8> {
    TestSuite {
        package_file_id: id.to_string(),
        rest: 9,
    }
}

fn sources(token: Option<&str>) -> SuiteSources {
    SuiteSources {
        suite_id: FlowSnake(1),
        info_endpoint: "http://c/suite/1".to_string(),
        download_endpoint: "http://c/suite/1/file".to_string(),
        access_token: token.map(|t| t.to_string()),
        root: PathBuf::from("/s"),
        folder: PathBuf::from("/s/1"),
        lockfile: PathBuf::from("/s/1.lock"),
        temp_root: PathBuf::from("/t"),
        temp_file: PathBuf::from("/t/x"),
    }
}

fn name(action: &SuiteAction<u32, u8>) -> String {
    let is = |got: &PathBuf, path: &str| assert_eq!(got, &PathBuf::from(path));
    match action {
        SuiteAction::MakeRoot(dir) => {
            is(dir, "/s");
            "root".to_string()
        }
        SuiteAction::Lock(id) => {
            assert_eq!(*id, FlowSnake(1));
            "lock".to_string()
        }
        SuiteAction::FetchInfo(_) => "info".to_string(),
        SuiteAction::MakeDir(dir) => {
            is(dir, "/s/1");
            "dir".to_string()
        }
        SuiteAction::ReadLockfile(path) => {
            is(path, "/s/1.lock");
            "lockfile".to_string()
        }
        SuiteAction::RemoveStale(dir) => {
            is(dir, "/s/1");
            "stale".to_string()
        }
        SuiteAction::MakeTempRoot(dir) => {
            is(dir, "/t");
            "temp".to_string()
        }
        SuiteAction::Download {
            folder, temp_file, ..
        } => {
            is(folder, "/s/1");
            is(temp_file, "/t/x");
            "download".to_string()
        }
        SuiteAction::WriteLockfile { lockfile, info } => {
            is(lockfile, "/s/1.lock");
            assert_eq!(info.rest, 9);
            format!("write {}", info.package_file_id)
        }
        SuiteAction::CleanUp(dir) => {
            is(dir, "/s/1");
            "clean".to_string()
        }
        SuiteAction::Unlock {
            suite_id,
            cancel_handle,
        } => {
            assert_eq!(*suite_id, FlowSnake(1));
            format!("unlock {}", cancel_handle)
        }
        SuiteAction::JoinPath { base, path } => {
            is(base, "/s/1");
            assert_eq!(*path, TEST_CONF_FILE);
            "join".to_string()
        }
        SuiteAction::ReadConfig(path) => {
            is(path, "/s/1/testconf.json");
            "config".to_string()
        }
        SuiteAction::Return(Ok(c)) => format!("ok {}", c),
        SuiteAction::Return(Err(e)) => format!("err {}", e.display()),
    }
}

/// Runs a fetch in which all goes well except where `change` says otherwise.
fn run<F>(token: Option<&str>, change: F) -> Vec<String>
where
    F: Fn(&SuiteAction<u32, u8>) -> Option<SuiteEvent<u32, u8>>,
{
    let (mut fetch, mut action) = check_download_read_test_suite(sources(token));
    let mut seen = vec![name(&action)];
    while !matches!(action, SuiteAction::Return(_)) {
        let event = match change(&action) {
            Some(event) => event,
            None => match &action {
                SuiteAction::Lock(_) => SuiteEvent::Locked { handle: true },
                SuiteAction::FetchInfo(_) => SuiteEvent::Info(suite("p2")),
                SuiteAction::ReadLockfile(_) => SuiteEvent::Lockfile(Some(suite("p2"))),
                SuiteAction::JoinPath { base, path } => {
                    let path = base.join(path);
                    let text = path.to_string_lossy().to_string();
                    SuiteEvent::Joined { path, text }
                }
                SuiteAction::ReadConfig(_) => SuiteEvent::Config(7),
                _ => SuiteEvent::Done,
            },
        };
        assert!(fetch.check_awaits(&event));
        let (next_fetch, next_action) = fetch.next(event);
        fetch = next_fetch;
        action = next_action;
        seen.push(name(&action));
    }
    seen
}

#[test]
fn a_missing_folder_is_downloaded() {
    let seen = run(Some("t"), |_| None);
    assert_eq!(
        seen,
        vec![
            "root", "lock", "info", "dir", "lockfile", "stale", "temp", "download",
            "unlock true", "join", "config", "ok 7"
        ]
    );
}

#[test]
fn a_folder_that_is_up_to_date_is_left_alone() {
    let seen = run(None, |a| match a {
        SuiteAction::MakeDir(_) => Some(SuiteEvent::IoFailed(io(IoErrorKind::AlreadyExists))),
        SuiteAction::Lock(_) => Some(SuiteEvent::Locked { handle: false }),
        _ => None,
    });
    assert_eq!(
        seen,
        vec!["root", "lock", "info", "dir", "lockfile", "unlock false", "join", "config", "ok 7"]
    );
}

#[test]
fn an_outdated_folder_is_downloaded_and_the_lockfile_written_last() {
    let seen = run(Some("t"), |a| match a {
        SuiteAction::MakeDir(_) => Some(SuiteEvent::IoFailed(io(IoErrorKind::AlreadyExists))),
        SuiteAction::ReadLockfile(_) => Some(SuiteEvent::Lockfile(Some(suite("p1")))),
        _ => None,
    });
    assert_eq!(
        seen,
        vec![
            "root", "lock", "info", "dir", "lockfile", "stale", "temp", "download", "write p2",
            "unlock true", "join", "config", "ok 7"
        ]
    );
}

#[test]
fn a_missing_or_unreadable_lockfile_is_out_of_date() {
    let expected = vec![
        "root", "lock", "info", "dir", "lockfile", "stale", "temp", "download", "write p2",
        "unlock true", "join", "config", "ok 7",
    ];
    let missing = run(Some("t"), |a| match a {
        SuiteAction::ReadLockfile(_) => Some(SuiteEvent::IoFailed(io(IoErrorKind::NotFound))),
        _ => None,
    });
    assert_eq!(missing, expected);
    let garbled = run(Some("t"), |a| match a {
        SuiteAction::ReadLockfile(_) => Some(SuiteEvent::Lockfile(None)),
        _ => None,
    });
    assert_eq!(garbled, expected);
}

#[test]
fn a_second_fetch_downloads_nothing() {
    let first = run(Some("t"), |a| match a {
        SuiteAction::ReadLockfile(_) => Some(SuiteEvent::Lockfile(None)),
        _ => None,
    });
    assert!(first.contains(&"write p2".to_string()));
    // The second one needs no token, and so does a third one after it.
    for _ in 0..2 {
        let later = run(None, |a| match a {
            SuiteAction::MakeDir(_) => Some(SuiteEvent::IoFailed(io(IoErrorKind::AlreadyExists))),
            SuiteAction::ReadLockfile(_) => Some(SuiteEvent::Lockfile(Some(suite("p2")))),
            _ => None,
        });
        assert_eq!(
            later,
            vec!["root", "lock", "info", "dir", "lockfile", "unlock true", "join", "config", "ok 7"]
        );
        assert_eq!(later[8], first[first.len() - 1]);
    }
}

#[test]
fn without_the_root_nothing_is_done() {
    let seen = run(Some("t"), |a| match a {
        SuiteAction::MakeRoot(_) => Some(SuiteEvent::IoFailed(io(IoErrorKind::AlreadyExists))),
        _ => None,
    });
    assert_eq!(seen, vec!["root", "err IO error: io"]);
}

#[test]
fn failures_remove_the_folder_and_keep_the_lock() {
    let steps = vec!["info", "dir", "lockfile", "stale", "temp", "download", "write"];
    for step in steps {
        let seen = run(Some("t"), |a| {
            if step == "write" && matches!(a, SuiteAction::ReadLockfile(_)) {
                return Some(SuiteEvent::Lockfile(None));
            }
            let named = name(a);
            if !named.starts_with(step) || (step == "lockfile" && named != "lockfile") {
                return None;
            }
            match a {
                SuiteAction::FetchInfo(_) => {
                    Some(SuiteEvent::RequestFailed(RequestError(text("r"))))
                }
                SuiteAction::MakeDir(_) => Some(SuiteEvent::IoFailed(io(IoErrorKind::NotFound))),
                SuiteAction::ReadLockfile(_) => {
                    Some(SuiteEvent::IoFailed(io(IoErrorKind::AlreadyExists)))
                }
                SuiteAction::RemoveStale(_) => Some(SuiteEvent::Failed(JobExecErr::Cancelled)),
                SuiteAction::MakeTempRoot(_) => Some(SuiteEvent::IoFailed(io(IoErrorKind::Other))),
                SuiteAction::Download { .. } => Some(SuiteEvent::Failed(JobExecErr::Request(
                    RequestError(text("d")),
                ))),
                SuiteAction::WriteLockfile { .. } => {
                    Some(SuiteEvent::JsonFailed(JsonError(text("j"))))
                }
                _ => None,
            }
        });
        let n = seen.len();
        assert_eq!(seen[n - 2], "clean");
        let expected = match step {
            "info" => "err Web request error: r",
            "stale" => "err Job was cancelled",
            "download" => "err Web request error: d",
            "write" => "err JSON error: j",
            _ => "err IO error: io",
        };
        assert_eq!(seen[n - 1], expected);
        assert!(seen[n - 3].starts_with(step));
        assert!(!seen.iter().any(|a| a.starts_with("unlock")));
    }
}

#[test]
fn the_lockfile_may_fail_to_be_written() {
    let seen = run(Some("t"), |a| match a {
        SuiteAction::ReadLockfile(_) => Some(SuiteEvent::Lockfile(None)),
        SuiteAction::WriteLockfile { .. } => Some(SuiteEvent::IoFailed(io(IoErrorKind::Other))),
        SuiteAction::CleanUp(_) => Some(SuiteEvent::Failed(JobExecErr::Cancelled)),
        _ => None,
    });
    assert_eq!(seen[seen.len() - 2], "clean");
    assert_eq!(seen[seen.len() - 1], "err IO error: io");
}

#[test]
fn configuration_errors_come_after_unlocking() {
    let result = |event: fn() -> SuiteEvent<u32, u8>| {
        run(Some("t"), move |a| match a {
            SuiteAction::ReadConfig(_) => Some(event()),
            _ => None,
        })
    };
    let missing = result(|| SuiteEvent::IoFailed(io(IoErrorKind::NotFound)));
    assert_eq!(
        missing[missing.len() - 1],
        "err No such file: /s/1/testconf.json"
    );
    assert_eq!(missing[missing.len() - 4], "unlock true");
    let broken = result(|| SuiteEvent::IoFailed(io(IoErrorKind::Other)));
    assert_eq!(broken[broken.len() - 1], "err IO error: io");
    let malformed = result(|| SuiteEvent::JsonFailed(JsonError(text("j"))));
    assert_eq!(malformed[malformed.len() - 1], "err JSON error: j");
}

#[test]
fn requests_of_a_fetch() {
    let (fetch, _) = check_download_read_test_suite::<u32, u8>(sources(Some("t")));
    let (fetch, _) = fetch.next(SuiteEvent::<u32, u8>::Done);
    let (fetch, action) = fetch.next(SuiteEvent::<u32, u8>::Locked { handle: false });
    match action {
        SuiteAction::FetchInfo(r) => {
            assert_eq!(r.method, HttpMethod::Get);
            assert_eq!(r.endpoint, "http://c/suite/1");
            assert_eq!(r.authorization, None);
        }
        other => panic!("{:?}", other),
    }
    let (fetch, _) = fetch.next(SuiteEvent::<u32, u8>::Info(suite("p")));
    let (fetch, _) = fetch.next(SuiteEvent::<u32, u8>::Done);
    let (fetch, _) = fetch.next(SuiteEvent::<u32, u8>::Lockfile(None));
    let (fetch, _) = fetch.next(SuiteEvent::<u32, u8>::Done);
    let (_, action) = fetch.next(SuiteEvent::<u32, u8>::Done);
    match action {
        SuiteAction::Download { request: r, .. } => {
            assert_eq!(r.method, HttpMethod::Get);
            assert_eq!(r.endpoint, "http://c/suite/1/file");
            assert_eq!(r.authorization, Some("t".to_string()));
        }
        other => panic!("{:?}", other),
    }
}

#[test]
fn a_download_needs_a_token() {
    let (fetch, _) = check_download_read_test_suite::<u32, u8>(sources(None));
    let (fetch, _) = fetch.next(SuiteEvent::<u32, u8>::Done);
    let (fetch, _) = fetch.next(SuiteEvent::<u32, u8>::Locked { handle: false });
    let (fetch, _) = fetch.next(SuiteEvent::<u32, u8>::Info(suite("p")));
    let (fetch, _) = fetch.next(SuiteEvent::<u32, u8>::Done);
    let (fetch, _) = fetch.next(SuiteEvent::<u32, u8>::Lockfile(None));
    let (fetch, action) = fetch.next(SuiteEvent::<u32, u8>::Done);
    assert_eq!(name(&action), "temp");
    assert!(!fetch.check_awaits(&SuiteEvent::<u32, u8>::Done));
    assert!(fetch.check_awaits(&SuiteEvent::<u32, u8>::IoFailed(io(IoErrorKind::Other))));
}
