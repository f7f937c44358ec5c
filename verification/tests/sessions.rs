use judger_client::client::cancel::{cancel_job, CancelAction, CancelEvent};
use judger_client::client::connect::connect_to_coordinator;
use judger_client::client::error::{AnyError, ErrText, JsonError, WsError};
use judger_client::client::handles::JobHandles;
use judger_client::client::model::{
    AbortJob, ClientMsg, ClientStatusMsg, FlowSnake, HttpMethod, Job, NewJob, ServerMsg,
};
use judger_client::client::register::{
    finish_register, finish_verify, try_register, verify_self, ClientConfig,
};
use judger_client::client::serve::{client_loop, ClientLoop, LoopAction, LoopEvent};
use judger_client::client::status::{flag_finished_job, flag_new_job, open_session};

fn cfg(access: Option<&str>, register: Option<&str>) -> ClientConfig {
    ClientConfig {
        access_token: access.map(|t| t.to_string()),
        register_token: register.map(|t| t.to_string()),
        alternate_name: Some("box".to_string()),
        tags: Some(vec!["x".to_string(), "y".to_string()]),
        max_concurrent_tasks: 4,
    }
}

fn text() -> ErrText {
    ErrText {
        display: "d".to_string(),
        debug: "g".to_string(),
    }
}

#[test]
fn registering_when_it_is_needed() {
    let e = || "http://c/register".to_string();
    let (request, msg) = try_register(&cfg(None, Some("reg")), false, e()).unwrap();
    assert_eq!(request.method, HttpMethod::Post);
    assert_eq!(request.endpoint, "http://c/register");
    assert_eq!(request.authorization, None);
    assert_eq!(msg.token, "reg");
    assert_eq!(msg.alternate_name, Some("box".to_string()));
    assert_eq!(msg.tags, Some(vec!["x".to_string(), "y".to_string()]));
    assert!(try_register(&cfg(Some("acc"), Some("reg")), true, e()).is_some());
    assert!(try_register(&cfg(Some("acc"), Some("reg")), false, e()).is_none());
    assert!(try_register(&cfg(None, None), false, e()).is_none());
    assert!(try_register(&cfg(Some("acc"), None), true, e()).is_none());
}

#[test]
fn registering_twice_is_not_needed() {
    let mut c = cfg(None, Some("reg"));
    let done = finish_register(&mut c, Ok("new".to_string()));
    assert!(matches!(done, Ok(true)));
    assert_eq!(c.access_token, Some("new".to_string()));
    assert_eq!(c.register_token, Some("reg".to_string()));
    assert_eq!(c.max_concurrent_tasks, 4);
    assert!(try_register(&c, false, "e".to_string()).is_none());
    assert!(try_register(&c, true, "e".to_string()).is_some());
}

#[test]
fn a_failed_registration_changes_nothing() {
    let mut c = cfg(None, Some("reg"));
    match finish_register(&mut c, Err(AnyError(text()))) {
        Err(e) => assert_eq!(e.0.display, "d"),
        Ok(_) => panic!("registered"),
    }
    assert_eq!(c.access_token, None);
}

#[test]
fn verifying_a_registration() {
    assert!(verify_self(&cfg(None, Some("reg")), "v".to_string()).is_none());
    let request = verify_self(&cfg(Some("acc"), None), "v".to_string()).unwrap();
    assert_eq!(request.method, HttpMethod::Get);
    assert_eq!(request.endpoint, "v");
    assert_eq!(request.authorization, Some("acc".to_string()));
    for (code, active) in [
        (0u16, false),
        (100, false),
        (199, false),
        (200, true),
        (204, true),
        (299, true),
        (300, false),
        (401, false),
        (500, false),
        (999, false),
        (u16::MAX, false),
    ] {
        match finish_verify(Ok(code)) {
            Ok(r) => assert_eq!(r, active),
            Err(_) => panic!("failed"),
        }
    }
    assert!(finish_verify(Err(AnyError(text()))).is_err());
}

#[test]
fn connecting_to_an_endpoint() {
    let request = connect_to_coordinator("ws://coordinator:8080/api/judger?token=1").unwrap();
    assert_eq!(request.method(), &http::Method::GET);
    assert_eq!(
        request.uri().to_string(),
        "ws://coordinator:8080/api/judger?token=1"
    );
    assert!(request.headers().is_empty());
    assert!(connect_to_coordinator("").is_none());
    assert!(connect_to_coordinator("ws://a b").is_none());
}

fn status(msg: ClientMsg<i32>) -> ClientStatusMsg {
    match msg {
        ClientMsg::ClientStatus(s) => s,
        other => panic!("{:?}", other),
    }
}

#[test]
fn statuses() {
    let s = status(open_session(4));
    assert_eq!(s.active_task_count, 0);
    assert_eq!(s.request_for_new_task, 4);
    assert!(s.can_accept_new_task);
    let s = status(flag_new_job(2, 3, 4));
    assert_eq!(s.active_task_count, 2);
    assert_eq!(s.request_for_new_task, 0);
    assert!(s.can_accept_new_task);
    assert!(!status(flag_new_job(2, 4, 4)).can_accept_new_task);
    assert!(!status(flag_new_job(2, 5, 4)).can_accept_new_task);
    let s = status(flag_finished_job(1, false));
    assert_eq!(s.active_task_count, 1);
    assert_eq!(s.request_for_new_task, 1);
    assert!(s.can_accept_new_task);
    let s = status(flag_finished_job(0, true));
    assert_eq!(s.request_for_new_task, 0);
    assert!(!s.can_accept_new_task);
}

#[test]
fn counts_are_sent_in_thirty_two_bits() {
    assert_eq!(status(flag_new_job(0x8000_0000, 0, 1)).active_task_count, i32::MIN);
    assert_eq!(status(flag_finished_job(0xffff_ffff, false)).active_task_count, -1);
    assert_eq!(status(flag_finished_job(usize::MAX, false)).active_task_count, -1);
    assert_eq!(status(open_session(usize::MAX)).request_for_new_task, u32::MAX);
}

#[test]
fn as_many_jobs_as_were_asked_for() {
    let mut asked = status(open_session(2)).request_for_new_task;
    let mut active: u32 = 0;
    for _ in 0..10 {
        while asked > 0 {
            asked -= 1;
            active += 1;
            asked += status(flag_new_job(active as usize, active as usize, 2)).request_for_new_task;
            assert!(active <= 2);
        }
        assert_eq!(active, 2);
        active -= 1;
        asked += status(flag_finished_job(active as usize, false)).request_for_new_task;
        assert_eq!(asked, 1);
    }
}

fn new_job(id: u64) -> NewJob {
    NewJob {
        job: Job {
            id: FlowSnake(id),
            repo: "r".to_string(),
            revision: "v".to_string(),
            test_suite: FlowSnake(4),
            tests: vec![],
        },
    }
}

/// Understands `n<digit>` as a new job and `a<digit>` as the end of one.
fn parse(payload: &[u8]) -> LoopEvent {
    match payload {
        [b'n', d] => LoopEvent::Parsed(ServerMsg::NewJob(new_job((d - b'0') as u64))),
        [b'a', d] => LoopEvent::Parsed(ServerMsg::AbortJob(AbortJob {
            job_id: FlowSnake((d - b'0') as u64),
        })),
        _ => LoopEvent::NotParsed(JsonError(text())),
    }
}

fn listen(incoming: Vec<LoopEvent>) -> Vec<String> {
    let (msg, mut state, mut action) = client_loop::<i32>(3);
    assert_eq!(status(msg).request_for_new_task, 3);
    let mut incoming = incoming.into_iter();
    let mut carried_out = vec![];
    loop {
        let event = match action {
            LoopAction::Receive => incoming.next().unwrap(),
            LoopAction::Parse(payload) => parse(&payload),
            LoopAction::Accept(job) => {
                carried_out.push(format!("accept {}", job.job.id.0));
                LoopEvent::Done
            }
            LoopAction::Abort(id) => {
                carried_out.push(format!("abort {}", id.0));
                LoopEvent::Done
            }
            LoopAction::Stop => break,
        };
        assert!(state.check_awaits(&event));
        let (next_state, next_action) = state.next(event);
        state = next_state;
        action = next_action;
    }
    assert_eq!(state, ClientLoop::Stopped);
    carried_out
}

fn says(what: &str) -> LoopEvent {
    LoopEvent::Text(what.as_bytes().to_vec())
}

#[test]
fn commands_are_carried_out_in_order() {
    let done = listen(vec![
        says("n1"),
        LoopEvent::Ping,
        says("nonsense"),
        says("n2"),
        LoopEvent::Unsupported,
        says("a1"),
        LoopEvent::Closed,
        says("n3"),
    ]);
    assert_eq!(done, vec!["accept 1", "accept 2", "abort 1"]);
}

#[test]
fn a_conversation_ends() {
    assert!(listen(vec![LoopEvent::Cancelled, says("n1")]).is_empty());
    let failed = LoopEvent::Failed(WsError {
        io: None,
        text: text(),
    });
    assert_eq!(listen(vec![says("n1"), failed, says("n2")]), vec!["accept 1"]);
}

#[test]
fn nothing_is_awaited_out_of_turn() {
    assert!(!ClientLoop::Receiving.check_awaits(&LoopEvent::Done));
    assert!(!ClientLoop::Parsing.check_awaits(&LoopEvent::Ping));
    assert!(!ClientLoop::Stopped.check_awaits(&LoopEvent::Closed));
}

#[test]
fn handles_of_jobs() {
    let mut h: JobHandles<&str, &str> = JobHandles::new();
    assert_eq!(h.accept_job(FlowSnake(1), "one"), None);
    assert_eq!(h.accept_job(FlowSnake(2), "two"), None);
    assert_eq!(h.note_cancelling(FlowSnake(1), "c"), None);
    assert_eq!(h.take_job(FlowSnake(1)), Some("one"));
    assert_eq!(h.take_job(FlowSnake(1)), None);
    assert_eq!(h.take_job(FlowSnake(1)), None);
    assert_eq!(h.finish_cancelling(FlowSnake(1)), Some("c"));
    assert_eq!(h.finish_cancelling(FlowSnake(1)), None);
    assert_eq!(h.accept_job(FlowSnake(2), "again"), Some("two"));
    assert_eq!(h.take_job(FlowSnake(2)), Some("again"));
}

#[test]
fn cancelling_a_job() {
    for running in [true, false] {
        let (mut cancellation, mut action) = cancel_job(FlowSnake(6));
        let mut seen = vec![];
        while action != CancelAction::Stop {
            let event = match action {
                CancelAction::TakeOut(_) => CancelEvent::Taken { running },
                _ => CancelEvent::Done,
            };
            seen.push(action);
            assert!(cancellation.check_awaits(&event));
            let (next_cancellation, next_action) = cancellation.next(event);
            cancellation = next_cancellation;
            action = next_action;
        }
        let mut expected = vec![CancelAction::TakeOut(FlowSnake(6))];
        if running {
            expected.push(CancelAction::Cancel);
            expected.push(CancelAction::Await);
        }
        expected.push(CancelAction::Forget(FlowSnake(6)));
        assert_eq!(seen, expected);
        assert!(!cancellation.check_awaits(&CancelEvent::Done));
    }
}
