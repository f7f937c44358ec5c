//! Passing on to the coordinator what comes up while a job runs: the results of single
//! tests, and the output of the build of its image.
//!
//! [`Forwarding`] names one action at a time and is told how it went.

use crate::client::error::WsError;
use crate::client::model::{
    ClientMsg, FlowSnake, JobOutputMsg, PartialResultMsg, job_output, partial_result,
};
use vstd::prelude::*;

verus! {

/// What to do next. `T` is the result of one test.
#[derive(Debug)]
pub enum ForwardAction<T> {
    /// Wait for the next item.
    Receive,
    /// Send this message to the coordinator; that it could not be sent does not matter.
    Send(ClientMsg<T>),
    /// Nothing is left to do.
    Stop,
}

/// How an action went.
#[derive(Debug)]
pub enum ForwardEvent<T> {
    /// A test has a result.
    Result { test_id: String, test_result: T },
    /// The build of the image has said something.
    Output { stream: Option<String>, error: Option<String> },
    /// Nothing more will come.
    Closed,
    Sent,
    SendFailed(WsError),
}

/// What is passed on.
#[derive(Debug, Clone, Copy, PartialEq, Eq, Structural)]
pub enum ForwardSource {
    Results,
    Output,
}

/// Which action was named last.
#[derive(Debug, Clone, Copy, PartialEq, Eq, Structural)]
pub enum ForwardStep {
    Receiving,
    Sending,
    Finished,
}

/// What is passed on for one job, and how far that has got.
#[derive(Debug, Clone, Copy, PartialEq, Eq, Structural)]
pub struct Forwarding {
    pub job_id: FlowSnake,
    pub source: ForwardSource,
    pub step: ForwardStep,
}

/// The message that passes an item on.
pub open spec fn message_of<T>(job_id: FlowSnake, item: ForwardEvent<T>) -> ClientMsg<T> {
    match item {
        ForwardEvent::Result { test_id, test_result } => ClientMsg::PartialResult(
            PartialResultMsg { job_id, test_id, test_result },
        ),
        ForwardEvent::Output { stream, error } => ClientMsg::JobOutput(
            JobOutputMsg { job_id, stream, error },
        ),
        _ => arbitrary(),
    }
}

impl Forwarding {
    /// Whether `event` can be the answer to the action named last.
    pub open spec fn awaits<T>(self, event: ForwardEvent<T>) -> bool {
        match self.step {
            ForwardStep::Receiving => event is Closed || match self.source {
                ForwardSource::Results => event is Result,
                ForwardSource::Output => event is Output,
            },
            ForwardStep::Sending => event is Sent || event is SendFailed,
            ForwardStep::Finished => false,
        }
    }

    /// The same at another step.
    pub open spec fn at(self, step: ForwardStep) -> Self {
        Forwarding { step, ..self }
    }

    /// What follows when the action named last went as `event` says.
    pub open spec fn after<T>(self, event: ForwardEvent<T>) -> (Self, ForwardAction<T>) {
        match event {
            ForwardEvent::Closed => (self.at(ForwardStep::Finished), ForwardAction::Stop),
            ForwardEvent::Sent | ForwardEvent::SendFailed(_) => (
                self.at(ForwardStep::Receiving),
                ForwardAction::Receive,
            ),
            _ => (
                self.at(ForwardStep::Sending),
                ForwardAction::Send(message_of(self.job_id, event)),
            ),
        }
    }

    /// Whether `event` can be the answer to the action named last.
    pub fn check_awaits<T>(&self, event: &ForwardEvent<T>) -> (r: bool)
        ensures
            r == self.awaits(*event),
    {
        match (self.step, self.source, event) {
            (ForwardStep::Receiving, _, ForwardEvent::Closed) => true,
            (ForwardStep::Receiving, ForwardSource::Results, ForwardEvent::Result { .. }) => true,
            (ForwardStep::Receiving, ForwardSource::Output, ForwardEvent::Output { .. }) => true,
            (ForwardStep::Sending, _, ForwardEvent::Sent) => true,
            (ForwardStep::Sending, _, ForwardEvent::SendFailed(_)) => true,
            _ => false,
        }
    }

    fn move_to(self, step: ForwardStep) -> (r: Self)
        ensures
            r == self.at(step),
    {
        Forwarding { job_id: self.job_id, source: self.source, step }
    }

    /// Takes in how the action named last went, and names the next one.
    pub fn next<T>(self, event: ForwardEvent<T>) -> (r: (Self, ForwardAction<T>))
        requires
            self.awaits(event),
        ensures
            r == self.after(event),
            r.1 is Stop <==> r.0.step is Finished,
    {
        match event {
            ForwardEvent::Result { test_id, test_result } => (
                self.move_to(ForwardStep::Sending),
                ForwardAction::Send(partial_result(self.job_id, test_id, test_result)),
            ),
            ForwardEvent::Output { stream, error } => (
                self.move_to(ForwardStep::Sending),
                ForwardAction::Send(job_output(self.job_id, stream, error)),
            ),
            ForwardEvent::Closed => (self.move_to(ForwardStep::Finished), ForwardAction::Stop),
            ForwardEvent::Sent => (self.move_to(ForwardStep::Receiving), ForwardAction::Receive),
            ForwardEvent::SendFailed(_) => (
                self.move_to(ForwardStep::Receiving),
                ForwardAction::Receive,
            ),
        }
    }
}

/// Before anything has been passed on.
pub open spec fn begun(job_id: FlowSnake, source: ForwardSource) -> Forwarding {
    Forwarding { job_id, source, step: ForwardStep::Receiving }
}

/// Begins to pass the results of single tests on.
pub fn forward_results<T>(job_id: FlowSnake) -> (r: (Forwarding, ForwardAction<T>))
    ensures
        r.0 == begun(job_id, ForwardSource::Results),
        r.1 is Receive,
{
    let forwarding = Forwarding {
        job_id,
        source: ForwardSource::Results,
        step: ForwardStep::Receiving,
    };
    (forwarding, ForwardAction::Receive)
}

/// Begins to pass the output of the image build on.
pub fn forward_output<T>(job_id: FlowSnake) -> (r: (Forwarding, ForwardAction<T>))
    ensures
        r.0 == begun(job_id, ForwardSource::Output),
        r.1 is Receive,
{
    let forwarding = Forwarding {
        job_id,
        source: ForwardSource::Output,
        step: ForwardStep::Receiving,
    };
    (forwarding, ForwardAction::Receive)
}

/// The messages that are sent from here on, in order, where `items` come in before the
/// end. `sent` says how a message is sent when so many items are still to come.
pub open spec fn run<T>(
    forwarding: Forwarding,
    action: ForwardAction<T>,
    items: Seq<ForwardEvent<T>>,
    sent: spec_fn(nat) -> ForwardEvent<T>,
) -> Seq<ClientMsg<T>>
    decreases
            items.len(),
            match action {
                ForwardAction::Send(_) => 1int,
                _ => 0,
            },
{
    match action {
        ForwardAction::Receive => if items.len() == 0 || !forwarding.awaits(items[0]) {
            Seq::empty()
        } else {
            let (rest, then_action) = forwarding.after(items[0]);
            run(rest, then_action, items.drop_first(), sent)
        },
        ForwardAction::Send(msg) => if !forwarding.awaits(sent(items.len())) {
            seq![msg]
        } else {
            let (rest, then_action) = forwarding.after(sent(items.len()));
            seq![msg] + (if then_action is Receive {
                run(rest, then_action, items, sent)
            } else {
                Seq::empty()
            })
        },
        ForwardAction::Stop => Seq::empty(),
    }
}

/// Whether sending goes one way or the other.
pub open spec fn sends<T>(sent: spec_fn(nat) -> ForwardEvent<T>) -> bool {
    forall|left: nat| (#[trigger] sent(left)) is Sent || sent(left) is SendFailed
}

proof fn lemma_passed_on<T>(
    job_id: FlowSnake,
    source: ForwardSource,
    items: Seq<ForwardEvent<T>>,
    sent: spec_fn(nat) -> ForwardEvent<T>,
)
    requires
        sends(sent),
        forall|i: int|
            0 <= i < items.len() ==> !((#[trigger] items[i]) is Closed) && begun(
                job_id,
                source,
            ).awaits(items[i]),
    ensures
        run(begun(job_id, source), ForwardAction::Receive, items, sent) == Seq::new(
            items.len(),
            |i: int| message_of(job_id, items[i]),
        ),
    decreases items.len(),
{
    let begin = begun(job_id, source);
    let all = Seq::new(items.len(), |i: int| message_of(job_id, items[i]));
    if items.len() > 0 {
        let rest = items.drop_first();
        assert forall|i: int| 0 <= i < rest.len() implies !((#[trigger] rest[i]) is Closed)
            && begin.awaits(rest[i]) by {
            assert(rest[i] == items[i + 1]);
        }
        lemma_passed_on(job_id, source, rest, sent);
        assert(!(items[0] is Closed) && begin.awaits(items[0]));
        assert(sent(rest.len()) is Sent || sent(rest.len()) is SendFailed);
        reveal_with_fuel(run, 3);
        assert(run(begin, ForwardAction::Receive, items, sent) =~= all);
    } else {
        assert(run(begin, ForwardAction::Receive, items, sent) =~= all);
    }
}

/// Every result of a single test is passed on once, under its own name and in the order
/// in which they come, whether or not the messages before it could be sent.
pub proof fn law_every_result_is_passed_on<T>(
    job_id: FlowSnake,
    results: Seq<(String, T)>,
    sent: spec_fn(nat) -> ForwardEvent<T>,
)
    requires
        sends(sent),
    ensures
        run(
            begun(job_id, ForwardSource::Results),
            ForwardAction::Receive,
            Seq::new(
                results.len(),
                |i: int| ForwardEvent::Result { test_id: results[i].0, test_result: results[i].1 },
            ),
            sent,
        ) == Seq::new(
            results.len(),
            |i: int|
                ClientMsg::PartialResult(
                    PartialResultMsg {
                        job_id,
                        test_id: results[i].0,
                        test_result: results[i].1,
                    },
                ),
        ),
{
    let items = Seq::new(
        results.len(),
        |i: int| ForwardEvent::Result { test_id: results[i].0, test_result: results[i].1 },
    );
    lemma_passed_on(job_id, ForwardSource::Results, items, sent);
    assert(Seq::new(items.len(), |i: int| message_of(job_id, items[i])) =~= Seq::new(
        results.len(),
        |i: int|
            ClientMsg::PartialResult(
                PartialResultMsg { job_id, test_id: results[i].0, test_result: results[i].1 },
            ),
    ));
}

/// Every piece of output of the image build is passed on once and in the order in which
/// they come, whether or not the messages before it could be sent.
pub proof fn law_all_output_is_passed_on<T>(
    job_id: FlowSnake,
    output: Seq<(Option<String>, Option<String>)>,
    sent: spec_fn(nat) -> ForwardEvent<T>,
)
    requires
        sends(sent),
    ensures
        run(
            begun(job_id, ForwardSource::Output),
            ForwardAction::Receive,
            Seq::new(
                output.len(),
                |i: int| ForwardEvent::Output { stream: output[i].0, error: output[i].1 },
            ),
            sent,
        ) == Seq::new(
            output.len(),
            |i: int|
                ClientMsg::<T>::JobOutput(
                    JobOutputMsg { job_id, stream: output[i].0, error: output[i].1 },
                ),
        ),
{
    let items = Seq::new(
        output.len(),
        |i: int| ForwardEvent::Output { stream: output[i].0, error: output[i].1 },
    );
    lemma_passed_on(job_id, ForwardSource::Output, items, sent);
    assert(Seq::new(items.len(), |i: int| message_of(job_id, items[i])) =~= Seq::new(
        output.len(),
        |i: int|
            ClientMsg::<T>::JobOutput(
                JobOutputMsg { job_id, stream: output[i].0, error: output[i].1 },
            ),
    ));
}

/// While something is waited for, an item of the kind that is passed on can come in, or
/// the end; while a message is sent, that it was or was not.
pub proof fn law_answers<T>(forwarding: Forwarding, event: ForwardEvent<T>)
    ensures
        forwarding.step is Receiving ==> (forwarding.awaits(event) <==> event is Closed || (
        event is Result && forwarding.source == ForwardSource::Results) || (event is Output
            && forwarding.source == ForwardSource::Output)),
        forwarding.step is Sending ==> (forwarding.awaits(event) <==> event is Sent
            || event is SendFailed),
        forwarding.step is Finished ==> !forwarding.awaits(event),
{
}

/// Only the end of what comes in ends it; that a message could not be sent does not.
pub proof fn law_only_the_end_ends_it<T>(forwarding: Forwarding, event: ForwardEvent<T>)
    requires
        forwarding.awaits(event),
    ensures
        forwarding.after(event).1 is Stop <==> event is Closed,
        forwarding.after(event).1 is Receive <==> event is Sent || event is SendFailed,
        event matches ForwardEvent::Result { test_id, test_result } ==> forwarding.after(event).1
            == ForwardAction::Send(
            ClientMsg::PartialResult(
                PartialResultMsg { job_id: forwarding.job_id, test_id, test_result },
            ),
        ),
        event matches ForwardEvent::Output { stream, error } ==> forwarding.after(event).1
            == ForwardAction::<T>::Send(
            ClientMsg::JobOutput(JobOutputMsg { job_id: forwarding.job_id, stream, error }),
        ),
        forwarding.after(event).0.job_id == forwarding.job_id,
        forwarding.after(event).0.source == forwarding.source,
{
}

/// What is passed on is begun for the job and the source that it was asked for.
pub proof fn law_begun(job_id: FlowSnake, source: ForwardSource)
    ensures
        begun(job_id, source).job_id == job_id,
        begun(job_id, source).source == source,
        begun(job_id, source).step is Receiving,
{
}

} // verus!
