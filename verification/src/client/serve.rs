//! Listening to the coordinator.
//!
//! [`ClientLoop`] names one action at a time and is told how it went.

use crate::client::error::{JsonError, WsError};
use crate::client::model::{ClientMsg, FlowSnake, NewJob, ServerMsg};
use crate::client::status::{open_session, opening_status};
use vstd::prelude::*;

verus! {

/// What to do next.
#[derive(Debug)]
pub enum LoopAction {
    /// Wait for something to come in, or for the client to be cancelled.
    Receive,
    /// Parse the text of a message.
    Parse(Vec<u8>),
    /// Begin a job, on its own, and keep its handle.
    Accept(NewJob),
    /// Begin to cancel a job, on its own, and keep the handle of that.
    Abort(FlowSnake),
    /// Stop listening.
    Stop,
}

/// How an action went.
#[derive(Debug)]
pub enum LoopEvent {
    Done,
    /// The client was cancelled.
    Cancelled,
    /// The connection was closed.
    Closed,
    /// The connection failed.
    Failed(WsError),
    /// A text message came in.
    Text(Vec<u8>),
    /// A ping came in.
    Ping,
    /// A message of another kind came in.
    Unsupported,
    /// A text message was understood.
    Parsed(ServerMsg),
    /// A text message was not understood.
    NotParsed(JsonError),
}

/// Which action was named last.
#[derive(Debug, Clone, Copy, PartialEq, Eq, Structural)]
pub enum ClientLoop {
    Receiving,
    Parsing,
    Acting,
    Stopped,
}

impl ClientLoop {
    /// Whether `event` can be the answer to the action named last.
    pub open spec fn awaits(self, event: LoopEvent) -> bool {
        match self {
            ClientLoop::Receiving => event is Cancelled || event is Closed || event is Failed
                || event is Text || event is Ping || event is Unsupported,
            ClientLoop::Parsing => event is Parsed || event is NotParsed,
            ClientLoop::Acting => event is Done,
            ClientLoop::Stopped => false,
        }
    }

    /// What follows when the action named last went as `event` says.
    pub open spec fn after(self, event: LoopEvent) -> (Self, LoopAction) {
        match event {
            LoopEvent::Cancelled | LoopEvent::Closed | LoopEvent::Failed(_) => (
                ClientLoop::Stopped,
                LoopAction::Stop,
            ),
            LoopEvent::Text(payload) => (ClientLoop::Parsing, LoopAction::Parse(payload)),
            LoopEvent::Parsed(ServerMsg::NewJob(job)) => (
                ClientLoop::Acting,
                LoopAction::Accept(job),
            ),
            LoopEvent::Parsed(ServerMsg::AbortJob(job)) => (
                ClientLoop::Acting,
                LoopAction::Abort(job.job_id),
            ),
            LoopEvent::Done
            | LoopEvent::Ping
            | LoopEvent::Unsupported
            | LoopEvent::NotParsed(_) => (ClientLoop::Receiving, LoopAction::Receive),
        }
    }

    /// Whether `event` can be the answer to the action named last.
    pub fn check_awaits(&self, event: &LoopEvent) -> (r: bool)
        ensures
            r == self.awaits(*event),
    {
        match (self, event) {
            (ClientLoop::Receiving, LoopEvent::Cancelled) => true,
            (ClientLoop::Receiving, LoopEvent::Closed) => true,
            (ClientLoop::Receiving, LoopEvent::Failed(_)) => true,
            (ClientLoop::Receiving, LoopEvent::Text(_)) => true,
            (ClientLoop::Receiving, LoopEvent::Ping) => true,
            (ClientLoop::Receiving, LoopEvent::Unsupported) => true,
            (ClientLoop::Parsing, LoopEvent::Parsed(_)) => true,
            (ClientLoop::Parsing, LoopEvent::NotParsed(_)) => true,
            (ClientLoop::Acting, LoopEvent::Done) => true,
            _ => false,
        }
    }

    /// Takes in how the action named last went, and names the next one.
    pub fn next(self, event: LoopEvent) -> (r: (Self, LoopAction))
        requires
            self.awaits(event),
        ensures
            r == self.after(event),
            r.1 is Stop <==> r.0 is Stopped,
    {
        match event {
            LoopEvent::Cancelled => (ClientLoop::Stopped, LoopAction::Stop),
            LoopEvent::Closed => (ClientLoop::Stopped, LoopAction::Stop),
            LoopEvent::Failed(_) => (ClientLoop::Stopped, LoopAction::Stop),
            LoopEvent::Text(payload) => (ClientLoop::Parsing, LoopAction::Parse(payload)),
            LoopEvent::Parsed(ServerMsg::NewJob(job)) => (
                ClientLoop::Acting,
                LoopAction::Accept(job),
            ),
            LoopEvent::Parsed(ServerMsg::AbortJob(job)) => (
                ClientLoop::Acting,
                LoopAction::Abort(job.job_id),
            ),
            LoopEvent::Done => (ClientLoop::Receiving, LoopAction::Receive),
            LoopEvent::Ping => (ClientLoop::Receiving, LoopAction::Receive),
            LoopEvent::Unsupported => (ClientLoop::Receiving, LoopAction::Receive),
            LoopEvent::NotParsed(_) => (ClientLoop::Receiving, LoopAction::Receive),
        }
    }
}

/// Begins to listen: what to tell the coordinator first, and what to do then.
pub fn client_loop<T>(max_concurrent_tasks: usize) -> (r: (ClientMsg<T>, ClientLoop, LoopAction))
    ensures
        r.0 == ClientMsg::<T>::ClientStatus(opening_status(max_concurrent_tasks)),
        r.1 == ClientLoop::Receiving,
        r.2 is Receive,
{
    (open_session(max_concurrent_tasks), ClientLoop::Receiving, LoopAction::Receive)
}

/// A command of the coordinator.
pub enum Command {
    Accept(NewJob),
    Abort(FlowSnake),
}

/// The command that an action carries out, where it carries one out.
pub open spec fn command_of(action: LoopAction) -> Seq<Command> {
    match action {
        LoopAction::Accept(job) => seq![Command::Accept(job)],
        LoopAction::Abort(job_id) => seq![Command::Abort(job_id)],
        _ => Seq::empty(),
    }
}

/// The commands that a client carries out from here on, where `incoming` comes in
/// and `parse` says how texts are understood.
pub open spec fn run(
    state: ClientLoop,
    action: LoopAction,
    incoming: Seq<LoopEvent>,
    parse: spec_fn(Seq<u8>) -> Result<ServerMsg, JsonError>,
) -> Seq<Command>
    decreases
            incoming.len(),
            match action {
                LoopAction::Parse(_) => 2int,
                LoopAction::Accept(_) | LoopAction::Abort(_) => 1,
                _ => 0,
            },
{
    match action {
        LoopAction::Receive => if incoming.len() == 0 || !state.awaits(incoming[0]) {
            Seq::empty()
        } else {
            let (rest, then_action) = state.after(incoming[0]);
            run(rest, then_action, incoming.drop_first(), parse)
        },
        LoopAction::Parse(payload) => {
            let (rest, then_action) = state.after(
                match parse(payload@) {
                    Ok(msg) => LoopEvent::Parsed(msg),
                    Err(e) => LoopEvent::NotParsed(e),
                },
            );
            run(rest, then_action, incoming, parse)
        },
        LoopAction::Accept(_) | LoopAction::Abort(_) => {
            let (rest, then_action) = state.after(LoopEvent::Done);
            command_of(action) + run(rest, then_action, incoming, parse)
        },
        LoopAction::Stop => Seq::empty(),
    }
}

/// Whether something that came in ends the conversation.
pub open spec fn ends(event: LoopEvent) -> bool {
    event is Cancelled || event is Closed || event is Failed
}

/// The command in something that came in, where it holds one.
pub open spec fn command_in(
    event: LoopEvent,
    parse: spec_fn(Seq<u8>) -> Result<ServerMsg, JsonError>,
) -> Seq<Command> {
    match event {
        LoopEvent::Text(payload) => match parse(payload@) {
            Ok(ServerMsg::NewJob(job)) => seq![Command::Accept(job)],
            Ok(ServerMsg::AbortJob(job)) => seq![Command::Abort(job.job_id)],
            Err(_) => Seq::empty(),
        },
        _ => Seq::empty(),
    }
}

/// The commands in all that comes in before the conversation ends, in order.
pub open spec fn commands(
    incoming: Seq<LoopEvent>,
    parse: spec_fn(Seq<u8>) -> Result<ServerMsg, JsonError>,
) -> Seq<Command>
    decreases incoming.len(),
{
    if incoming.len() == 0 || ends(incoming[0]) {
        Seq::empty()
    } else {
        command_in(incoming[0], parse) + commands(incoming.drop_first(), parse)
    }
}

/// A client carries out every command that it understands, once and in the order in
/// which they come, until the conversation ends, and nothing after that. Pings,
/// messages of other kinds and texts that it does not understand change nothing.
pub proof fn law_every_command_is_carried_out(
    incoming: Seq<LoopEvent>,
    parse: spec_fn(Seq<u8>) -> Result<ServerMsg, JsonError>,
)
    requires
        forall|i: int|
            0 <= i < incoming.len() ==> ClientLoop::Receiving.awaits(#[trigger] incoming[i]),
    ensures
        run(ClientLoop::Receiving, LoopAction::Receive, incoming, parse) == commands(
            incoming,
            parse,
        ),
    decreases incoming.len(),
{
    if incoming.len() > 0 {
        let rest = incoming.drop_first();
        assert(ClientLoop::Receiving.awaits(incoming[0]));
        assert forall|i: int| 0 <= i < rest.len() implies ClientLoop::Receiving.awaits(
            #[trigger] rest[i],
        ) by {
            assert(rest[i] == incoming[i + 1]);
        }
        law_every_command_is_carried_out(rest, parse);
        reveal_with_fuel(run, 4);
        assert(run(ClientLoop::Receiving, LoopAction::Receive, incoming, parse) =~= commands(
            incoming,
            parse,
        ));
    }
}

/// What a client does with what comes in, one thing at a time: a text that hands out a
/// job has that very job accepted, and one that withdraws a job has that very job
/// aborted, before anything that comes later; pings, messages of other kinds and texts
/// that are not understood are passed over; and nothing is done after the end.
pub proof fn law_one_at_a_time(
    event: LoopEvent,
    later: Seq<LoopEvent>,
    parse: spec_fn(Seq<u8>) -> Result<ServerMsg, JsonError>,
)
    ensures
        ({
            let all = run(
                ClientLoop::Receiving,
                LoopAction::Receive,
                seq![event] + later,
                parse,
            );
            let rest = run(ClientLoop::Receiving, LoopAction::Receive, later, parse);
            &&& event is Ping || event is Unsupported ==> all == rest
            &&& event is Closed || event is Cancelled || event is Failed ==> all.len() == 0
            &&& event matches LoopEvent::Text(payload) ==> match parse(payload@) {
                Ok(ServerMsg::NewJob(job)) => all == seq![Command::Accept(job)] + rest,
                Ok(ServerMsg::AbortJob(job)) => all == seq![Command::Abort(job.job_id)] + rest,
                Err(_) => all == rest,
            }
        }),
{
    reveal_with_fuel(run, 4);
    assert((seq![event] + later).drop_first() =~= later);
    assert((seq![event] + later)[0] == event);
}

/// A client listens on exactly until the connection ends or it is cancelled: nothing
/// else makes it stop, and every action but the last is followed by another one.
pub proof fn law_stops_only_at_the_end(state: ClientLoop, event: LoopEvent)
    requires
        state.awaits(event),
    ensures
        state.after(event).1 is Stop <==> event is Closed || event is Cancelled || event is Failed,
        event matches LoopEvent::Text(payload) ==> state.after(event).1 == LoopAction::Parse(
            payload,
        ),
        event matches LoopEvent::Parsed(ServerMsg::NewJob(job)) ==> state.after(event).1
            == LoopAction::Accept(job),
        event matches LoopEvent::Parsed(ServerMsg::AbortJob(job)) ==> state.after(event).1
            == LoopAction::Abort(job.job_id),
        event is Ping || event is Unsupported || event is NotParsed || event is Done
            ==> state.after(event).1 is Receive,
{
}

/// Whatever comes in can be told to a client that listens, and nothing comes in unasked.
pub proof fn law_answers(event: LoopEvent)
    ensures
        ClientLoop::Receiving.awaits(event) <==> event is Cancelled || event is Closed
            || event is Failed || event is Text || event is Ping || event is Unsupported,
        ClientLoop::Parsing.awaits(event) <==> event is Parsed || event is NotParsed,
        ClientLoop::Acting.awaits(event) <==> event is Done,
        !ClientLoop::Stopped.awaits(event),
{
}

} // verus!
