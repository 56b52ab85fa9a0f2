//! The way of the proxy's reports to the window.

use crate::app::Message;
use crate::types::ProxyEvent;
use vstd::prelude::*;

verus! {

/// What has happened on the way.
pub enum RelayInput {
    /// The next report is there, or none will come any more.
    Received(Option<ProxyEvent>),
    /// A message was handed to the window, or could not be.
    Sent(bool),
}

/// What to do next.
pub enum RelayStep {
    /// Hand a message to the window.
    Send(Message),
    /// Wait for the next report.
    Receive,
    /// Give up.
    Finish,
}

/// What follows: each report becomes a message, and the first failure is the end.
pub open spec fn relay_next(input: RelayInput) -> RelayStep {
    match input {
        RelayInput::Received(Some(event)) => RelayStep::Send(Message::ProxyEvent(event)),
        RelayInput::Received(None) => RelayStep::Finish,
        RelayInput::Sent(true) => RelayStep::Receive,
        RelayInput::Sent(false) => RelayStep::Finish,
    }
}

/// Decides what to do next.
pub fn relay_step(input: RelayInput) -> (step: RelayStep)
    ensures
        step == relay_next(input),
{
    match input {
        RelayInput::Received(event) => match event {
            Some(event) => RelayStep::Send(Message::ProxyEvent(event)),
            None => RelayStep::Finish,
        },
        RelayInput::Sent(delivered) => if delivered {
            RelayStep::Receive
        } else {
            RelayStep::Finish
        },
    }
}

/// The messages that reach the window out of a row of reports, if it takes in `room` of them and
/// no more.
pub open spec fn relayed(events: Seq<ProxyEvent>, room: nat) -> Seq<Message>
    decreases events.len(),
{
    if events.len() == 0 {
        Seq::empty()
    } else {
        match relay_next(RelayInput::Received(Some(events[0]))) {
            RelayStep::Send(message) => match relay_next(RelayInput::Sent(room > 0)) {
                RelayStep::Receive => seq![message] + relayed(
                    events.skip(1),
                    (room - 1) as nat,
                ),
                _ => Seq::empty(),
            },
            _ => Seq::empty(),
        }
    }
}

/// Reports reach the window in order and without a gap, as long as the window takes them in.
pub proof fn reports_arrive_in_order(events: Seq<ProxyEvent>, room: nat)
    ensures
        relayed(events, room).len() == if room < events.len() {
            room
        } else {
            events.len()
        },
        forall|i: int|
            0 <= i < relayed(events, room).len() ==> #[trigger] relayed(events, room)[i]
                == Message::ProxyEvent(events[i]),
    decreases events.len(),
{
    if events.len() > 0 && room > 0 {
        let rest = relayed(events.skip(1), (room - 1) as nat);
        reports_arrive_in_order(events.skip(1), (room - 1) as nat);
        assert forall|i: int| 0 <= i < relayed(events, room).len() implies #[trigger] relayed(
            events,
            room,
        )[i] == Message::ProxyEvent(events[i]) by {
            if i > 0 {
                assert(relayed(events, room)[i] == rest[i - 1]);
            }
        }
    }
}

/// A report is handed to the window as it is; once it was taken in, the next one is waited for; and
/// the relay ends if and only if no report will come any more or one was not taken in.
pub proof fn reports_are_passed_on(input: RelayInput, step: RelayStep)
    requires
        call_ensures(relay_step, (input,), step),
    ensures
        input matches RelayInput::Received(Some(event)) ==> (step matches RelayStep::Send(message)
            && message == Message::ProxyEvent(event)),
        input matches RelayInput::Received(None) ==> step is Finish,
        input matches RelayInput::Sent(delivered) ==> (if delivered {
            step is Receive
        } else {
            step is Finish
        }),
{
}

} // verus!
