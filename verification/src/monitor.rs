//! The monitor's connection loop as a state machine.
//!
//! The loop itself performs socket waits, connects and reads; those stay with
//! the caller. This module owns every decision the loop makes: which action
//! follows which outside outcome, what each received line dispatches, and the
//! single synthesized `stopped` event when an established connection is lost.
//! The machine never terminates on its own and a malformed line never moves
//! it out of the reading state.

use vstd::prelude::*;

use crate::decode::{decode_line, event_rel, event_shape};
use crate::hook::{
    invocation_for_event, invocation_rel, is_stopped_invocation, stopped_invocation,
    HookInvocation,
};
use crate::json::json_of;
use crate::ncspot_event::NcspotEvent;

verus! {

/// Where the connection loop stands.
#[derive(Debug, Clone, Copy, PartialEq, Eq, Structural)]
pub enum LoopState {
    /// Waiting for the socket file to exist.
    AwaitingSocket,
    /// Socket present; a connection attempt is due.
    Connecting,
    /// Connected; lines are being read.
    Reading,
}

/// What the outside world reports back to the machine.
#[derive(Debug, Clone, PartialEq)]
pub enum LoopEvent {
    /// The socket file exists.
    SocketReady,
    /// The connection attempt succeeded.
    Connected,
    /// The connection attempt failed (e.g. a stale socket file).
    ConnectFailed,
    /// One line arrived on the stream.
    LineReceived(String),
    /// The stream ended or a read failed.
    ConnectionLost,
}

/// What the machine asks the outside world to do next, in order.
#[derive(Debug, Clone, PartialEq)]
pub enum LoopAction {
    /// Block until the socket file exists.
    WaitForSocket,
    /// Attempt to open the connection.
    Connect,
    /// Read the next line from the stream.
    ReadLine,
    /// Print the console line and, if configured, spawn the hook.
    Emit(HookInvocation),
}

/// Whether the line decodes to a status event.
pub open spec fn line_decodes(l: String) -> bool {
    json_of(l@) matches Some(j) && event_shape(j)
}

/// The action dispatches exactly what the line decodes to.
pub open spec fn emits_decoded(l: String, a: LoopAction) -> bool {
    &&& a matches LoopAction::Emit(inv)
    &&& json_of(l@) matches Some(j)
    &&& exists|e: NcspotEvent| event_rel(j, e) && invocation_rel(e, inv)
}

/// The machine's full transition table. Events that cannot arrive in a state
/// are ignored: the state is kept and nothing is asked.
pub open spec fn step_rel(s: LoopState, ev: LoopEvent, ns: LoopState, acts: Seq<LoopAction>) -> bool {
    match (s, ev) {
        (LoopState::AwaitingSocket, LoopEvent::SocketReady) => {
            ns is Connecting && acts.len() == 1 && acts[0] is Connect
        },
        (LoopState::Connecting, LoopEvent::Connected) => {
            ns is Reading && acts.len() == 1 && acts[0] is ReadLine
        },
        (LoopState::Connecting, LoopEvent::ConnectFailed) => {
            ns is AwaitingSocket && acts.len() == 1 && acts[0] is WaitForSocket
        },
        (LoopState::Reading, LoopEvent::LineReceived(l)) => {
            &&& ns is Reading
            &&& if line_decodes(l) {
                acts.len() == 2 && emits_decoded(l, acts[0]) && acts[1] is ReadLine
            } else {
                acts.len() == 1 && acts[0] is ReadLine
            }
        },
        (LoopState::Reading, LoopEvent::ConnectionLost) => {
            &&& ns is AwaitingSocket
            &&& acts.len() == 2
            &&& (acts[0] matches LoopAction::Emit(inv) && is_stopped_invocation(inv))
            &&& acts[1] is WaitForSocket
        },
        _ => ns == s && acts.len() == 0,
    }
}

/// The loop's starting point: wait for the socket.
pub fn initial_state() -> (r: (LoopState, Vec<LoopAction>))
    ensures
        r.0 is AwaitingSocket,
        r.1@.len() == 1 && r.1@[0] is WaitForSocket,
{
    (LoopState::AwaitingSocket, vec![LoopAction::WaitForSocket])
}

/// Advance the machine by one outside outcome.
pub fn step(state: &LoopState, event: &LoopEvent) -> (r: (LoopState, Vec<LoopAction>))
    ensures
        step_rel(*state, *event, r.0, r.1@),
{
    match (state, event) {
        (LoopState::AwaitingSocket, LoopEvent::SocketReady) => {
            (LoopState::Connecting, vec![LoopAction::Connect])
        },
        (LoopState::Connecting, LoopEvent::Connected) => {
            (LoopState::Reading, vec![LoopAction::ReadLine])
        },
        (LoopState::Connecting, LoopEvent::ConnectFailed) => {
            (LoopState::AwaitingSocket, vec![LoopAction::WaitForSocket])
        },
        (LoopState::Reading, LoopEvent::LineReceived(l)) => {
            match decode_line(l.as_str()) {
                Ok(e) => {
                    let inv = invocation_for_event(&e);
                    proof {
                        let j = json_of(l@)->Some_0;
                        assert(event_rel(j, e) && invocation_rel(e, inv));
                    }
                    (LoopState::Reading, vec![LoopAction::Emit(inv), LoopAction::ReadLine])
                },
                Err(_) => (LoopState::Reading, vec![LoopAction::ReadLine]),
            }
        },
        (LoopState::Reading, LoopEvent::ConnectionLost) => {
            (
                LoopState::AwaitingSocket,
                vec![LoopAction::Emit(stopped_invocation()), LoopAction::WaitForSocket],
            )
        },
        _ => (*state, Vec::new()),
    }
}

/// Law: a malformed line (not JSON, or not event-shaped) never moves the loop
/// out of the reading state and dispatches nothing; the loop just reads on.
pub proof fn lemma_malformed_line_never_stops_reading(l: String, ns: LoopState, acts: Seq<LoopAction>)
    requires
        !line_decodes(l),
        step_rel(LoopState::Reading, LoopEvent::LineReceived(l), ns, acts),
    ensures
        ns is Reading,
        acts.len() == 1 && acts[0] is ReadLine,
{
}

/// Law: a valid line received while reading is dispatched, whatever came
/// before it, and the loop keeps reading.
pub proof fn lemma_valid_line_dispatched(l: String, ns: LoopState, acts: Seq<LoopAction>)
    requires
        line_decodes(l),
        step_rel(LoopState::Reading, LoopEvent::LineReceived(l), ns, acts),
    ensures
        ns is Reading,
        acts.len() == 2,
        emits_decoded(l, acts[0]),
        acts[1] is ReadLine,
{
}

/// Law: losing an established connection emits exactly one synthesized
/// `stopped` invocation, with empty track fields, and emits it before the
/// loop goes back to waiting for the socket.
pub proof fn lemma_connection_loss_emits_one_stopped(ns: LoopState, acts: Seq<LoopAction>)
    requires
        step_rel(LoopState::Reading, LoopEvent::ConnectionLost, ns, acts),
    ensures
        ns is AwaitingSocket,
        acts.len() == 2,
        (acts[0] matches LoopAction::Emit(inv) && is_stopped_invocation(inv)),
        acts[1] is WaitForSocket,
        forall|k: int| 0 <= k < acts.len() && acts[k] is Emit ==> k == 0,
{
}

/// Law: a failed connection attempt alone synthesizes nothing: the loop only
/// turns back to waiting. The `stopped` event marks the loss of an
/// established connection, not a refused attempt.
pub proof fn lemma_connect_failure_emits_nothing(ns: LoopState, acts: Seq<LoopAction>)
    requires
        step_rel(LoopState::Connecting, LoopEvent::ConnectFailed, ns, acts),
    ensures
        ns is AwaitingSocket,
        forall|k: int| 0 <= k < acts.len() ==> !(acts[k] is Emit),
{
}

} // verus!
