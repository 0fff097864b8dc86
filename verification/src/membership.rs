//! Fleet membership: one registration with the dispatcher at startup, then a
//! heartbeat at every interval for as long as the node runs.
//!
//! Talking to the dispatcher is the caller's business. This module decides:
//! it takes what the dispatcher answered and says where the node stands and
//! what it does next.

use vstd::prelude::*;
use crate::config::OperatorConfig;

verus! {

/// What a call to the dispatcher came to.
#[derive(Debug)]
pub enum DispatcherReply {
    /// The dispatcher answered with this HTTP status.
    Status(u16),
    /// The call did not get through.
    TransportFailure(String),
}

/// Why the node is not in the fleet, or why a heartbeat went unanswered.
#[derive(Debug)]
pub enum MembershipError {
    /// The dispatcher answered with a status that is no success.
    Refused { status: u16 },
    /// The call did not get through.
    Transport { detail: String },
}

/// A `MembershipError` with its text read as a sequence of characters.
pub enum MembershipErrorView {
    Refused { status: u16 },
    Transport { detail: Seq<char> },
}

impl View for MembershipError {
    type V = MembershipErrorView;

    open spec fn view(&self) -> MembershipErrorView {
        match *self {
            MembershipError::Refused { status } => MembershipErrorView::Refused { status },
            MembershipError::Transport { detail } => MembershipErrorView::Transport {
                detail: detail@,
            },
        }
    }
}

/// Where the node stands with the fleet.
#[derive(Clone, Copy, Debug, PartialEq, Eq, Structural)]
pub enum MembershipState {
    /// Registration has not been answered yet. Nothing is served.
    Registering,
    /// The node is registered: it serves and sends heartbeats.
    Registered,
    /// Registration failed. The node does not serve and does not recover.
    Failed,
}

/// What the dispatcher conversation has just produced.
#[derive(Debug)]
pub enum MembershipEvent {
    /// The registration call has ended.
    Registration(DispatcherReply),
    /// A heartbeat call has ended.
    Heartbeat(DispatcherReply),
}

/// What the node does next.
#[derive(Debug)]
pub enum MembershipAction {
    /// Start the heartbeat loop and begin to serve.
    StartServing,
    /// Give up startup with this error.
    Abort(MembershipError),
    /// Wait one interval, then send the next heartbeat. `report` holds the
    /// failure of the heartbeat just ended, if it failed.
    NextHeartbeat { report: Option<MembershipError> },
    /// The event does not belong to the state; do nothing.
    Ignore,
}

/// A `MembershipAction` with its texts read as sequences of characters.
pub enum MembershipActionView {
    StartServing,
    Abort(MembershipErrorView),
    NextHeartbeat { report: Option<MembershipErrorView> },
    Ignore,
}

impl View for MembershipAction {
    type V = MembershipActionView;

    open spec fn view(&self) -> MembershipActionView {
        match *self {
            MembershipAction::StartServing => MembershipActionView::StartServing,
            MembershipAction::Abort(fault) => MembershipActionView::Abort(fault@),
            MembershipAction::NextHeartbeat { report } => MembershipActionView::NextHeartbeat {
                report: match report {
                    Some(fault) => Some(fault@),
                    None => None,
                },
            },
            MembershipAction::Ignore => MembershipActionView::Ignore,
        }
    }
}

/// A success status is one from 200 to 299.
pub open spec fn is_success(status: u16) -> bool {
    200 <= status < 300
}

/// What a reply holds against the call it answers: nothing where the status
/// is a success, else the refusal or the transport failure.
pub open spec fn reply_fault(reply: DispatcherReply) -> Option<MembershipErrorView> {
    match reply {
        DispatcherReply::Status(status) => if is_success(status) {
            None
        } else {
            Some(MembershipErrorView::Refused { status })
        },
        DispatcherReply::TransportFailure(detail) => Some(
            MembershipErrorView::Transport { detail: detail@ },
        ),
    }
}

/// The state after `event`.
pub open spec fn next_state(state: MembershipState, event: MembershipEvent) -> MembershipState {
    match (state, event) {
        (MembershipState::Registering, MembershipEvent::Registration(reply)) => if reply_fault(
            reply,
        ) is None {
            MembershipState::Registered
        } else {
            MembershipState::Failed
        },
        _ => state,
    }
}

/// The action that `event` calls for in `state`.
pub open spec fn next_action(state: MembershipState, event: MembershipEvent) -> MembershipActionView {
    match (state, event) {
        (MembershipState::Registering, MembershipEvent::Registration(reply)) => match reply_fault(
            reply,
        ) {
            None => MembershipActionView::StartServing,
            Some(fault) => MembershipActionView::Abort(fault),
        },
        (MembershipState::Registered, MembershipEvent::Heartbeat(reply)) => {
            MembershipActionView::NextHeartbeat { report: reply_fault(reply) }
        },
        _ => MembershipActionView::Ignore,
    }
}

/// Decides `is_success`.
pub fn is_success_status(status: u16) -> (ok: bool)
    ensures
        ok == is_success(status),
{
    200 <= status && status < 300
}

/// Reads a reply: `Ok` where the dispatcher answered with a success status,
/// else the fault.
pub fn check_reply(reply: DispatcherReply) -> (checked: Result<(), MembershipError>)
    ensures
        match checked {
            Ok(_) => reply_fault(reply) is None,
            Err(fault) => reply_fault(reply) == Some(fault@),
        },
{
    match reply {
        DispatcherReply::Status(status) => {
            if is_success_status(status) {
                Ok(())
            } else {
                Err(MembershipError::Refused { status })
            }
        },
        DispatcherReply::TransportFailure(detail) => Err(MembershipError::Transport { detail }),
    }
}

/// Takes one event and says where the node stands now and what it does
/// next.
///
/// Registration is decided once: a success status registers the node, and
/// anything else fails it for good. After that a heartbeat, answered or not,
/// always leads to the next one.
pub fn step(state: MembershipState, event: MembershipEvent) -> (next: (
    MembershipState,
    MembershipAction,
))
    ensures
        next.0 == next_state(state, event),
        next.1@ == next_action(state, event),
{
    match state {
        MembershipState::Registering => match event {
            MembershipEvent::Registration(reply) => match check_reply(reply) {
                Ok(_) => (MembershipState::Registered, MembershipAction::StartServing),
                Err(fault) => (MembershipState::Failed, MembershipAction::Abort(fault)),
            },
            MembershipEvent::Heartbeat(_) => (state, MembershipAction::Ignore),
        },
        MembershipState::Registered => match event {
            MembershipEvent::Heartbeat(reply) => {
                let report = match check_reply(reply) {
                    Ok(_) => None,
                    Err(fault) => Some(fault),
                };
                (state, MembershipAction::NextHeartbeat { report })
            },
            MembershipEvent::Registration(_) => (state, MembershipAction::Ignore),
        },
        MembershipState::Failed => (state, MembershipAction::Ignore),
    }
}

/// What the heartbeat loop works from: a copy of the configuration taken
/// once at startup and never read again from the live one.
#[derive(Debug)]
pub struct HeartbeatConfig {
    /// Seconds between two heartbeats.
    pub interval: u64,
    pub dispatcher_url: String,
    pub node_id: String,
    pub rest_url: String,
}

impl HeartbeatConfig {
    /// Takes the snapshot.
    pub fn snapshot(config: &OperatorConfig) -> (taken: Self)
        ensures
            taken.interval == config.node.heartbeat_interval,
            taken.dispatcher_url@ == config.net.dispatcher_url@,
            taken.node_id@ == config.node.node_id@,
            taken.rest_url@ == config.net.rest_url@,
    {
        HeartbeatConfig {
            interval: config.node.heartbeat_interval,
            dispatcher_url: config.net.dispatcher_url.clone(),
            node_id: config.node.node_id.clone(),
            rest_url: config.net.rest_url.clone(),
        }
    }
}

/// A registration that is not answered with a success status fails the
/// node: it aborts, it never starts to serve, and no later event brings it
/// back or starts a heartbeat.
pub proof fn failed_registration_is_final(reply: DispatcherReply, later: MembershipEvent)
    requires
        reply_fault(reply) is Some,
    ensures
        next_state(MembershipState::Registering, MembershipEvent::Registration(reply))
            == MembershipState::Failed,
        next_action(MembershipState::Registering, MembershipEvent::Registration(reply))
            is Abort,
        next_state(MembershipState::Failed, later) == MembershipState::Failed,
        next_action(MembershipState::Failed, later) == MembershipActionView::Ignore,
{
}

/// A heartbeat never ends the loop: whatever the dispatcher answered, the
/// node stays registered and goes on to the next heartbeat, reporting the
/// failure exactly when there was one.
pub proof fn heartbeat_failure_is_not_fatal(reply: DispatcherReply)
    ensures
        next_state(MembershipState::Registered, MembershipEvent::Heartbeat(reply))
            == MembershipState::Registered,
        next_action(MembershipState::Registered, MembershipEvent::Heartbeat(reply))
            == (MembershipActionView::NextHeartbeat { report: reply_fault(reply) }),
        reply_fault(reply) is Some <==> !(reply matches DispatcherReply::Status(status)
            && is_success(status)),
{
}

} // verus!
