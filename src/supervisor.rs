//! The decisions of the task that watches one tunnel's SSH child: it waits
//! for the child to exit or for a kill request, takes the tunnel out of the
//! registry, and then reports the death.

use crate::registry::{release, TunnelRegistry};
use vstd::prelude::*;

verus! {

/// Where a supervisor stands.
#[derive(Clone, Copy, Debug, PartialEq, Eq, Structural)]
pub enum MonitorState {
    /// Watching both the child and the kill channel.
    AwaitingChildEvent,
    /// Reporting the death: the child's wait status, or `None` if it was killed.
    NotifyingChildDied { status: Option<i32> },
    /// The death has been reported; the task is over.
    ChildReaped,
    /// An I/O or channel error ended the task.
    ChildError,
}

/// What a supervisor learns from the outside.
#[derive(Clone, Copy, Debug, PartialEq, Eq, Structural)]
pub enum ChildEvent {
    /// The child exited with this wait status.
    ChildExited { status: i32 },
    /// A kill was requested on the kill channel.
    KillRequested,
    /// Polling the child or a channel failed.
    WatchFailed,
    /// The death notice went out on the death channel.
    DeathNoticeSent,
}

/// What the driver of a supervisor must do next.
#[derive(Clone, Copy, Debug, PartialEq, Eq, Structural)]
pub enum MonitorAction {
    /// Keep watching.
    Wait,
    /// Signal the child (best effort, failures ignored), if `kill_child`;
    /// close the kill channel; send `status` on the death channel.
    NotifyDeath { kill_child: bool, status: Option<i32> },
    /// End the task.
    Stop,
}

/// The next state and action of a supervisor.
pub open spec fn monitor_next(s: MonitorState, e: ChildEvent) -> (MonitorState, MonitorAction) {
    match (s, e) {
        (MonitorState::AwaitingChildEvent, ChildEvent::ChildExited { status }) => (
            MonitorState::NotifyingChildDied { status: Some(status) },
            MonitorAction::NotifyDeath { kill_child: false, status: Some(status) },
        ),
        (MonitorState::AwaitingChildEvent, ChildEvent::KillRequested) => (
            MonitorState::NotifyingChildDied { status: None },
            MonitorAction::NotifyDeath { kill_child: true, status: None },
        ),
        (MonitorState::AwaitingChildEvent, ChildEvent::WatchFailed) => (
            MonitorState::ChildError,
            MonitorAction::Stop,
        ),
        (MonitorState::NotifyingChildDied { .. }, ChildEvent::DeathNoticeSent) => (
            MonitorState::ChildReaped,
            MonitorAction::Stop,
        ),
        (MonitorState::NotifyingChildDied { .. }, ChildEvent::WatchFailed) => (
            MonitorState::ChildError,
            MonitorAction::Stop,
        ),
        _ => (s, MonitorAction::Wait),
    }
}

/// Whether the step gives up the supervisor's tunnel: whenever it stops
/// watching the child. Its own entry (host and kill handle) then leaves the
/// registry; a newer tunnel for the same host stays.
pub open spec fn monitor_removes(s: MonitorState, e: ChildEvent) -> bool {
    s == MonitorState::AwaitingChildEvent && e != ChildEvent::DeathNoticeSent
}

/// The supervisor of one tunnel: its host and the handle of its kill channel.
pub struct ChildMonitor {
    pub host: String,
    pub kill_handle: u64,
    pub state: MonitorState,
}

impl ChildMonitor {
    /// A supervisor for the tunnel of `host` with `kill_handle`, watching its
    /// child.
    pub fn start(host: String, kill_handle: u64) -> (r: Self)
        ensures
            r.host@ == host@,
            r.kill_handle == kill_handle,
            r.state == MonitorState::AwaitingChildEvent,
    {
        ChildMonitor { host, kill_handle, state: MonitorState::AwaitingChildEvent }
    }

    /// Reacts to one event: updates the state and the registry, and says what
    /// the driver must do.
    pub fn handle_event(&mut self, event: ChildEvent, registry: &mut TunnelRegistry) -> (r:
        MonitorAction)
        requires
            old(registry).wf(),
        ensures
            final(registry).wf(),
            final(self).host == old(self).host,
            final(self).kill_handle == old(self).kill_handle,
            (final(self).state, r) == monitor_next(old(self).state, event),
            final(registry).view() == (if monitor_removes(old(self).state, event) {
                release(old(registry).view(), old(self).host@, old(self).kill_handle)
            } else {
                old(registry).view()
            }),
    {
        match (self.state, event) {
            (MonitorState::AwaitingChildEvent, ChildEvent::ChildExited { status }) => {
                registry.remove_tunnel(&self.host, self.kill_handle);
                self.state = MonitorState::NotifyingChildDied { status: Some(status) };
                MonitorAction::NotifyDeath { kill_child: false, status: Some(status) }
            },
            (MonitorState::AwaitingChildEvent, ChildEvent::KillRequested) => {
                registry.remove_tunnel(&self.host, self.kill_handle);
                self.state = MonitorState::NotifyingChildDied { status: None };
                MonitorAction::NotifyDeath { kill_child: true, status: None }
            },
            (MonitorState::AwaitingChildEvent, ChildEvent::WatchFailed) => {
                registry.remove_tunnel(&self.host, self.kill_handle);
                self.state = MonitorState::ChildError;
                MonitorAction::Stop
            },
            (MonitorState::NotifyingChildDied { .. }, ChildEvent::DeathNoticeSent) => {
                self.state = MonitorState::ChildReaped;
                MonitorAction::Stop
            },
            (MonitorState::NotifyingChildDied { .. }, ChildEvent::WatchFailed) => {
                self.state = MonitorState::ChildError;
                MonitorAction::Stop
            },
            _ => MonitorAction::Wait,
        }
    }
}

/// A death notice is only ever asked for by the step that has already taken
/// the supervisor's own tunnel out of the registry, so whoever receives the
/// notice finds that tunnel gone; in particular after a kill request.
pub proof fn law_removed_before_death_notice(
    s: MonitorState,
    e: ChildEvent,
    before: Map<Seq<char>, u64>,
    host: Seq<char>,
    kill_handle: u64,
)
    ensures
        ({
            let (next, action) = monitor_next(s, e);
            let after = if monitor_removes(s, e) {
                release(before, host, kill_handle)
            } else {
                before
            };
            action is NotifyDeath ==> !(after.contains_key(host) && after[host] == kill_handle)
        }),
        (s == MonitorState::AwaitingChildEvent && e == ChildEvent::KillRequested) ==> (monitor_next(
            s,
            e,
        ).1 == MonitorAction::NotifyDeath { kill_child: true, status: None } && monitor_removes(s, e)),
{
}

} // verus!
