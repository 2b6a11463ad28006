//! What an exit of a plugin leads to.
//!
//! An exit goes through `PluginSupervisor::on_exit`; the caller then publishes
//! `exit_notice`. A plugin that is not restarted ends in `PluginSupervisor::retire_exited`. A
//! restart waits for its backoff delay, asks `PluginSupervisor::restart_cancelled`, and is a
//! spawn that names the epoch it follows.
use crate::plugins::config::{PluginConfig, RestartPolicy};
use crate::plugins::supervisor::{ExitEvent, PluginSupervisor};
use crate::text::{bool_str, bool_text, decimal, to_decimal};
use vstd::prelude::*;
use vstd::utf8::encode_utf8;

verus! {

/// An event for the plugins that subscribed to it.
#[derive(Debug)]
pub struct Event {
    pub event_id: String,
    pub event_type: String,
    pub payload_json: Vec<u8>,
    pub retry_count: u32,
}

/// A restart that is due after its backoff delay.
#[derive(Debug)]
pub struct RestartOrder {
    pub config: PluginConfig,
    /// The restart count of the instance that exited.
    pub prev_count: u32,
    /// The restart count of the instance to come.
    pub new_count: u32,
    /// The epoch of the instance that exited.
    pub epoch: u64,
}

/// What is to be done about an exit.
#[derive(Debug)]
pub enum ExitVerdict {
    /// Nothing: the exit is not of the current instance, or the instance was stopped.
    Ignored { is_current: bool, was_stopped: bool },
    /// Start the plugin again.
    Restart(RestartOrder),
    /// Give the plugin up; it had been restarted this many times.
    Retire { restart_count: u32 },
}

/// The ways an exit can go.
pub enum ExitCase {
    Ignored,
    Restart,
    Retire,
}

/// The exit is of the instance that is registered.
pub open spec fn is_current(s: PluginSupervisor, plugin_id: Seq<char>, epoch: u64) -> bool {
    s.entries@.contains_key(plugin_id) && s.entries@[plugin_id].epoch == epoch
}

/// The instance was stopped on request, and no other was since.
pub open spec fn was_stopped(s: PluginSupervisor, plugin_id: Seq<char>, epoch: u64) -> bool {
    s.stopped_epochs@.contains_key(plugin_id) && s.stopped_epochs@[plugin_id] == epoch
}

/// Whether a plugin's policy asks for a restart.
pub open spec fn policy_restarts(config: PluginConfig, restart_count: u32, success: bool) -> bool {
    &&& restart_count < config.max_restarts
    &&& match config.restart_policy {
        RestartPolicy::Never => false,
        RestartPolicy::Always => true,
        RestartPolicy::OnFailure => !success,
    }
}

/// How an exit goes: it is ignored unless it is of the current instance and nobody asked
/// for it; a restart that was asked for goes ahead whatever the policy says.
pub open spec fn exit_case(s: PluginSupervisor, event: ExitEvent) -> ExitCase {
    let id = event.plugin_id@;
    if !is_current(s, id, event.epoch) || was_stopped(s, id, event.epoch) {
        ExitCase::Ignored
    } else if s.forced_restarts@.contains_key(id) || policy_restarts(
        s.entries@[id].config,
        s.entries@[id].restart_count,
        event.success,
    ) {
        ExitCase::Restart
    } else {
        ExitCase::Retire
    }
}

/// The exit is of an instance other than the one that is registered.
pub open spec fn is_stale(s: PluginSupervisor, event: ExitEvent) -> bool {
    s.entries@.contains_key(event.plugin_id@) && s.entries@[event.plugin_id@].epoch != event.epoch
}

/// What an exit does to a pending request for a restart: it stays while another instance is
/// registered, since the request is for that one; else it is used up. Nothing else changed.
pub open spec fn request_settled(
    pre: PluginSupervisor,
    post: PluginSupervisor,
    event: ExitEvent,
) -> bool {
    &&& post == (PluginSupervisor { forced_restarts: post.forced_restarts, ..pre })
    &&& post.forced_restarts@ == (if is_stale(pre, event) {
        pre.forced_restarts@
    } else {
        pre.forced_restarts@.remove(event.plugin_id@)
    })
}

/// The order for the restart that an exit leads to: the same configuration, the restart
/// count one higher.
pub open spec fn is_restart_order(
    s: PluginSupervisor,
    event: ExitEvent,
    order: RestartOrder,
) -> bool {
    let entry = s.entries@[event.plugin_id@];
    &&& order.config@ == entry.config@
    &&& order.prev_count == entry.restart_count
    &&& order.new_count == entry.restart_count + 1
    &&& order.epoch == event.epoch
}

/// The plugin was given up between `pre` and `post`: it is no longer registered, its
/// restart count stays on record, and nothing else changed.
pub open spec fn plugin_retired(
    pre: PluginSupervisor,
    post: PluginSupervisor,
    plugin_id: Seq<char>,
) -> bool {
    let count = if pre.entries@.contains_key(plugin_id) {
        pre.entries@[plugin_id].restart_count
    } else {
        0
    };
    &&& post == (PluginSupervisor {
        entries: post.entries,
        stopped_counts: post.stopped_counts,
        ..pre
    })
    &&& post.entries@ == pre.entries@.remove(plugin_id)
    &&& post.stopped_counts@ == pre.stopped_counts@.insert(plugin_id, count)
}

/// What giving up an exited instance does: the plugin is given up where that instance is
/// still the registered one; else nothing changes.
pub open spec fn exited_retired(
    pre: PluginSupervisor,
    post: PluginSupervisor,
    event: ExitEvent,
) -> bool {
    if is_current(pre, event.plugin_id@, event.epoch) {
        plugin_retired(pre, post, event.plugin_id@)
    } else {
        post == pre
    }
}

/// The payload of a death notice.
pub open spec fn death_payload(
    plugin_id: Seq<char>,
    restart_count: u32,
    will_restart: bool,
) -> Seq<char> {
    "{\"plugin_id\":\""@ + plugin_id + "\",\"restart_count\":"@ + decimal(restart_count as nat)
        + ",\"will_restart\":"@ + bool_text(will_restart) + "}"@
}

/// The identifier of a death notice.
pub open spec fn death_event_id(plugin_id: Seq<char>, restart_count: u32) -> Seq<char> {
    "sys-died-"@ + plugin_id + "-"@ + decimal(restart_count as nat)
}

impl PluginSupervisor {
    /// Decides what an exit leads to. The entry of the instance stays until the plugin is
    /// retired or its successor is registered.
    pub fn on_exit(&mut self, event: &ExitEvent) -> (r: ExitVerdict)
        requires
            old(self).wf(),
            exit_case(*old(self), *event) is Restart ==> old(
                self,
            ).entries@[event.plugin_id@].restart_count < u32::MAX,
        ensures
            final(self).wf(),
            request_settled(*old(self), *final(self), *event),
            match r {
                ExitVerdict::Ignored { is_current: current, was_stopped: stopped } => {
                    &&& exit_case(*old(self), *event) is Ignored
                    &&& current == is_current(*old(self), event.plugin_id@, event.epoch)
                    &&& stopped == was_stopped(*old(self), event.plugin_id@, event.epoch)
                },
                ExitVerdict::Restart(order) => {
                    &&& exit_case(*old(self), *event) is Restart
                    &&& is_restart_order(*old(self), *event, order)
                },
                ExitVerdict::Retire { restart_count } => {
                    &&& exit_case(*old(self), *event) is Retire
                    &&& restart_count == old(self).entries@[event.plugin_id@].restart_count
                },
            },
    {
        let (current, stale): (bool, bool) = match self.entries.get(&event.plugin_id) {
            Some(entry) => (entry.epoch == event.epoch, entry.epoch != event.epoch),
            None => (false, false),
        };
        let forced: bool = !stale && self.forced_restarts.remove(&event.plugin_id).is_some();
        let stopped: bool = match self.stopped_epochs.get(&event.plugin_id) {
            Some(epoch) => *epoch == event.epoch,
            None => false,
        };
        if !current || stopped {
            return ExitVerdict::Ignored { is_current: current, was_stopped: stopped };
        }
        match self.entries.get(&event.plugin_id) {
            Some(entry) => {
                let due: bool = forced || match entry.config.restart_policy {
                    RestartPolicy::Never => false,
                    RestartPolicy::Always => entry.restart_count < entry.config.max_restarts,
                    RestartPolicy::OnFailure => !event.success && entry.restart_count
                        < entry.config.max_restarts,
                };
                if due {
                    ExitVerdict::Restart(
                        RestartOrder {
                            config: entry.config.clone(),
                            prev_count: entry.restart_count,
                            new_count: entry.restart_count + 1,
                            epoch: event.epoch,
                        },
                    )
                } else {
                    ExitVerdict::Retire { restart_count: entry.restart_count }
                }
            },
            None => ExitVerdict::Ignored { is_current: current, was_stopped: stopped },
        }
    }

    /// Gives up the plugin of an exited instance. An instance that was registered in its place
    /// since the exit was judged is left alone.
    pub fn retire_exited(&mut self, event: &ExitEvent)
        requires
            old(self).wf(),
        ensures
            final(self).wf(),
            exited_retired(*old(self), *final(self), *event),
    {
        let current: bool = match self.entries.get(&event.plugin_id) {
            Some(entry) => entry.epoch == event.epoch,
            None => false,
        };
        if current {
            self.retire(&event.plugin_id);
        }
    }

    /// Gives a plugin up, whatever instance is registered: it counts as running no more.
    pub fn retire(&mut self, plugin_id: &String)
        requires
            old(self).wf(),
        ensures
            final(self).wf(),
            plugin_retired(*old(self), *final(self), plugin_id@),
    {
        let ghost before = self.entries@;
        let restart_count: u32 = match self.entries.remove(plugin_id) {
            Some(entry) => entry.restart_count,
            None => 0,
        };
        self.stopped_counts.insert(plugin_id.clone(), restart_count);
        assert forall|k: Seq<char>| #[trigger]
            self.entries@.contains_key(k) implies self.entries@[k].config.plugin_id@ == k
            && self.entries@[k].epoch <= self.next_epoch by {
            assert(before.contains_key(k));
        }
    }

    /// Whether the plugin was stopped while its restart was waiting.
    pub fn restart_cancelled(&self, order: &RestartOrder) -> (r: bool)
        requires
            self.wf(),
        ensures
            r == was_stopped(*self, order.config.plugin_id@, order.epoch),
    {
        match self.stopped_epochs.get(&order.config.plugin_id) {
            Some(epoch) => *epoch == order.epoch,
            None => false,
        }
    }
}

/// The event is the death notice for this restart count.
pub open spec fn is_death_notice(
    event: Event,
    plugin_id: Seq<char>,
    restart_count: u32,
    will_restart: bool,
) -> bool {
    &&& event.event_id@ == death_event_id(plugin_id, restart_count)
    &&& event.event_type@ == "system.plugin_died"@
    &&& event.payload_json@ == encode_utf8(death_payload(plugin_id, restart_count, will_restart))
    &&& event.retry_count == 0
}

/// The notice that an exit calls for: none where it is ignored, or where the event bus or
/// the plugin registry is missing; else one with the restart count of the instance that
/// exited.
pub fn exit_notice(
    event: &ExitEvent,
    verdict: &ExitVerdict,
    has_bus: bool,
    has_registry: bool,
) -> (r: Option<Event>)
    ensures
        r is Some <==> (has_bus && has_registry && *verdict !is Ignored),
        r matches Some(notice) ==> match *verdict {
            ExitVerdict::Ignored { .. } => false,
            ExitVerdict::Restart(order) => is_death_notice(
                notice,
                event.plugin_id@,
                order.prev_count,
                true,
            ),
            ExitVerdict::Retire { restart_count } => is_death_notice(
                notice,
                event.plugin_id@,
                restart_count,
                false,
            ),
        },
{
    if !has_bus || !has_registry {
        return None;
    }
    match verdict {
        ExitVerdict::Ignored { .. } => None,
        ExitVerdict::Restart(order) => Some(
            death_notice(event.plugin_id.as_str(), order.prev_count, true),
        ),
        ExitVerdict::Retire { restart_count } => Some(
            death_notice(event.plugin_id.as_str(), *restart_count, false),
        ),
    }
}

/// The event that tells of a plugin's death.
pub fn death_notice(plugin_id: &str, restart_count: u32, will_restart: bool) -> (r: Event)
    ensures
        is_death_notice(r, plugin_id@, restart_count, will_restart),
{
    let count: String = to_decimal(restart_count as u64);
    let mut payload: String = "{\"plugin_id\":\"".to_owned();
    payload.append(plugin_id);
    payload.append("\",\"restart_count\":");
    payload.append(count.as_str());
    payload.append(",\"will_restart\":");
    payload.append(bool_str(will_restart));
    payload.append("}");
    let mut event_id: String = "sys-died-".to_owned();
    event_id.append(plugin_id);
    event_id.append("-");
    event_id.append(count.as_str());
    Event {
        event_id,
        event_type: "system.plugin_died".to_owned(),
        payload_json: payload.as_str().as_bytes_vec(),
        retry_count: 0,
    }
}

} // verus!
