//! What an exit leads to, said of every call of the operations in `monitor`.
//!
//! `call_ensures(f, args, r)` is a call of `f` on `args` that returned `r`; a supervisor that
//! a call changes is `old(s)` before it and `final(s)` after it.
use crate::plugins::config::{FsAccessMode, PluginConfig, RestartPolicy};
use crate::plugins::supervisor::monitor::{
    death_notice, exit_notice, Event, ExitVerdict, RestartOrder,
};
use crate::plugins::supervisor::{ExitEvent, PluginSupervisor};
use crate::text::{bool_str, to_decimal};
use vstd::prelude::*;
use vstd::utf8::encode_utf8;

verus! {

/// Every exit is judged, as long as the restart count has room, and every instance can be
/// given up.
pub proof fn law_every_exit_is_judged(
    s: &mut PluginSupervisor,
    event: &ExitEvent,
    order: &RestartOrder,
)
    requires
        old(s).wf(),
        old(s).entries@.contains_key(event.plugin_id@) ==> old(
            s,
        ).entries@[event.plugin_id@].restart_count < u32::MAX,
    ensures
        call_requires(PluginSupervisor::on_exit, (s, event)),
        call_requires(PluginSupervisor::retire_exited, (s, event)),
        call_requires(PluginSupervisor::restart_cancelled, (&*old(s), order)),
{
}

/// A supervisor starts out with no plugin, no request, no stop and no epoch on record, and
/// with the settings that it was given.
pub proof fn law_supervisor_starts_out_empty(
    max_log_lines: usize,
    socket_path: String,
    data_dir: Option<String>,
    s: PluginSupervisor,
    id: Seq<char>,
)
    requires
        call_ensures(PluginSupervisor::new, (max_log_lines, socket_path, data_dir), s),
    ensures
        s.wf(),
        !s.entries@.contains_key(id),
        !s.forced_restarts@.contains_key(id),
        !s.stopped_epochs@.contains_key(id),
        !s.stopped_counts@.contains_key(id),
        !s.log_buffers@.contains_key(id),
        s.next_epoch == 0,
        s.max_log_lines == max_log_lines,
        s.socket_path == socket_path,
        s.data_dir == data_dir,
{
}

/// An exit of the registered instance that nobody stopped leads to a restart wherever the
/// policy asks for one and restarts are left: after every exit under `Always`, after every
/// failed one under `OnFailure`.
pub proof fn law_due_restart_happens(
    s: &mut PluginSupervisor,
    event: &ExitEvent,
    verdict: ExitVerdict,
)
    requires
        call_ensures(PluginSupervisor::on_exit, (s, event), verdict),
        old(s).entries@.contains_key(event.plugin_id@),
        old(s).entries@[event.plugin_id@].epoch == event.epoch,
        !(old(s).stopped_epochs@.contains_key(event.plugin_id@)
            && old(s).stopped_epochs@[event.plugin_id@] == event.epoch),
        ({
            let entry = old(s).entries@[event.plugin_id@];
            &&& entry.restart_count < entry.config.max_restarts
            &&& entry.config.restart_policy == RestartPolicy::Always || (
            entry.config.restart_policy == RestartPolicy::OnFailure && !event.success)
        }),
    ensures
        verdict is Restart,
{
}

/// A restart that was asked for happens at the exit of the registered instance, unless that
/// instance was stopped: policy, restart limit and manner of the exit do not matter.
pub proof fn law_requested_restart_happens(
    s: &mut PluginSupervisor,
    event: &ExitEvent,
    verdict: ExitVerdict,
)
    requires
        call_ensures(PluginSupervisor::on_exit, (s, event), verdict),
        old(s).entries@.contains_key(event.plugin_id@),
        old(s).entries@[event.plugin_id@].epoch == event.epoch,
        old(s).stopped_epochs@.contains_key(event.plugin_id@)
            ==> old(s).stopped_epochs@[event.plugin_id@] != event.epoch,
        old(s).forced_restarts@.contains_key(event.plugin_id@),
    ensures
        verdict is Restart,
{
}

/// Nothing else leads to a restart: the instance is the registered one and was not stopped,
/// and the restart was asked for or the policy has one left for such an exit.
pub proof fn law_no_other_restart_happens(
    s: &mut PluginSupervisor,
    event: &ExitEvent,
    order: RestartOrder,
)
    requires
        call_ensures(PluginSupervisor::on_exit, (s, event), ExitVerdict::Restart(order)),
    ensures
        old(s).entries@.contains_key(event.plugin_id@),
        old(s).entries@[event.plugin_id@].epoch == event.epoch,
        old(s).stopped_epochs@.contains_key(event.plugin_id@)
            ==> old(s).stopped_epochs@[event.plugin_id@] != event.epoch,
        ({
            let entry = old(s).entries@[event.plugin_id@];
            ||| old(s).forced_restarts@.contains_key(event.plugin_id@)
            ||| {
                &&& entry.restart_count < entry.config.max_restarts
                &&& entry.config.restart_policy != RestartPolicy::Never
                &&& entry.config.restart_policy == RestartPolicy::OnFailure ==> !event.success
            }
        }),
{
}

/// The same restriction as another, by its name where there is one.
pub open spec fn same_access(a: FsAccessMode, b: FsAccessMode) -> bool {
    match (a, b) {
        (FsAccessMode::Full, FsAccessMode::Full) => true,
        (FsAccessMode::Restricted(m), FsAccessMode::Restricted(n)) => m@ == n@,
        _ => false,
    }
}

/// The same configuration, setting by setting.
pub open spec fn same_settings(a: PluginConfig, b: PluginConfig) -> bool {
    &&& a.plugin_id@ == b.plugin_id@
    &&& a.binary_path@ == b.binary_path@
    &&& a.args.deep_view() == b.args.deep_view()
    &&& a.env.deep_view() == b.env.deep_view()
    &&& a.sandbox == b.sandbox
    &&& a.grace_seconds == b.grace_seconds
    &&& same_access(a.max_fs_access, b.max_fs_access)
    &&& a.readonly_paths.deep_view() == b.readonly_paths.deep_view()
    &&& a.writable_paths.deep_view() == b.writable_paths.deep_view()
    &&& a.max_procs == b.max_procs
    &&& a.max_vmem_mb == b.max_vmem_mb
    &&& a.restart_policy == b.restart_policy
    &&& a.max_restarts == b.max_restarts
}

/// A restart is ordered with the settings of the instance that exited, every one of them,
/// and counts as one restart more; it names that instance.
pub proof fn law_restart_is_ordered_as_the_instance_was(
    s: &mut PluginSupervisor,
    event: &ExitEvent,
    order: RestartOrder,
)
    requires
        call_ensures(PluginSupervisor::on_exit, (s, event), ExitVerdict::Restart(order)),
    ensures
        same_settings(order.config, old(s).entries@[event.plugin_id@].config),
        order.prev_count == old(s).entries@[event.plugin_id@].restart_count,
        order.new_count == old(s).entries@[event.plugin_id@].restart_count + 1,
        order.epoch == event.epoch,
        order.epoch == old(s).entries@[event.plugin_id@].epoch,
{
    let entry = old(s).entries@[event.plugin_id@];
    assert(order.config@ == entry.config@);
    assert(order.config@.max_fs_access == entry.config@.max_fs_access);
}

/// An exit is ignored exactly where it is of no registered instance or the instance was
/// stopped, and the verdict says which of the two holds.
pub proof fn law_exit_is_ignored_exactly_where_stale_or_stopped(
    s: &mut PluginSupervisor,
    event: &ExitEvent,
    verdict: ExitVerdict,
)
    requires
        call_ensures(PluginSupervisor::on_exit, (s, event), verdict),
    ensures
        verdict is Ignored <==> {
            ||| !old(s).entries@.contains_key(event.plugin_id@)
            ||| old(s).entries@[event.plugin_id@].epoch != event.epoch
            ||| {
                &&& old(s).stopped_epochs@.contains_key(event.plugin_id@)
                &&& old(s).stopped_epochs@[event.plugin_id@] == event.epoch
            }
        },
        verdict matches ExitVerdict::Ignored { is_current, was_stopped } ==> {
            &&& is_current <==> (old(s).entries@.contains_key(event.plugin_id@)
                && old(s).entries@[event.plugin_id@].epoch == event.epoch)
            &&& was_stopped <==> (old(s).stopped_epochs@.contains_key(event.plugin_id@)
                && old(s).stopped_epochs@[event.plugin_id@] == event.epoch)
        },
{
}

/// A plugin is given up exactly where its registered instance exited, was not stopped, was
/// not asked to restart and has no restart due; the verdict tells its restart count.
pub proof fn law_plugin_is_given_up_exactly_where_no_restart_is_due(
    s: &mut PluginSupervisor,
    event: &ExitEvent,
    verdict: ExitVerdict,
)
    requires
        call_ensures(PluginSupervisor::on_exit, (s, event), verdict),
        old(s).entries@.contains_key(event.plugin_id@),
        old(s).entries@[event.plugin_id@].epoch == event.epoch,
        old(s).stopped_epochs@.contains_key(event.plugin_id@)
            ==> old(s).stopped_epochs@[event.plugin_id@] != event.epoch,
    ensures
        verdict is Retire <==> {
            let entry = old(s).entries@[event.plugin_id@];
            &&& !old(s).forced_restarts@.contains_key(event.plugin_id@)
            &&& {
                ||| entry.restart_count >= entry.config.max_restarts
                ||| entry.config.restart_policy == RestartPolicy::Never
                ||| entry.config.restart_policy == RestartPolicy::OnFailure && event.success
            }
        },
        verdict matches ExitVerdict::Retire { restart_count } ==> restart_count == old(
            s,
        ).entries@[event.plugin_id@].restart_count,
{
}

/// An exit by itself changes nothing but the plugin's own pending request, and that only
/// where no other instance is registered.
pub proof fn law_exit_changes_the_request_only(
    s: &mut PluginSupervisor,
    event: &ExitEvent,
    verdict: ExitVerdict,
    id: Seq<char>,
)
    requires
        call_ensures(PluginSupervisor::on_exit, (s, event), verdict),
    ensures
        final(s).entries == old(s).entries,
        final(s).stopped_epochs == old(s).stopped_epochs,
        final(s).stopped_counts == old(s).stopped_counts,
        final(s).log_buffers == old(s).log_buffers,
        final(s).next_epoch == old(s).next_epoch,
        final(s).max_log_lines == old(s).max_log_lines,
        final(s).socket_path == old(s).socket_path,
        final(s).data_dir == old(s).data_dir,
        final(s).forced_restarts@.contains_key(id) <==> {
            &&& old(s).forced_restarts@.contains_key(id)
            &&& id == event.plugin_id@ ==> (old(s).entries@.contains_key(id)
                && old(s).entries@[id].epoch != event.epoch)
        },
{
}

/// An exit that is reported twice leads to at most one forced restart: the second report
/// finds the request used up, and the policy decides.
pub proof fn law_second_report_finds_no_request(
    s: &mut PluginSupervisor,
    event: &ExitEvent,
    first: ExitVerdict,
    t: &mut PluginSupervisor,
    second: ExitVerdict,
)
    requires
        call_ensures(PluginSupervisor::on_exit, (s, event), first),
        call_ensures(PluginSupervisor::on_exit, (t, event), second),
        *old(t) == *final(s),
        second is Restart,
    ensures
        first is Restart,
        old(s).entries@[event.plugin_id@].restart_count < old(
            s,
        ).entries@[event.plugin_id@].config.max_restarts,
        old(s).entries@[event.plugin_id@].config.restart_policy != RestartPolicy::Never,
{
}

/// A restart that waits is called off exactly where the instance that it follows is the one
/// that was last stopped.
pub proof fn law_waiting_restart_is_called_off_by_a_stop(
    s: &PluginSupervisor,
    order: &RestartOrder,
    cancelled: bool,
)
    requires
        call_ensures(PluginSupervisor::restart_cancelled, (s, order), cancelled),
    ensures
        cancelled <==> s.stopped_epochs@.contains_key(order.config.plugin_id@)
            && s.stopped_epochs@[order.config.plugin_id@] == order.epoch,
{
}

/// Giving up the plugin of an exited instance takes that instance out, puts its restart
/// count on record and touches nothing else.
pub proof fn law_exited_instance_is_taken_out(s: &mut PluginSupervisor, event: &ExitEvent)
    requires
        call_ensures(PluginSupervisor::retire_exited, (s, event), ()),
        old(s).entries@.contains_key(event.plugin_id@),
        old(s).entries@[event.plugin_id@].epoch == event.epoch,
    ensures
        final(s).entries@ == old(s).entries@.remove(event.plugin_id@),
        final(s).stopped_counts@ == old(s).stopped_counts@.insert(
            event.plugin_id@,
            old(s).entries@[event.plugin_id@].restart_count,
        ),
        final(s).forced_restarts == old(s).forced_restarts,
        final(s).stopped_epochs == old(s).stopped_epochs,
        final(s).log_buffers == old(s).log_buffers,
        final(s).next_epoch == old(s).next_epoch,
        final(s).max_log_lines == old(s).max_log_lines,
        final(s).socket_path == old(s).socket_path,
        final(s).data_dir == old(s).data_dir,
{
}

/// Where the exited instance is not the registered one, giving it up changes nothing.
pub proof fn law_other_instance_is_not_taken_out(s: &mut PluginSupervisor, event: &ExitEvent)
    requires
        call_ensures(PluginSupervisor::retire_exited, (s, event), ()),
        !old(s).entries@.contains_key(event.plugin_id@) || old(s).entries@[event.plugin_id@].epoch
            != event.epoch,
    ensures
        *final(s) == *old(s),
{
}

/// Giving a plugin up takes it out and records its restart count, 0 where it was not
/// registered; every other plugin keeps its place.
pub proof fn law_given_up_plugin_is_taken_out(s: &mut PluginSupervisor, plugin_id: &String)
    requires
        call_ensures(PluginSupervisor::retire, (s, plugin_id), ()),
    ensures
        final(s).entries@ == old(s).entries@.remove(plugin_id@),
        old(s).entries@.contains_key(plugin_id@) ==> final(s).stopped_counts@ == old(
            s,
        ).stopped_counts@.insert(plugin_id@, old(s).entries@[plugin_id@].restart_count),
        !old(s).entries@.contains_key(plugin_id@) ==> final(s).stopped_counts@ == old(
            s,
        ).stopped_counts@.insert(plugin_id@, 0),
        final(s).forced_restarts == old(s).forced_restarts,
        final(s).stopped_epochs == old(s).stopped_epochs,
        final(s).log_buffers == old(s).log_buffers,
        final(s).next_epoch == old(s).next_epoch,
        final(s).max_log_lines == old(s).max_log_lines,
        final(s).socket_path == old(s).socket_path,
        final(s).data_dir == old(s).data_dir,
{
}

/// A death notice names the plugin and its restart count, says whether a restart follows,
/// and is no repetition. `count` and `flag` are the number and the truth value as text.
pub proof fn law_death_notice_tells_what_happened(
    plugin_id: &str,
    restart_count: u32,
    will_restart: bool,
    count: String,
    flag: &'static str,
    notice: Event,
)
    requires
        call_ensures(death_notice, (plugin_id, restart_count, will_restart), notice),
        call_ensures(to_decimal, (restart_count as u64,), count),
        call_ensures(bool_str, (will_restart,), flag),
    ensures
        notice.event_id@ == "sys-died-"@ + plugin_id@ + "-"@ + count@,
        notice.event_type@ == "system.plugin_died"@,
        notice.payload_json@ == encode_utf8(
            "{\"plugin_id\":\""@ + plugin_id@ + "\",\"restart_count\":"@ + count@
                + ",\"will_restart\":"@ + flag@ + "}"@,
        ),
        notice.retry_count == 0,
{
}

/// An exit that counts is announced wherever there is a bus and a registry, as the death
/// notice for the restart count of the instance that exited; no other exit is.
pub proof fn law_exit_is_announced(
    event: &ExitEvent,
    verdict: &ExitVerdict,
    has_bus: bool,
    has_registry: bool,
    announced: Option<Event>,
    plugin_id: &str,
    restart_count: u32,
    will_restart: bool,
    notice: Event,
)
    requires
        call_ensures(exit_notice, (event, verdict, has_bus, has_registry), announced),
        plugin_id@ == event.plugin_id@,
        match *verdict {
            ExitVerdict::Ignored { .. } => true,
            ExitVerdict::Restart(order) => restart_count == order.prev_count && will_restart,
            ExitVerdict::Retire { restart_count: count } => restart_count == count
                && !will_restart,
        },
        call_ensures(death_notice, (plugin_id, restart_count, will_restart), notice),
    ensures
        announced is Some <==> (has_bus && has_registry && *verdict !is Ignored),
        announced matches Some(e) ==> {
            &&& e.event_id@ == notice.event_id@
            &&& e.event_type@ == notice.event_type@
            &&& e.payload_json@ == notice.payload_json@
            &&& e.retry_count == notice.retry_count
        },
{
}

} // verus!
