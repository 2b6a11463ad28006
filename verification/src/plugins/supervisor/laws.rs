//! What holds of the supervisor across its operations.
use crate::plugins::config::RestartPolicy;
use crate::plugins::errors::VynkorError;
use crate::plugins::supervisor::monitor::{
    exit_case, exited_retired, is_current, is_restart_order, is_stale, policy_restarts,
    request_settled, was_stopped, RestartOrder,
};
use crate::plugins::supervisor::spawn::{
    child_identity, configured_env, entry_registered, env_value, epoch_handed_out, kernel_env,
    is_spawn_error, launch_env, may_register, reported_pid, shim_env, spawn_refused,
    supervisor_env, text_of, ChildReport, EnvText, Prepared, ShimReply, SHIM_DEADLINE_SECS,
};
use crate::plugins::supervisor::watchdog::{action_for, outer_pid, WatchdogAction};
use crate::plugins::supervisor::{ExitEvent, PluginEntry, PluginSupervisor};
use crate::text::{
    decimal, is_digit, is_white_space, law_decimal_round_trip, lemma_decimal_digits, trimmed_end,
    trimmed_start,
};
use vstd::prelude::*;

verus! {

/// A manual start is refused exactly while the plugin is registered. A restart is never
/// refused.
pub proof fn law_manual_start_is_refused_while_registered(
    s: PluginSupervisor,
    plugin_id: Seq<char>,
    epoch: u64,
)
    ensures
        spawn_refused(s, plugin_id, None) <==> s.entries@.contains_key(plugin_id),
        !spawn_refused(s, plugin_id, Some(epoch)),
{
}

/// A manual start replaces no instance, whatever was registered since its admission: every
/// instance that was registered stays so, and the new one is added.
pub proof fn law_manual_start_replaces_no_instance(
    pre: PluginSupervisor,
    post: PluginSupervisor,
    entry: PluginEntry,
)
    requires
        may_register(pre, entry.config.plugin_id@, None),
        entry_registered(pre, post, entry),
    ensures
        !pre.entries@.contains_key(entry.config.plugin_id@),
        forall|k: Seq<char>| #[trigger]
            pre.entries@.contains_key(k) ==> post.entries@.contains_key(k) && post.entries@[k]
                == pre.entries@[k],
        post.entries@.contains_key(entry.config.plugin_id@),
        post.entries@[entry.config.plugin_id@] == entry,
{
}

/// Of two manual starts of one plugin that are both under way, the second to come up is not
/// registered: the first keeps its place.
pub proof fn law_second_of_two_manual_starts_is_turned_away(
    pre: PluginSupervisor,
    post: PluginSupervisor,
    first: PluginEntry,
)
    requires
        entry_registered(pre, post, first),
    ensures
        !may_register(post, first.config.plugin_id@, None),
{
}

/// A restart replaces the instance whose exit led to it, and no other.
pub proof fn law_restart_replaces_the_instance_that_exited(
    pre: PluginSupervisor,
    post: PluginSupervisor,
    replace_epoch: u64,
    entry: PluginEntry,
)
    requires
        may_register(pre, entry.config.plugin_id@, Some(replace_epoch)),
        entry_registered(pre, post, entry),
    ensures
        pre.entries@.contains_key(entry.config.plugin_id@)
            ==> pre.entries@[entry.config.plugin_id@].epoch == replace_epoch,
        forall|k: Seq<char>| #[trigger]
            pre.entries@.contains_key(k) && k != entry.config.plugin_id@
                ==> post.entries@.contains_key(k) && post.entries@[k] == pre.entries@[k],
{
}

/// A new epoch is higher than every epoch on record, of whatever plugin.
pub proof fn law_new_epoch_is_fresh(pre: PluginSupervisor, post: PluginSupervisor, epoch: u64)
    requires
        pre.wf(),
        epoch_handed_out(pre, post, epoch),
    ensures
        post.wf(),
        forall|k: Seq<char>| #[trigger]
            post.entries@.contains_key(k) ==> post.entries@[k].epoch < epoch,
        forall|k: Seq<char>| #[trigger]
            post.stopped_epochs@.contains_key(k) ==> post.stopped_epochs@[k] < epoch,
        forall|k: Seq<char>| #[trigger]
            post.log_buffers@.contains_key(k) ==> post.log_buffers@[k].epoch < epoch,
{
    assert forall|k: Seq<char>| #[trigger] post.entries@.contains_key(k) implies post.entries@[k].epoch
        < epoch by {
        assert(pre.entries@.contains_key(k));
    }
    assert forall|k: Seq<char>| #[trigger]
        post.stopped_epochs@.contains_key(k) implies post.stopped_epochs@[k] < epoch by {
        assert(pre.stopped_epochs@.contains_key(k));
    }
    assert forall|k: Seq<char>| #[trigger]
        post.log_buffers@.contains_key(k) implies post.log_buffers@[k].epoch < epoch by {
        assert(pre.log_buffers@.contains_key(k));
    }
}

/// Once a plugin's new instance is registered, an exit of any instance from before its
/// spawn is ignored: it is never taken for an exit of the new one. `pre` and `mid` stand
/// around the moment that the epoch was handed out, `later` and `post` around the
/// registration.
pub proof fn law_exit_of_an_older_instance_is_ignored(
    pre: PluginSupervisor,
    mid: PluginSupervisor,
    later: PluginSupervisor,
    post: PluginSupervisor,
    entry: PluginEntry,
    event: ExitEvent,
)
    requires
        pre.wf(),
        epoch_handed_out(pre, mid, entry.epoch),
        entry_registered(later, post, entry),
        event.plugin_id@ == entry.config.plugin_id@,
        event.epoch <= pre.next_epoch,
    ensures
        exit_case(post, event) is Ignored,
{
}

/// The exit of an instance that was just registered counts, though an older instance of
/// the plugin was stopped.
pub proof fn law_exit_of_a_new_instance_counts(
    pre: PluginSupervisor,
    mid: PluginSupervisor,
    post: PluginSupervisor,
    entry: PluginEntry,
    event: ExitEvent,
)
    requires
        pre.wf(),
        epoch_handed_out(pre, mid, entry.epoch),
        entry_registered(mid, post, entry),
        event.plugin_id@ == entry.config.plugin_id@,
        event.epoch == entry.epoch,
    ensures
        !(exit_case(post, event) is Ignored),
{
    law_new_epoch_is_fresh(pre, mid, entry.epoch);
}

/// A stop is final: the exit of a stopped instance leads to nothing, and a restart of it
/// that was already waiting is cancelled.
pub proof fn law_stop_is_final(s: PluginSupervisor, event: ExitEvent)
    requires
        s.stopped_epochs@.contains_key(event.plugin_id@),
        s.stopped_epochs@[event.plugin_id@] == event.epoch,
    ensures
        exit_case(s, event) is Ignored,
        was_stopped(s, event.plugin_id@, event.epoch),
{
}

/// Registering an instance touches no other plugin.
pub proof fn law_registration_touches_one_plugin(
    pre: PluginSupervisor,
    post: PluginSupervisor,
    entry: PluginEntry,
    other: Seq<char>,
)
    requires
        entry_registered(pre, post, entry),
        other != entry.config.plugin_id@,
    ensures
        post.entries@.contains_key(other) == pre.entries@.contains_key(other),
        pre.entries@.contains_key(other) ==> post.entries@[other] == pre.entries@[other],
{
}

/// Without a request, a restart respects the plugin's policy and stays within its number
/// of restarts.
pub proof fn law_restarts_stay_within_policy(s: PluginSupervisor, event: ExitEvent)
    requires
        exit_case(s, event) is Restart,
        !s.forced_restarts@.contains_key(event.plugin_id@),
    ensures
        ({
            let entry = s.entries@[event.plugin_id@];
            &&& entry.restart_count + 1 <= entry.config.max_restarts
            &&& entry.config.restart_policy != RestartPolicy::Never
            &&& entry.config.restart_policy == RestartPolicy::OnFailure ==> !event.success
        }),
{
}

/// The supervisor as it handles the exits of one plugin: its state, and the restart that
/// waits for its backoff delay or its spawn, if any. Exits are handled one at a time, so
/// there is at most one.
pub struct LoopState {
    pub state: PluginSupervisor,
    pub pending: Option<RestartOrder>,
}

/// What can happen as far as one plugin is concerned, short of a request for a restart and
/// of a manual start.
pub enum LoopStep {
    /// Anything that registers no instance of the plugin: its stop or retirement, an ignored
    /// exit, an epoch handed out, a log line, whatever befalls another plugin.
    Elsewhere,
    /// An exit of the plugin that leads to a restart.
    Exit { event: ExitEvent, order: RestartOrder },
    /// The waiting restart is cancelled, or its spawn fails.
    Dropped,
    /// The waiting restart comes up as this instance.
    Respawned { entry: PluginEntry },
}

/// `step` leads from `pre` to `post` for this plugin.
pub open spec fn takes_step(
    pre: LoopState,
    step: LoopStep,
    post: LoopState,
    plugin_id: Seq<char>,
) -> bool {
    match step {
        LoopStep::Elsewhere => {
            &&& post.pending == pre.pending
            &&& post.state.entries@.contains_key(plugin_id) ==> {
                &&& pre.state.entries@.contains_key(plugin_id)
                &&& post.state.entries@[plugin_id] == pre.state.entries@[plugin_id]
            }
        },
        LoopStep::Exit { event, order } => {
            &&& event.plugin_id@ == plugin_id
            &&& pre.pending is None
            &&& exit_case(pre.state, event) is Restart
            &&& is_restart_order(pre.state, event, order)
            &&& request_settled(pre.state, post.state, event)
            &&& post.pending == Some(order)
        },
        LoopStep::Dropped => {
            &&& post.state == pre.state
            &&& post.pending is None
        },
        LoopStep::Respawned { entry } => {
            &&& pre.pending matches Some(order) && {
                &&& entry.config@ == order.config@
                &&& entry.restart_count == order.new_count
            }
            &&& entry.config.plugin_id@ == plugin_id
            &&& entry_registered(pre.state, post.state, entry)
            &&& post.pending is None
        },
    }
}

/// A history of the plugin without a request for a restart: `steps[i]` leads from
/// `states[i]` to the next state.
pub open spec fn is_history(
    states: Seq<LoopState>,
    steps: Seq<LoopStep>,
    plugin_id: Seq<char>,
) -> bool {
    &&& states.len() == steps.len() + 1
    &&& forall|i: int|
        0 <= i < states.len() ==> !(
        #[trigger] states[i]).state.forced_restarts@.contains_key(plugin_id)
    &&& forall|i: int|
        0 <= i < steps.len() ==> takes_step(
            states[i],
            #[trigger] steps[i],
            states[i + 1],
            plugin_id,
        )
}

/// The restart counts of the instances that came up, in order.
pub open spec fn respawn_counts(steps: Seq<LoopStep>) -> Seq<u32>
    decreases steps.len(),
{
    if steps.len() == 0 {
        Seq::empty()
    } else {
        let before = respawn_counts(steps.drop_last());
        match steps.last() {
            LoopStep::Respawned { entry } => before.push(entry.restart_count),
            _ => before,
        }
    }
}

/// What holds at every point of a history that begins with a first instance under this
/// policy and number of restarts.
spec fn history_invariant(
    now: LoopState,
    counts: Seq<u32>,
    plugin_id: Seq<char>,
    policy: RestartPolicy,
    max_restarts: u32,
) -> bool {
    &&& counts.len() <= max_restarts
    &&& policy == RestartPolicy::Never ==> counts.len() == 0
    &&& forall|j: int| 0 <= j < counts.len() ==> #[trigger] counts[j] == j + 1
    &&& now.state.entries@.contains_key(plugin_id) ==> {
        let entry = now.state.entries@[plugin_id];
        &&& entry.restart_count == counts.len()
        &&& entry.config.restart_policy == policy
        &&& entry.config.max_restarts == max_restarts
    }
    &&& now.pending matches Some(order) ==> {
        &&& order.new_count == counts.len() + 1
        &&& order.new_count <= max_restarts
        &&& order.config.restart_policy == policy
        &&& order.config.max_restarts == max_restarts
        &&& policy != RestartPolicy::Never
    }
}

/// A history keeps its invariant, from its first state to the one after `n` steps.
proof fn lemma_history(
    states: Seq<LoopState>,
    steps: Seq<LoopStep>,
    plugin_id: Seq<char>,
    policy: RestartPolicy,
    max_restarts: u32,
    n: int,
)
    requires
        is_history(states, steps, plugin_id),
        history_invariant(states[0], Seq::empty(), plugin_id, policy, max_restarts),
        0 <= n <= steps.len(),
    ensures
        history_invariant(
            states[n],
            respawn_counts(steps.take(n)),
            plugin_id,
            policy,
            max_restarts,
        ),
    decreases n,
{
    if n == 0 {
        assert(steps.take(0) =~= Seq::empty());
    } else {
        lemma_history(states, steps, plugin_id, policy, max_restarts, n - 1);
        assert(steps.take(n).drop_last() =~= steps.take(n - 1));
        assert(steps.take(n).last() == steps[n - 1]);
        let before = states[n - 1];
        assert(!before.state.forced_restarts@.contains_key(plugin_id));
        assert(takes_step(before, steps[n - 1], states[n - 1 + 1], plugin_id));
        match steps[n - 1] {
            LoopStep::Exit { event, order } => {
                let entry = before.state.entries@[plugin_id];
                assert(order.config@.restart_policy == entry.config@.restart_policy);
                assert(order.config@.max_restarts == entry.config@.max_restarts);
            },
            LoopStep::Respawned { entry } => {
                let order = before.pending->0;
                assert(entry.config@.restart_policy == order.config@.restart_policy);
                assert(entry.config@.max_restarts == order.config@.max_restarts);
            },
            _ => {},
        }
    }
}

/// Over any history of a plugin without a request for a restart and without a new manual
/// start, the restart counts of the instances that come up are 1, 2, 3 and so on. None
/// passes the plugin's number of restarts, neither when the instance comes up nor at any
/// time on record; a plugin whose policy is never to restart, or whose number is 0, does not
/// come up again at all.
pub proof fn law_restart_counts_climb_to_the_limit(
    states: Seq<LoopState>,
    steps: Seq<LoopStep>,
    plugin_id: Seq<char>,
)
    requires
        is_history(states, steps, plugin_id),
        states[0].pending is None,
        states[0].state.entries@.contains_key(plugin_id),
        states[0].state.entries@[plugin_id].restart_count == 0,
    ensures
        ({
            let config = states[0].state.entries@[plugin_id].config;
            let counts = respawn_counts(steps);
            &&& forall|j: int| 0 <= j < counts.len() ==> #[trigger] counts[j] == j + 1
            &&& counts.len() <= config.max_restarts
            &&& forall|j: int| 0 <= j < counts.len() ==> #[trigger] counts[j] <= config.max_restarts
            &&& config.restart_policy == RestartPolicy::Never ==> counts.len() == 0
            &&& forall|i: int|
                0 <= i < states.len() && (
                #[trigger] states[i]).state.entries@.contains_key(plugin_id)
                    ==> states[i].state.entries@[plugin_id].restart_count <= config.max_restarts
        }),
{
    let config = states[0].state.entries@[plugin_id].config;
    let counts = respawn_counts(steps);
    assert(steps.take(steps.len() as int) =~= steps);
    lemma_history(
        states,
        steps,
        plugin_id,
        config.restart_policy,
        config.max_restarts,
        steps.len() as int,
    );
    assert forall|i: int|
        0 <= i < states.len() && (#[trigger] states[i]).state.entries@.contains_key(
            plugin_id,
        ) implies states[i].state.entries@[plugin_id].restart_count <= config.max_restarts by {
        lemma_history(states, steps, plugin_id, config.restart_policy, config.max_restarts, i);
    }
}

/// A requested restart goes ahead whatever the policy says, unless the exit is not of the
/// current instance or the instance was stopped.
pub proof fn law_requested_restart_overrides_policy(s: PluginSupervisor, event: ExitEvent)
    requires
        s.forced_restarts@.contains_key(event.plugin_id@),
        is_current(s, event.plugin_id@, event.epoch),
        !was_stopped(s, event.plugin_id@, event.epoch),
    ensures
        exit_case(s, event) is Restart,
{
}

/// A request for a restart is good for one exit of the instance that it is for: after it,
/// the policy decides again.
pub proof fn law_request_serves_one_exit(
    pre: PluginSupervisor,
    post: PluginSupervisor,
    first: ExitEvent,
    second: ExitEvent,
)
    requires
        !is_stale(pre, first),
        request_settled(pre, post, first),
        second.plugin_id@ == first.plugin_id@,
        exit_case(post, second) is Restart,
    ensures
        policy_restarts(
            post.entries@[second.plugin_id@].config,
            post.entries@[second.plugin_id@].restart_count,
            second.success,
        ),
{
}

/// An exit of an older instance leaves a request for a restart pending: the current
/// instance's own exit still leads to a restart, whatever its policy says.
pub proof fn law_stale_exit_leaves_a_request_pending(
    pre: PluginSupervisor,
    post: PluginSupervisor,
    stale: ExitEvent,
    current: ExitEvent,
)
    requires
        pre.forced_restarts@.contains_key(current.plugin_id@),
        is_current(pre, current.plugin_id@, current.epoch),
        !was_stopped(pre, current.plugin_id@, current.epoch),
        stale.plugin_id@ == current.plugin_id@,
        stale.epoch != current.epoch,
        request_settled(pre, post, stale),
    ensures
        exit_case(pre, stale) is Ignored,
        post.forced_restarts@.contains_key(current.plugin_id@),
        exit_case(post, current) is Restart,
{
}

/// A request does not outlive the plugin: an exit that finds no instance registered uses it
/// up, so that it cannot touch a later start.
pub proof fn law_request_goes_with_the_last_instance(
    pre: PluginSupervisor,
    post: PluginSupervisor,
    event: ExitEvent,
)
    requires
        !pre.entries@.contains_key(event.plugin_id@),
        request_settled(pre, post, event),
    ensures
        !post.forced_restarts@.contains_key(event.plugin_id@),
{
}

/// A plugin that was given up is registered no more, its restart count stays on record, and
/// it can be started by hand again.
pub proof fn law_retired_plugin_can_be_started_again(
    pre: PluginSupervisor,
    mid: PluginSupervisor,
    post: PluginSupervisor,
    event: ExitEvent,
)
    requires
        exit_case(pre, event) is Retire,
        request_settled(pre, mid, event),
        exited_retired(mid, post, event),
    ensures
        !post.entries@.contains_key(event.plugin_id@),
        post.stopped_counts@[event.plugin_id@] == pre.entries@[event.plugin_id@].restart_count,
        !spawn_refused(post, event.plugin_id@, None),
        exit_case(post, event) is Ignored,
{
}

/// Giving up an exited instance never takes out another one: whatever else is registered by
/// then, under the same identifier too, stays registered.
pub proof fn law_retirement_spares_every_other_instance(
    pre: PluginSupervisor,
    post: PluginSupervisor,
    event: ExitEvent,
    id: Seq<char>,
)
    requires
        exited_retired(pre, post, event),
        pre.entries@.contains_key(id),
        id != event.plugin_id@ || pre.entries@[id].epoch != event.epoch,
    ensures
        post.entries@.contains_key(id),
        post.entries@[id] == pre.entries@[id],
{
}

/// An instance that was just registered has its own log, with the lines that it has written
/// since its log was opened; no other plugin's log is touched.
pub proof fn law_registered_instance_has_its_log(
    pre: PluginSupervisor,
    post: PluginSupervisor,
    entry: PluginEntry,
    other: Seq<char>,
)
    requires
        entry_registered(pre, post, entry),
        other != entry.config.plugin_id@,
    ensures
        post.logs_for(entry.config.plugin_id@, entry.epoch),
        pre.logs_for(entry.config.plugin_id@, entry.epoch)
            ==> post.log_buffers@[entry.config.plugin_id@]
            == pre.log_buffers@[entry.config.plugin_id@],
        post.log_buffers@.contains_key(other) == pre.log_buffers@.contains_key(other),
        pre.log_buffers@.contains_key(other) ==> post.log_buffers@[other]
            == pre.log_buffers@[other],
{
    let id = entry.config.plugin_id@;
    assert(post.log_buffers@.remove(id).contains_key(other) == pre.log_buffers@.remove(
        id,
    ).contains_key(other));
    assert(post.log_buffers@.remove(id)[other] == pre.log_buffers@.remove(id)[other]);
}

/// The message for a shim that took too long names the deadline.
pub proof fn law_timeout_message_names_the_deadline(error: VynkorError, shim_pid: Option<u32>)
    requires
        is_spawn_error(ChildReport::Shim { reply: ShimReply::TimedOut, shim_pid }, error),
    ensures
        error matches VynkorError::Internal(m) && m@
            == "sandbox shim did not report a plugin pid within "@ + decimal(
            SHIM_DEADLINE_SECS as nat,
        ) + "s"@,
{
    reveal_strlit("sandbox shim did not report a plugin pid within 15s");
    reveal_strlit("sandbox shim did not report a plugin pid within ");
    reveal_strlit("s");
    reveal_with_fuel(decimal, 3);
    assert(decimal(15) =~= seq!['1', '5']);
    assert("sandbox shim did not report a plugin pid within 15s"@
        =~= "sandbox shim did not report a plugin pid within "@ + seq!['1', '5'] + "s"@);
}

/// A sandboxed plugin comes up only through its shim, which has named a positive process
/// number: no report of any other kind registers it.
pub proof fn law_sandboxed_plugin_comes_up_through_its_shim(report: ChildReport)
    requires
        report is Shim,
        child_identity(report) is Some,
    ensures
        child_identity(report)->0.shim_pid is Some,
        child_identity(report)->0.shim_pid == report->shim_pid,
        child_identity(report)->0.pid > 0,
        report->reply matches ShimReply::Line(line) && reported_pid(text_of(line)) == Some(
            child_identity(report)->0.pid,
        ),
{
}

/// Leading white space does not count.
proof fn lemma_trimmed_start_skips(space: Seq<char>, rest: Seq<char>)
    requires
        forall|i: int| 0 <= i < space.len() ==> is_white_space(#[trigger] space[i]),
        rest.len() > 0,
        !is_white_space(rest[0]),
    ensures
        trimmed_start(space + rest) == rest,
    decreases space.len(),
{
    if space.len() == 0 {
        assert(space + rest =~= rest);
    } else {
        assert(is_white_space(space[0]));
        assert((space + rest)[0] == space[0]);
        assert((space + rest).skip(1) =~= space.skip(1) + rest);
        lemma_trimmed_start_skips(space.skip(1), rest);
    }
}

/// Trailing white space does not count.
proof fn lemma_trimmed_end_skips(rest: Seq<char>, space: Seq<char>)
    requires
        forall|i: int| 0 <= i < space.len() ==> is_white_space(#[trigger] space[i]),
        rest.len() > 0,
        !is_white_space(rest.last()),
    ensures
        trimmed_end(rest + space) == rest,
    decreases space.len(),
{
    if space.len() == 0 {
        assert(rest + space =~= rest);
    } else {
        assert(is_white_space(space[space.len() - 1]));
        assert((rest + space).last() == space.last());
        assert((rest + space).drop_last() =~= rest + space.drop_last());
        lemma_trimmed_end_skips(rest, space.drop_last());
    }
}

/// A shim that prints a process number in decimal is understood, whatever white space it
/// puts around it.
pub proof fn law_printed_pid_is_understood(before: Seq<char>, pid: u32, after: Seq<char>)
    requires
        pid > 0,
        forall|i: int| 0 <= i < before.len() ==> is_white_space(#[trigger] before[i]),
        forall|i: int| 0 <= i < after.len() ==> is_white_space(#[trigger] after[i]),
    ensures
        reported_pid(Some(before + decimal(pid as nat) + after)) == Some(pid),
{
    let number = decimal(pid as nat);
    lemma_decimal_digits(pid as nat);
    assert(is_digit(number[0]));
    assert(is_digit(number[number.len() - 1]));
    assert((before + number).last() == number.last());
    lemma_trimmed_end_skips(before + number, after);
    lemma_trimmed_start_skips(before, number);
    law_decimal_round_trip(pid);
}

/// An optional text as the value of a variable.
pub open spec fn as_text(t: Option<Seq<char>>) -> Option<EnvText> {
    match t {
        Some(t) => Some(EnvText::Text(t)),
        None => None,
    }
}

/// The value of a variable after two lists of assignments: the second list decides where it
/// has a say.
proof fn lemma_env_value_of_sum(
    a: Seq<(Seq<char>, EnvText)>,
    b: Seq<(Seq<char>, EnvText)>,
    key: Seq<char>,
)
    ensures
        env_value(a + b, key) == (match env_value(b, key) {
            Some(v) => Some(v),
            None => env_value(a, key),
        }),
    decreases b.len(),
{
    if b.len() == 0 {
        assert(a + b =~= a);
    } else {
        assert((a + b).last() == b.last());
        assert((a + b).drop_last() =~= a + b.drop_last());
        lemma_env_value_of_sum(a, b.drop_last(), key);
    }
}

/// A variable that the configuration sets has the configured value, even where the
/// supervisor sets it too; any other has the supervisor's.
pub proof fn law_configured_variables_win(p: Prepared, socket_path: Seq<char>, key: Seq<char>)
    ensures
        env_value(launch_env(p, socket_path), key) == (match env_value(
            configured_env(p.config.env.deep_view()),
            key,
        ) {
            Some(v) => Some(v),
            None => env_value(supervisor_env(p, socket_path), key),
        }),
{
    lemma_env_value_of_sum(
        supervisor_env(p, socket_path),
        configured_env(p.config.env.deep_view()),
        key,
    );
}

/// The names that the supervisor gives to its variables differ.
proof fn lemma_variable_names_differ()
    ensures
        "VYN_SOCKET_PATH"@ != "VYN_DATA_DIR"@,
        "VYN_SOCKET_PATH"@ != "VYN_SHIM_GRACE_SECS"@,
        "VYN_DATA_DIR"@ != "VYN_SHIM_GRACE_SECS"@,
        "VYN_MAX_FS_ACCESS"@ != "VYN_SOCKET_PATH"@,
        "VYN_MAX_FS_ACCESS"@ != "VYN_DATA_DIR"@,
        "VYN_MAX_FS_ACCESS"@ != "VYN_SHIM_GRACE_SECS"@,
        "VYN_MAX_FS_ACCESS"@ != "VYN_RO_PATHS"@,
        "VYN_MAX_FS_ACCESS"@ != "VYN_RW_PATHS"@,
        "VYN_RO_PATHS"@ != "VYN_SOCKET_PATH"@,
        "VYN_RO_PATHS"@ != "VYN_DATA_DIR"@,
        "VYN_RO_PATHS"@ != "VYN_SHIM_GRACE_SECS"@,
        "VYN_RO_PATHS"@ != "VYN_RW_PATHS"@,
        "VYN_RW_PATHS"@ != "VYN_SOCKET_PATH"@,
        "VYN_RW_PATHS"@ != "VYN_DATA_DIR"@,
        "VYN_RW_PATHS"@ != "VYN_SHIM_GRACE_SECS"@,
{
    reveal_strlit("VYN_SOCKET_PATH");
    reveal_strlit("VYN_DATA_DIR");
    reveal_strlit("VYN_SHIM_GRACE_SECS");
    reveal_strlit("VYN_MAX_FS_ACCESS");
    reveal_strlit("VYN_RO_PATHS");
    reveal_strlit("VYN_RW_PATHS");
    assert("VYN_SOCKET_PATH"@.len() == 15);
    assert("VYN_DATA_DIR"@.len() == 12 && "VYN_DATA_DIR"@[4] == 'D');
    assert("VYN_SHIM_GRACE_SECS"@.len() == 19);
    assert("VYN_MAX_FS_ACCESS"@.len() == 17);
    assert("VYN_RO_PATHS"@.len() == 12 && "VYN_RO_PATHS"@[4] == 'R');
    assert("VYN_RW_PATHS"@.len() == 12 && "VYN_RW_PATHS"@[4] == 'R');
    assert("VYN_RO_PATHS"@[5] != "VYN_RW_PATHS"@[5]);
}

/// Every plugin learns the kernel socket, and its data directory exactly where it has one,
/// unless its own configuration says otherwise.
pub proof fn law_plugin_learns_socket_and_data_dir(p: Prepared, socket_path: Seq<char>)
    ensures
        env_value(supervisor_env(p, socket_path), "VYN_SOCKET_PATH"@) == Some(
            EnvText::Text(socket_path),
        ),
        env_value(supervisor_env(p, socket_path), "VYN_DATA_DIR"@) == as_text(
            text_of(p.plugin_data_dir),
        ),
{
    reveal_with_fuel(env_value, 8);
    lemma_variable_names_differ();
    let shim = if p.use_shim {
        shim_env(p.config, p.writable_paths.deep_view())
    } else {
        Seq::empty()
    };
    let kernel = kernel_env(socket_path, text_of(p.plugin_data_dir));
    lemma_env_value_of_sum(shim, kernel, "VYN_SOCKET_PATH"@);
    lemma_env_value_of_sum(shim, kernel, "VYN_DATA_DIR"@);
    lemma_shim_env(p);
    if p.plugin_data_dir is Some {
        assert(kernel.drop_last() =~= seq![("VYN_SOCKET_PATH"@, EnvText::Text(socket_path))]);
        assert(kernel.drop_last().drop_last() =~= Seq::empty());
    } else {
        assert(kernel.drop_last() =~= Seq::empty());
    }
}

/// The variables that the shim gets.
proof fn lemma_shim_env(p: Prepared)
    ensures
        ({
            let env = shim_env(p.config, p.writable_paths.deep_view());
            let mode = p.config.max_fs_access@;
            &&& env_value(env, "VYN_SOCKET_PATH"@) is None
            &&& env_value(env, "VYN_DATA_DIR"@) is None
            &&& env_value(env, "VYN_MAX_FS_ACCESS"@) == as_text(mode)
            &&& env_value(env, "VYN_RO_PATHS"@) == (if mode is Some {
                Some(EnvText::Paths(p.config.readonly_paths.deep_view()))
            } else {
                None
            })
            &&& env_value(env, "VYN_RW_PATHS"@) == (if mode is Some {
                Some(EnvText::Paths(p.writable_paths.deep_view()))
            } else {
                None
            })
        }),
{
    reveal_with_fuel(env_value, 8);
    lemma_variable_names_differ();
    let env = shim_env(p.config, p.writable_paths.deep_view());
    let grace = if p.config.grace_seconds > 0 {
        seq![
            ("VYN_SHIM_GRACE_SECS"@, EnvText::Text(decimal(p.config.grace_seconds as nat))),
        ]
    } else {
        Seq::empty()
    };
    if p.config.max_fs_access@ is Some {
        let mode = p.config.max_fs_access@->0;
        let e1 = grace.push(("VYN_MAX_FS_ACCESS"@, EnvText::Text(mode)));
        let e2 = e1.push(("VYN_RO_PATHS"@, EnvText::Paths(p.config.readonly_paths.deep_view())));
        assert(env =~= e2.push(("VYN_RW_PATHS"@, EnvText::Paths(p.writable_paths.deep_view()))));
        assert(env.drop_last() =~= e2);
        assert(e2.drop_last() =~= e1);
        assert(e1.drop_last() =~= grace);
    } else {
        assert(env =~= grace);
    }
    if p.config.grace_seconds > 0 {
        assert(grace.drop_last() =~= Seq::empty());
    }
}

/// The supervisor announces a file-system restriction exactly to a sandboxed plugin that has
/// one, together with its own read-only and writable paths; any other plugin gets none of the
/// three variables.
pub proof fn law_fs_restriction_is_announced_to_sandboxes_only(
    p: Prepared,
    socket_path: Seq<char>,
)
    ensures
        ({
            let env = supervisor_env(p, socket_path);
            let announced = p.use_shim && p.config.max_fs_access@ is Some;
            &&& env_value(env, "VYN_MAX_FS_ACCESS"@) == (if announced {
                as_text(p.config.max_fs_access@)
            } else {
                None
            })
            &&& env_value(env, "VYN_RO_PATHS"@) == (if announced {
                Some(EnvText::Paths(p.config.readonly_paths.deep_view()))
            } else {
                None
            })
            &&& env_value(env, "VYN_RW_PATHS"@) == (if announced {
                Some(EnvText::Paths(p.writable_paths.deep_view()))
            } else {
                None
            })
        }),
{
    reveal_with_fuel(env_value, 4);
    lemma_variable_names_differ();
    lemma_shim_env(p);
    let shim = if p.use_shim {
        shim_env(p.config, p.writable_paths.deep_view())
    } else {
        Seq::empty()
    };
    let kernel = kernel_env(socket_path, text_of(p.plugin_data_dir));
    lemma_env_value_of_sum(shim, kernel, "VYN_MAX_FS_ACCESS"@);
    lemma_env_value_of_sum(shim, kernel, "VYN_RO_PATHS"@);
    lemma_env_value_of_sum(shim, kernel, "VYN_RW_PATHS"@);
    if p.plugin_data_dir is Some {
        assert(kernel.drop_last() =~= seq![("VYN_SOCKET_PATH"@, EnvText::Text(socket_path))]);
        assert(kernel.drop_last().drop_last() =~= Seq::empty());
    } else {
        assert(kernel.drop_last() =~= Seq::empty());
    }
}

/// The watchdog does not relent: a plugin that it kills it kills again in every later round
/// in which the plugin has still given no sign of life.
pub proof fn law_silence_keeps_being_killed(
    pid: u32,
    shim_pid: Option<u32>,
    silent: u128,
    later: u128,
    deadline: u128,
    registered: bool,
)
    requires
        action_for(pid, shim_pid, Some(silent), deadline, registered) is Kill,
        silent <= later,
    ensures
        action_for(pid, shim_pid, Some(later), deadline, registered) == action_for(
            pid,
            shim_pid,
            Some(silent),
            deadline,
            registered,
        ),
{
}

/// A plugin is killed exactly where it has been silent for longer than the deadline; one
/// that never gave a sign of life, or gave one in time, is left alone.
pub proof fn law_only_silence_kills(
    pid: u32,
    shim_pid: Option<u32>,
    silent: Option<u128>,
    deadline: u128,
    registered: bool,
)
    ensures
        action_for(pid, shim_pid, silent, deadline, registered) is Kill <==> (silent is Some
            && silent->0 > deadline),
{
}

/// The watchdog's signal goes to one process: the shim of a sandboxed plugin, else the
/// plugin. No process number that a kernel gives out turns into a process group.
pub proof fn law_kill_reaches_the_outer_process(
    pid: u32,
    shim_pid: Option<u32>,
    silent: u128,
    deadline: u128,
    registered: bool,
)
    requires
        silent > deadline,
        0 < outer_pid(pid, shim_pid) <= i32::MAX,
    ensures
        action_for(pid, shim_pid, Some(silent), deadline, registered) matches WatchdogAction::Kill(
            target,
        ) && target == outer_pid(pid, shim_pid) && target > 0,
{
}

} // verus!
