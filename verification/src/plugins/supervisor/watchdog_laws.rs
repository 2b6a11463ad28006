//! What the watchdog does, said of every call of the operations in `watchdog`.
//!
//! `call_ensures(f, args, r)` is a call of `f` on `args` that returned `r`.
use crate::plugins::supervisor::watchdog::{
    deadline_nanos, orphan_pid, ping_dropped, ping_frame, ping_timestamp, to_signed_pid,
    watchdog_action, PingFrame, SupervisedPlugin, WatchdogAction,
};
use crate::plugins::supervisor::PluginSupervisor;
use vstd::prelude::*;

verus! {

/// Every round, a registered plugin is pinged exactly where its silence, if any is known,
/// has not passed the deadline.
pub proof fn law_registered_plugin_is_pinged_every_round(
    plugin: &SupervisedPlugin,
    silent_nanos: Option<u128>,
    deadline: u128,
    registered: bool,
    action: WatchdogAction,
)
    requires
        call_ensures(watchdog_action, (plugin, silent_nanos, deadline, registered), action),
    ensures
        action == WatchdogAction::Ping <==> {
            &&& registered
            &&& silent_nanos matches Some(n) ==> n <= deadline
        },
{
}

/// A plugin is passed over exactly where it is not registered and not past its deadline.
pub proof fn law_unregistered_plugin_is_passed_over(
    plugin: &SupervisedPlugin,
    silent_nanos: Option<u128>,
    deadline: u128,
    registered: bool,
    action: WatchdogAction,
)
    requires
        call_ensures(watchdog_action, (plugin, silent_nanos, deadline, registered), action),
    ensures
        action == WatchdogAction::Skip <==> {
            &&& !registered
            &&& silent_nanos matches Some(n) ==> n <= deadline
        },
{
}

/// A plugin that has been silent past the deadline is killed, registered or not, and no
/// other is. The signal goes to its shim where it has one, else to the plugin itself.
pub proof fn law_silent_plugin_is_killed(
    plugin: &SupervisedPlugin,
    silent_nanos: Option<u128>,
    deadline: u128,
    registered: bool,
    action: WatchdogAction,
)
    requires
        call_ensures(watchdog_action, (plugin, silent_nanos, deadline, registered), action),
    ensures
        action is Kill <==> silent_nanos is Some && silent_nanos->0 > deadline,
        action matches WatchdogAction::Kill(target) ==> {
            let outer = if plugin.shim_pid is Some {
                plugin.shim_pid->0
            } else {
                plugin.pid
            };
            &&& outer <= i32::MAX ==> target == outer
            &&& outer > i32::MAX ==> target == outer - 0x1_0000_0000
        },
{
}

/// A plugin that answers each ping within the deadline is never killed, and keeps being
/// pinged as long as it is registered: what was decided in one round weighs nothing in the
/// next.
pub proof fn law_answering_plugin_stays_alive(
    plugin: &SupervisedPlugin,
    silent_nanos: Seq<u128>,
    deadline: u128,
    actions: Seq<WatchdogAction>,
)
    requires
        actions.len() == silent_nanos.len(),
        forall|i: int| 0 <= i < silent_nanos.len() ==> #[trigger] silent_nanos[i] <= deadline,
        forall|i: int|
            0 <= i < actions.len() ==> call_ensures(
                watchdog_action,
                (plugin, Some(silent_nanos[i]), deadline, true),
                #[trigger] actions[i],
            ),
    ensures
        forall|i: int| 0 <= i < actions.len() ==> #[trigger] actions[i] == WatchdogAction::Ping,
{
    assert forall|i: int| 0 <= i < actions.len() implies #[trigger] actions[i]
        == WatchdogAction::Ping by {
        assert(silent_nanos[i] <= deadline);
        law_registered_plugin_is_pinged_every_round(
            plugin,
            Some(silent_nanos[i]),
            deadline,
            true,
            actions[i],
        );
    }
}

/// A round looks after every registered instance, each once, by its own process numbers.
pub proof fn law_round_covers_every_instance(
    s: &PluginSupervisor,
    supervised: Vec<SupervisedPlugin>,
    id: Seq<char>,
)
    requires
        call_ensures(PluginSupervisor::supervised, (s,), supervised),
    ensures
        supervised.len() == s.entries@.len(),
        s.entries@.contains_key(id) <==> exists|i: int|
            0 <= i < supervised.len() && (#[trigger] supervised@[i]).plugin_id@ == id,
        forall|i: int, j: int|
            0 <= i < supervised.len() && 0 <= j < supervised.len() && (
            #[trigger] supervised@[i]).plugin_id@ == (#[trigger] supervised@[j]).plugin_id@ ==> i
                == j,
        forall|i: int|
            0 <= i < supervised.len() && (#[trigger] supervised@[i]).plugin_id@ == id ==> {
                &&& supervised@[i].pid == s.entries@[id].pid
                &&& supervised@[i].shim_pid == s.entries@[id].shim_pid
            },
{
    assert(forall|i: int|
        0 <= i < supervised.len() ==> s.entries@.contains_key(
            (#[trigger] supervised@[i]).plugin_id@,
        ) && supervised[i] == supervised@[i]);
    if s.entries@.contains_key(id) {
        let i = choose|i: int|
            0 <= i < supervised.len() && (#[trigger] supervised[i]).plugin_id@ == id;
        assert(supervised@[i].plugin_id@ == id);
    }
    assert forall|i: int, j: int|
        0 <= i < supervised.len() && 0 <= j < supervised.len() && (
        #[trigger] supervised@[i]).plugin_id@ == (#[trigger] supervised@[j]).plugin_id@ implies i
        == j by {
        if i < j {
            assert(supervised[i].plugin_id@ != supervised[j].plugin_id@);
        }
        if j < i {
            assert(supervised[j].plugin_id@ != supervised[i].plugin_id@);
        }
    }
}

/// A sandboxed plugin may have outlived its shim and is to be killed itself; a plain one
/// cannot have.
pub proof fn law_only_a_sandboxed_plugin_is_orphaned(
    pid: u32,
    shim_pid: Option<u32>,
    orphan: Option<i32>,
)
    requires
        call_ensures(orphan_pid, (pid, shim_pid), orphan),
    ensures
        orphan is Some <==> shim_pid is Some,
        orphan matches Some(p) ==> {
            &&& pid <= i32::MAX ==> p == pid
            &&& pid > i32::MAX ==> p == pid - 0x1_0000_0000
        },
{
}

/// Every process number that fits keeps its value as a signed number, and no two numbers
/// become one.
pub proof fn law_signed_numbers_are_distinct(a: u32, b: u32, signed_a: i32, signed_b: i32)
    requires
        call_ensures(to_signed_pid, (a,), signed_a),
        call_ensures(to_signed_pid, (b,), signed_b),
    ensures
        a <= i32::MAX ==> signed_a == a,
        a > i32::MAX ==> signed_a == a - 0x1_0000_0000,
        signed_a == signed_b <==> a == b,
{
}

/// A plugin has one round and the time to answer.
pub proof fn law_deadline_is_a_round_and_an_answer(interval: u128, timeout: u128, deadline: u128)
    requires
        call_ensures(deadline_nanos, (interval, timeout), deadline),
    ensures
        deadline == interval + timeout,
{
}

/// A ping carries the time in milliseconds, exactly as long as 64 bits hold it; a clock
/// before the epoch gives 0.
pub proof fn law_ping_tells_the_time(since_epoch_millis: Option<u128>, timestamp: u64)
    requires
        call_ensures(ping_timestamp, (since_epoch_millis,), timestamp),
    ensures
        since_epoch_millis is None ==> timestamp == 0,
        since_epoch_millis matches Some(millis) ==> {
            &&& millis <= u64::MAX ==> timestamp == millis
            &&& (millis - timestamp) % 0x1_0000_0000_0000_0000 == 0
        },
{
    if let Some(millis) = since_epoch_millis {
        let m = 0x1_0000_0000_0000_0000int;
        vstd::arithmetic::div_mod::lemma_fundamental_div_mod(millis as int, m);
        vstd::arithmetic::div_mod::lemma_mod_multiples_basic(millis as int / m, m);
        assert(millis - timestamp == (millis as int / m) * m) by (nonlinear_arith)
            requires
                millis as int == m * (millis as int / m) + timestamp,
        ;
    }
}

/// A ping is addressed to the client, carries no flags, and the time that it was given.
pub proof fn law_ping_is_addressed_to_the_client(timestamp: u64, frame: PingFrame)
    requires
        call_ensures(ping_frame, (timestamp,), frame),
    ensures
        frame.target@ == "client"@,
        frame.flags == 0,
        frame.timestamp == timestamp,
{
}

/// A ping counts as dropped exactly where it was ready to be sent and found no room.
pub proof fn law_unqueued_ping_is_counted(encoded: bool, queued: bool, dropped: bool)
    requires
        call_ensures(ping_dropped, (encoded, queued), dropped),
    ensures
        dropped <==> encoded && !queued,
{
}

} // verus!
