//! Watching over the plugins that run: which to ping and which to kill.
use crate::plugins::supervisor::PluginSupervisor;
use vstd::prelude::*;

verus! {

/// The longest time span that the clock can express, in nanoseconds.
pub const MAX_SPAN_NANOS: u128 = 18_446_744_073_709_551_615_999_999_999;

/// A plugin as the watchdog sees it.
#[derive(Debug)]
pub struct SupervisedPlugin {
    pub plugin_id: String,
    pub pid: u32,
    pub shim_pid: Option<u32>,
}

/// What the watchdog does about one plugin.
#[derive(Clone, Copy, Debug, PartialEq, Eq, Structural)]
pub enum WatchdogAction {
    /// Kill this process.
    Kill(i32),
    /// Ask for a sign of life.
    Ping,
    /// Nothing: the plugin is not registered.
    Skip,
}

/// What a plugin is sent to ask for a sign of life: a frame whose payload is an envelope with
/// nothing but the ping.
#[derive(Debug)]
pub struct PingFrame {
    /// The name that the frame is addressed to.
    pub target: &'static str,
    pub flags: u8,
    /// The time that the ping carries, in Unix milliseconds.
    pub timestamp: u64,
}

/// A process number as the kernel's signed type holds it.
pub open spec fn signed_pid(pid: u32) -> int {
    if pid <= i32::MAX {
        pid as int
    } else {
        pid - 0x1_0000_0000
    }
}

/// The process that stands for a plugin: its shim where it has one.
pub open spec fn outer_pid(pid: u32, shim_pid: Option<u32>) -> u32 {
    match shim_pid {
        Some(shim) => shim,
        None => pid,
    }
}

/// The watchdog's action for one plugin: kill it where its last sign of life is older than
/// the deadline, else ping it where it is registered. A plugin that never gave a sign of
/// life has no deadline.
pub open spec fn action_for(
    pid: u32,
    shim_pid: Option<u32>,
    silent_nanos: Option<u128>,
    deadline: u128,
    registered: bool,
) -> WatchdogAction {
    if silent_nanos is Some && silent_nanos->0 > deadline {
        WatchdogAction::Kill(signed_pid(outer_pid(pid, shim_pid)) as i32)
    } else if registered {
        WatchdogAction::Ping
    } else {
        WatchdogAction::Skip
    }
}

/// Converts a process number to the kernel's signed type.
pub fn to_signed_pid(pid: u32) -> (r: i32)
    ensures
        r == signed_pid(pid),
{
    let r: i32 = #[verifier::truncate] (pid as i32);
    assert(pid <= 0x7fff_ffffu32 ==> pid as i32 == pid) by (bit_vector);
    assert(pid > 0x7fff_ffffu32 ==> pid as i32 == pid - 0x1_0000_0000) by (bit_vector);
    r
}

/// The plugin process that may have outlived its shim, to be killed where it still runs.
/// A plugin without a shim cannot outlive the process that was waited for.
pub fn orphan_pid(pid: u32, shim_pid: Option<u32>) -> (r: Option<i32>)
    ensures
        r is Some <==> shim_pid is Some,
        r matches Some(p) ==> p == signed_pid(pid),
{
    match shim_pid {
        Some(_) => Some(to_signed_pid(pid)),
        None => None,
    }
}

/// How long a plugin may stay silent: one round and the time to answer, in nanoseconds.
pub fn deadline_nanos(interval: u128, timeout: u128) -> (r: u128)
    requires
        interval + timeout <= MAX_SPAN_NANOS,
    ensures
        r == interval + timeout,
{
    interval + timeout
}

/// The time that a ping carries, from the milliseconds since the Unix epoch: 0 where the
/// clock stands before it, and the low 64 bits.
pub fn ping_timestamp(since_epoch_millis: Option<u128>) -> (r: u64)
    ensures
        r == (match since_epoch_millis {
            Some(millis) => millis as int % 0x1_0000_0000_0000_0000,
            None => 0,
        }),
{
    match since_epoch_millis {
        Some(millis) => {
            let low: u128 = millis % 0x1_0000_0000_0000_0000;
            low as u64
        },
        None => 0,
    }
}

/// The frame that carries a ping.
pub fn ping_frame(timestamp: u64) -> (r: PingFrame)
    ensures
        r.target@ == "client"@,
        r.flags == 0,
        r.timestamp == timestamp,
{
    PingFrame { target: "client", flags: 0, timestamp }
}

/// Whether a ping counts as dropped: it could be encoded, but the plugin's queue did not take
/// it at once. Nobody waits for a queue to drain.
pub fn ping_dropped(encoded: bool, queued: bool) -> (r: bool)
    ensures
        r == (encoded && !queued),
{
    encoded && !queued
}

/// The watchdog's action for one plugin.
pub fn watchdog_action(
    plugin: &SupervisedPlugin,
    silent_nanos: Option<u128>,
    deadline: u128,
    registered: bool,
) -> (r: WatchdogAction)
    ensures
        r == action_for(plugin.pid, plugin.shim_pid, silent_nanos, deadline, registered),
{
    if let Some(nanos) = silent_nanos {
        if nanos > deadline {
            let target: u32 = plugin.shim_pid.unwrap_or(plugin.pid);
            return WatchdogAction::Kill(to_signed_pid(target));
        }
    }
    if registered {
        WatchdogAction::Ping
    } else {
        WatchdogAction::Skip
    }
}

impl PluginSupervisor {
    /// The registered plugins, each once.
    pub fn supervised(&self) -> (r: Vec<SupervisedPlugin>)
        requires
            self.wf(),
        ensures
            r.len() == self.entries@.len(),
            forall|i: int|
                0 <= i < r.len() ==> {
                    let p = #[trigger] r[i];
                    &&& self.entries@.contains_key(p.plugin_id@)
                    &&& p.pid == self.entries@[p.plugin_id@].pid
                    &&& p.shim_pid == self.entries@[p.plugin_id@].shim_pid
                },
            forall|i: int, j: int|
                0 <= i < j < r.len() ==> (#[trigger] r[i]).plugin_id@ != (#[trigger] r[j]).plugin_id@,
            forall|k: Seq<char>| #[trigger]
                self.entries@.contains_key(k) ==> exists|i: int|
                    0 <= i < r.len() && (#[trigger] r[i]).plugin_id@ == k,
    {
        let mut r: Vec<SupervisedPlugin> = Vec::new();
        let n: usize = self.entries.len();
        let mut i: usize = 0;
        proof {
            self.entries.lemma_order();
        }
        while i < n
            invariant
                self.wf(),
                i <= n,
                n == self.entries.order().len(),
                r.len() == i,
                forall|j: int|
                    0 <= j < i ==> {
                        let p = #[trigger] r[j];
                        &&& p.plugin_id@ == self.entries.order()[j]
                        &&& self.entries@.contains_key(p.plugin_id@)
                        &&& p.pid == self.entries@[p.plugin_id@].pid
                        &&& p.shim_pid == self.entries@[p.plugin_id@].shim_pid
                    },
            decreases n - i,
        {
            let (id, entry) = self.entries.pair_at(i);
            r.push(
                SupervisedPlugin { plugin_id: id.clone(), pid: entry.pid, shim_pid: entry.shim_pid },
            );
            i = i + 1;
        }
        assert forall|k: Seq<char>| #[trigger] self.entries@.contains_key(k) implies exists|i: int|
            0 <= i < r.len() && (#[trigger] r[i]).plugin_id@ == k by {
            assert(self.entries.order().contains(k));
            let j = choose|j: int|
                0 <= j < self.entries.order().len() && self.entries.order()[j] == k;
            assert(r[j].plugin_id@ == k);
        }
        r
    }
}

} // verus!
