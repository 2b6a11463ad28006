//! The plugin supervisor: which plugin instances run, and what happens when they exit.
//!
//! Each instance has an epoch, a number that no other instance of the process has. It tells
//! the instance that is registered now from older ones under the same identifier.
use crate::idmap::IdMap;
use crate::plugins::config::PluginConfig;
use crate::plugins::logs::{after_line, LogBuffer};
use vstd::prelude::*;

pub mod exit_laws;
pub mod laws;
pub mod monitor;
pub mod spawn;
pub mod spawn_laws;
pub mod watchdog;
pub mod watchdog_laws;

verus! {

/// A registered plugin instance.
#[derive(Debug)]
pub struct PluginEntry {
    pub config: PluginConfig,
    /// How many times the plugin was restarted before this instance.
    pub restart_count: u32,
    /// The plugin's own process.
    pub pid: u32,
    /// The sandbox shim that the plugin runs under, if any.
    pub shim_pid: Option<u32>,
    pub epoch: u64,
}

/// The log of a plugin instance.
pub struct InstanceLog {
    pub epoch: u64,
    pub buffer: LogBuffer,
}

/// A freshly spawned plugin.
#[derive(Debug)]
pub struct PluginProcess {
    pub plugin_id: String,
    pub pid: u32,
}

/// The end of a plugin instance.
#[derive(Debug)]
pub struct ExitEvent {
    pub plugin_id: String,
    pub epoch: u64,
    pub pid: u32,
    pub success: bool,
}

/// What the supervisor knows of its plugins.
pub struct PluginSupervisor {
    /// The current instance of each plugin. It stays here between its exit and its restart.
    pub entries: IdMap<PluginEntry>,
    /// The plugins whose registered instance, once it exits, is restarted whatever their
    /// policy says.
    pub forced_restarts: IdMap<()>,
    /// The epoch of the instance that was last stopped on request.
    pub stopped_epochs: IdMap<u64>,
    /// The restart count that a plugin had when it was given up.
    pub stopped_counts: IdMap<u32>,
    /// The log of the latest instance whose process was started.
    pub log_buffers: IdMap<InstanceLog>,
    /// The latest epoch that was handed out; 0 before the first.
    pub next_epoch: u64,
    pub max_log_lines: usize,
    /// The socket on which plugins reach the kernel.
    pub socket_path: String,
    /// The directory under which plugins get their own data directories.
    pub data_dir: Option<String>,
}

/// Between `pre` and `post` the plugin got an empty log of full size for the instance of this
/// epoch, and no other log changed.
pub open spec fn log_started(
    pre: PluginSupervisor,
    post: PluginSupervisor,
    plugin_id: Seq<char>,
    epoch: u64,
) -> bool {
    &&& post.log_buffers@.remove(plugin_id) == pre.log_buffers@.remove(plugin_id)
    &&& post.logs_for(plugin_id, epoch)
    &&& post.log_buffers@[plugin_id].buffer@ == Seq::<Seq<char>>::empty()
    &&& post.log_buffers@[plugin_id].buffer.capacity() == pre.max_log_lines
}

impl PluginSupervisor {
    /// Every entry stands under its own identifier, and no epoch is on record that was
    /// not handed out.
    pub open spec fn wf(self) -> bool {
        &&& self.entries.wf()
        &&& self.forced_restarts.wf()
        &&& self.stopped_epochs.wf()
        &&& self.stopped_counts.wf()
        &&& self.log_buffers.wf()
        &&& forall|k: Seq<char>| #[trigger]
            self.entries@.contains_key(k) ==> self.entries@[k].config.plugin_id@ == k
                && self.entries@[k].epoch <= self.next_epoch
        &&& forall|k: Seq<char>| #[trigger]
            self.stopped_epochs@.contains_key(k) ==> self.stopped_epochs@[k] <= self.next_epoch
        &&& forall|k: Seq<char>| #[trigger]
            self.log_buffers@.contains_key(k) ==> self.log_buffers@[k].epoch <= self.next_epoch
    }

    /// A supervisor without plugins.
    pub fn new(max_log_lines: usize, socket_path: String, data_dir: Option<String>) -> (r: Self)
        ensures
            r.wf(),
            r.entries@ == Map::<Seq<char>, PluginEntry>::empty(),
            r.forced_restarts@ == Map::<Seq<char>, ()>::empty(),
            r.stopped_epochs@ == Map::<Seq<char>, u64>::empty(),
            r.stopped_counts@ == Map::<Seq<char>, u32>::empty(),
            r.log_buffers@ == Map::<Seq<char>, InstanceLog>::empty(),
            r.next_epoch == 0,
            r.max_log_lines == max_log_lines,
            r.socket_path == socket_path,
            r.data_dir == data_dir,
    {
        PluginSupervisor {
            entries: IdMap::new(),
            forced_restarts: IdMap::new(),
            stopped_epochs: IdMap::new(),
            stopped_counts: IdMap::new(),
            log_buffers: IdMap::new(),
            next_epoch: 0,
            max_log_lines,
            socket_path,
            data_dir,
        }
    }

    /// Adds an output line of an instance to its log. A line of an instance whose log a
    /// later instance has replaced is lost.
    pub fn append_log(&mut self, plugin_id: &String, epoch: u64, line: String)
        requires
            old(self).wf(),
        ensures
            final(self).wf(),
            final(self).only_logs_differ(*old(self)),
            final(self).log_buffers@.remove(plugin_id@) == old(self).log_buffers@.remove(
                plugin_id@,
            ),
            final(self).log_buffers@.contains_key(plugin_id@)
                == old(self).log_buffers@.contains_key(plugin_id@),
            old(self).logs_for(plugin_id@, epoch) ==> {
                let before = old(self).log_buffers@[plugin_id@];
                let after = final(self).log_buffers@[plugin_id@];
                &&& after.epoch == epoch
                &&& after.buffer@ == after_line(before.buffer@, line@, before.buffer.capacity())
                &&& after.buffer.capacity() == before.buffer.capacity()
            },
            !old(self).logs_for(plugin_id@, epoch) ==> *final(self) == *old(self),
    {
        let current: bool = match self.log_buffers.get(plugin_id) {
            Some(log) => log.epoch == epoch,
            None => false,
        };
        if current {
            let ghost before = self.log_buffers@;
            if let Some(mut log) = self.log_buffers.remove(plugin_id) {
                log.buffer.push(line);
                self.log_buffers.insert(plugin_id.clone(), log);
                assert(self.log_buffers@.remove(plugin_id@) =~= before.remove(plugin_id@));
            }
            assert forall|k: Seq<char>| #[trigger]
                self.log_buffers@.contains_key(k) implies self.log_buffers@[k].epoch
                <= self.next_epoch by {
                assert(before.contains_key(k));
            }
        }
    }

    /// Puts an empty log in place for an instance.
    fn start_log(&mut self, plugin_id: &String, epoch: u64)
        requires
            old(self).wf(),
            epoch <= old(self).next_epoch,
        ensures
            final(self).wf(),
            final(self).only_logs_differ(*old(self)),
            log_started(*old(self), *final(self), plugin_id@, epoch),
    {
        let buffer = LogBuffer::new(self.max_log_lines);
        let ghost before = self.log_buffers@;
        self.log_buffers.insert(plugin_id.clone(), InstanceLog { epoch, buffer });
        assert(self.log_buffers@.remove(plugin_id@) =~= before.remove(plugin_id@));
        assert forall|k: Seq<char>| #[trigger]
            self.log_buffers@.contains_key(k) implies self.log_buffers@[k].epoch
            <= self.next_epoch by {
            assert(k == plugin_id@ || before.contains_key(k));
        }
    }

    /// The log under the identifier belongs to the instance of this epoch.
    pub open spec fn logs_for(self, plugin_id: Seq<char>, epoch: u64) -> bool {
        self.log_buffers@.contains_key(plugin_id) && self.log_buffers@[plugin_id].epoch == epoch
    }

    /// All but the logs is as in `before`.
    pub open spec fn only_logs_differ(self, before: PluginSupervisor) -> bool {
        self == (PluginSupervisor { log_buffers: self.log_buffers, ..before })
    }
}

} // verus!
