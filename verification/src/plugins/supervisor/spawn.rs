//! Spawning a plugin: who may, with what command, and what counts as having come up.
//!
//! A spawn goes through `PluginSupervisor::admit_spawn`, `Admission::with_data_dir`,
//! `Prepared::launch_plan`, `PluginSupervisor::open_log` and
//! `PluginSupervisor::finish_spawn`. The caller makes the directory, prepares the process
//! scope, starts the process and reads from it in between.
use crate::plugins::config::{FsAccessMode, PluginConfig};
use crate::plugins::errors::VynkorError;
use crate::plugins::supervisor::watchdog::{orphan_pid, signed_pid};
use crate::plugins::supervisor::{
    log_started, ExitEvent, PluginEntry, PluginProcess, PluginSupervisor,
};
use crate::text::{
    append_texts, concat3, copy_texts, decimal, ends_with, has_suffix, join_path, joined_path,
    parse_u32, path_below, split_at_first, split_once, strip_part, to_decimal, trim, trim_end,
    trim_path, trimmed, trimmed_end, trimmed_path, u32_value,
};
use vstd::prelude::*;

verus! {

/// How long the sandbox shim has to name the plugin's process, in seconds.
pub const SHIM_DEADLINE_SECS: u64 = 15;

/// How long to wait between two attempts to remove a process scope, in milliseconds.
pub const CLEANUP_PAUSE_MILLIS: u64 = 50;

/// How often the removal of a process scope is tried after an exit.
pub const CLEANUP_ATTEMPTS: u32 = 10;

/// What the host is like and how it was told to run plugins.
pub struct HostFacts {
    /// Sandboxes, process scopes and resource limits exist on Linux only.
    pub linux: bool,
    /// Debug switch: run plugins outside process scopes.
    pub skip_cgroup: bool,
    /// Debug switch: run plugins without resource limits.
    pub skip_rlimits: bool,
    pub default_max_procs: u64,
    pub default_max_vmem_mb: u64,
    /// The binary that sets up a sandbox.
    pub shim_bin: String,
}

/// A spawn that may go ahead.
pub struct Admission {
    pub config: PluginConfig,
    pub restart_count: u32,
    pub epoch: u64,
    /// The epoch of the instance that a restart follows; `None` for a manual start.
    pub replace_epoch: Option<u64>,
    /// The plugin runs under the sandbox shim.
    pub use_shim: bool,
    /// The directory that the caller is to make for the plugin's own data.
    pub plugin_data: Option<String>,
}

/// A spawn whose data directory is settled.
pub struct Prepared {
    pub config: PluginConfig,
    pub restart_count: u32,
    pub epoch: u64,
    pub replace_epoch: Option<u64>,
    pub use_shim: bool,
    /// The plugin's data directory, where it could be made.
    pub plugin_data_dir: Option<String>,
    /// The paths that the plugin may write to, its data directory among them.
    pub writable_paths: Vec<String>,
}

/// What the new process does to itself before it runs the command.
#[derive(Clone, Copy, Debug, PartialEq, Eq, Structural)]
pub enum PreExec {
    /// Nothing.
    Unlimited,
    /// Take on the resource limits and the sandbox's own restrictions.
    Sandbox,
    /// Take on the resource limits.
    Limits,
}

/// The value of an environment variable.
#[derive(Debug)]
pub enum EnvValue {
    Text(String),
    /// A list of paths, which the caller writes in the shim's notation.
    Paths(Vec<String>),
}

/// The value of an environment variable, as characters.
pub enum EnvText {
    Text(Seq<char>),
    Paths(Seq<Seq<char>>),
}

impl View for EnvValue {
    type V = EnvText;

    open spec fn view(&self) -> EnvText {
        match self {
            EnvValue::Text(t) => EnvText::Text(t@),
            EnvValue::Paths(p) => EnvText::Paths(p.deep_view()),
        }
    }
}

/// The command that runs a plugin.
pub struct LaunchPlan {
    pub program: String,
    pub args: Vec<String>,
    /// Environment assignments in order: a later one replaces an earlier one.
    pub env: Vec<(String, EnvValue)>,
    pub max_procs: u64,
    pub max_vmem_mb: u64,
    /// The plugin gets a process scope of its own.
    pub use_scope: bool,
    pub pre_exec: PreExec,
    /// The plugin's output is also shown as it comes.
    pub mirror_output: bool,
    /// A file-system restriction is configured that only a sandbox would enforce.
    pub fs_restriction_unenforced: bool,
}

/// What the sandbox shim said on its output before the deadline.
#[derive(Debug)]
pub enum ShimReply {
    /// The deadline passed.
    TimedOut,
    /// Its output could not be read, for the reason given.
    ReadFailed(String),
    /// A line, or the end of the output.
    Line(Option<String>),
}

/// What became of the process that was started.
#[derive(Debug)]
pub enum ChildReport {
    /// The process is the plugin itself.
    Direct { pid: Option<u32> },
    /// The process is the shim.
    Shim { reply: ShimReply, shim_pid: Option<u32> },
}

/// The processes of a plugin that came up.
pub struct ChildIdentity {
    pub pid: u32,
    pub shim_pid: Option<u32>,
}

/// A failed spawn, with what is left to clear away.
#[derive(Debug)]
pub struct SpawnFailure {
    /// The started process is to be killed and waited for.
    pub kill_child: bool,
    /// The process scope that is to be removed.
    pub cleanup: Option<String>,
    /// The plugin process that may outlive its killed shim, to be killed where it still runs.
    pub orphan: Option<i32>,
    pub error: VynkorError,
}

/// Whether a plugin landed in the process scope made for it.
#[derive(Clone, Copy, Debug, PartialEq, Eq, Structural)]
pub enum ScopeCheck {
    Joined,
    /// The weaker per-user process limit is in effect.
    NotJoined,
    /// The process is gone already.
    Gone,
}

/// A spawn is refused exactly where it is no restart and the plugin is registered.
pub open spec fn spawn_refused(
    s: PluginSupervisor,
    plugin_id: Seq<char>,
    replace_epoch: Option<u64>,
) -> bool {
    replace_epoch is None && s.entries@.contains_key(plugin_id)
}

/// An instance may be registered where it replaces none, or the one that it follows: a
/// manual start never replaces an instance, a restart only the one whose exit led to it.
pub open spec fn may_register(
    s: PluginSupervisor,
    plugin_id: Seq<char>,
    replace_epoch: Option<u64>,
) -> bool {
    s.entries@.contains_key(plugin_id) ==> replace_epoch == Some(s.entries@[plugin_id].epoch)
}

/// The data directory of a plugin.
pub open spec fn plugin_data_path(data_dir: Option<String>, plugin_id: Seq<char>) -> Option<
    Seq<char>,
> {
    match data_dir {
        Some(dir) => Some(joined_path(joined_path(dir@, "plugins"@), plugin_id)),
        None => None,
    }
}

/// A text that may be missing, as characters.
pub open spec fn text_of(t: Option<String>) -> Option<Seq<char>> {
    match t {
        Some(s) => Some(s@),
        None => None,
    }
}

/// Environment assignments as characters.
pub open spec fn assignments(env: Seq<(String, EnvValue)>) -> Seq<(Seq<char>, EnvText)> {
    env.map_values(|p: (String, EnvValue)| (p.0@, p.1@))
}

/// What the shim is told through its environment: the stop deadline, and where there is a
/// file-system restriction, its name with the paths that may be read and those that may be
/// written.
pub open spec fn shim_env(config: PluginConfig, writable_paths: Seq<Seq<char>>) -> Seq<
    (Seq<char>, EnvText),
> {
    let grace = if config.grace_seconds > 0 {
        seq![
            ("VYN_SHIM_GRACE_SECS"@, EnvText::Text(decimal(config.grace_seconds as nat))),
        ]
    } else {
        Seq::empty()
    };
    let fs = match config.max_fs_access@ {
        Some(mode) => seq![
            ("VYN_MAX_FS_ACCESS"@, EnvText::Text(mode)),
            ("VYN_RO_PATHS"@, EnvText::Paths(config.readonly_paths.deep_view())),
            ("VYN_RW_PATHS"@, EnvText::Paths(writable_paths)),
        ],
        None => Seq::empty(),
    };
    grace + fs
}

/// What every plugin is told: the kernel socket, and its data directory where it has one.
pub open spec fn kernel_env(socket_path: Seq<char>, data_dir: Option<Seq<char>>) -> Seq<
    (Seq<char>, EnvText),
> {
    let socket = ("VYN_SOCKET_PATH"@, EnvText::Text(socket_path));
    match data_dir {
        Some(dir) => seq![socket, ("VYN_DATA_DIR"@, EnvText::Text(dir))],
        None => seq![socket],
    }
}

/// The assignments that a plugin's configuration asks for: each entry cut at its first
/// `=`, those without one left out.
pub open spec fn configured_env(entries: Seq<Seq<char>>) -> Seq<(Seq<char>, EnvText)>
    decreases entries.len(),
{
    if entries.len() == 0 {
        Seq::empty()
    } else {
        let before = configured_env(entries.drop_last());
        match split_at_first(entries.last(), '=') {
            Some((key, value)) => before.push((key, EnvText::Text(value))),
            None => before,
        }
    }
}

/// What the supervisor itself puts into a plugin's environment.
pub open spec fn supervisor_env(p: Prepared, socket_path: Seq<char>) -> Seq<(Seq<char>, EnvText)> {
    let shim = if p.use_shim {
        shim_env(p.config, p.writable_paths.deep_view())
    } else {
        Seq::empty()
    };
    shim + kernel_env(socket_path, text_of(p.plugin_data_dir))
}

/// A plugin's whole environment: the supervisor's assignments, then the configured ones.
pub open spec fn launch_env(p: Prepared, socket_path: Seq<char>) -> Seq<(Seq<char>, EnvText)> {
    supervisor_env(p, socket_path) + configured_env(p.config.env.deep_view())
}

/// The value that a variable has after a list of assignments.
pub open spec fn env_value(env: Seq<(Seq<char>, EnvText)>, key: Seq<char>) -> Option<EnvText>
    decreases env.len(),
{
    if env.len() == 0 {
        None
    } else if env.last().0 == key {
        Some(env.last().1)
    } else {
        env_value(env.drop_last(), key)
    }
}

/// The command line of a plugin, the program first.
pub open spec fn command_line(p: Prepared, shim_bin: Seq<char>) -> Seq<Seq<char>> {
    let own = seq![p.config.binary_path@] + p.config.args.deep_view();
    if p.use_shim {
        seq![shim_bin, "__shim"@] + own
    } else {
        own
    }
}

/// What the new process does to itself.
pub open spec fn pre_exec_of(sandbox: bool, host: HostFacts) -> PreExec {
    if !host.linux || host.skip_rlimits {
        PreExec::Unlimited
    } else if sandbox {
        PreExec::Sandbox
    } else {
        PreExec::Limits
    }
}

/// The process number that a line of the shim reports: a positive number, white space
/// around it allowed.
pub open spec fn reported_pid(line: Option<Seq<char>>) -> Option<u32> {
    match line {
        Some(l) => match u32_value(trimmed(l)) {
            Some(pid) => if pid > 0 {
                Some(pid)
            } else {
                None
            },
            None => None,
        },
        None => None,
    }
}

/// The plugin's process and its shim's, where the process came up.
pub open spec fn child_identity(report: ChildReport) -> Option<ChildIdentity> {
    match report {
        ChildReport::Direct { pid } => match pid {
            Some(pid) => Some(ChildIdentity { pid, shim_pid: None }),
            None => None,
        },
        ChildReport::Shim { reply: ShimReply::Line(line), shim_pid } => match (
            reported_pid(text_of(line)),
            shim_pid,
        ) {
            (Some(pid), Some(shim)) => Some(ChildIdentity { pid, shim_pid: Some(shim) }),
            _ => None,
        },
        ChildReport::Shim { .. } => None,
    }
}

/// Whether the shim ended without naming a plugin process.
pub open spec fn shim_gave_no_pid(report: ChildReport) -> bool {
    match report {
        ChildReport::Shim { reply: ShimReply::Line(line), .. } => reported_pid(
            text_of(line),
        ) is None,
        _ => false,
    }
}

/// Epoch `epoch` was handed out between `pre` and `post`, and nothing else changed.
pub open spec fn epoch_handed_out(
    pre: PluginSupervisor,
    post: PluginSupervisor,
    epoch: u64,
) -> bool {
    &&& epoch == pre.next_epoch + 1
    &&& post == (PluginSupervisor { next_epoch: epoch, ..pre })
}

/// `entry` was registered between `pre` and `post`. Its log stays as it is, or is started
/// where it was not the plugin's log. Nothing else changed.
pub open spec fn entry_registered(
    pre: PluginSupervisor,
    post: PluginSupervisor,
    entry: PluginEntry,
) -> bool {
    let id = entry.config.plugin_id@;
    &&& post == (PluginSupervisor {
        entries: post.entries,
        log_buffers: post.log_buffers,
        ..pre
    })
    &&& post.entries@ == pre.entries@.insert(id, entry)
    &&& if pre.logs_for(id, entry.epoch) {
        post.log_buffers == pre.log_buffers
    } else {
        log_started(pre, post, id, entry.epoch)
    }
}

/// Reads a debug switch, which is on exactly where its variable is `1`.
pub fn debug_switch(value: Option<String>) -> (r: bool)
    ensures
        r == (text_of(value) == Some("1"@)),
{
    match value {
        Some(v) => v == "1".to_owned(),
        None => false,
    }
}

/// Adds one environment assignment.
fn assign(env: &mut Vec<(String, EnvValue)>, key: &str, value: &str)
    ensures
        assignments(final(env)@) == assignments(old(env)@).push((key@, EnvText::Text(value@))),
{
    env.push((key.to_owned(), EnvValue::Text(value.to_owned())));
    assert(assignments(env@) =~= assignments(old(env)@).push((key@, EnvText::Text(value@))));
}

/// Adds one environment assignment of a list of paths.
fn assign_paths(env: &mut Vec<(String, EnvValue)>, key: &str, paths: &Vec<String>)
    ensures
        assignments(final(env)@) == assignments(old(env)@).push(
            (key@, EnvText::Paths(paths.deep_view())),
        ),
{
    env.push((key.to_owned(), EnvValue::Paths(copy_texts(paths))));
    assert(assignments(env@) =~= assignments(old(env)@).push(
        (key@, EnvText::Paths(paths.deep_view())),
    ));
}

/// Adds the configured assignments.
fn assign_configured(env: &mut Vec<(String, EnvValue)>, entries: &Vec<String>)
    ensures
        assignments(final(env)@) == assignments(old(env)@) + configured_env(entries.deep_view()),
{
    let ghost all = entries.deep_view();
    let mut i: usize = 0;
    assert(all.take(0) =~= Seq::empty());
    assert(assignments(env@) =~= assignments(old(env)@) + configured_env(all.take(0)));
    while i < entries.len()
        invariant
            i <= entries@.len(),
            all == entries.deep_view(),
            assignments(env@) == assignments(old(env)@) + configured_env(all.take(i as int)),
        decreases entries@.len() - i,
    {
        proof {
            assert(all.take(i + 1).drop_last() =~= all.take(i as int));
            assert(all.take(i + 1).last() == entries@[i as int]@);
        }
        if let Some((key, value)) = split_once(entries[i].as_str(), '=') {
            assign(env, key.as_str(), value.as_str());
            assert(assignments(env@) =~= assignments(old(env)@) + configured_env(
                all.take(i + 1),
            ));
        }
        i = i + 1;
    }
    assert(all.take(i as int) =~= all);
}

impl PluginSupervisor {
    /// Lets a spawn go ahead, or refuses it. A manual start (`replace_epoch` is `None`) never
    /// goes ahead while the plugin is registered; a restart names the epoch that it follows.
    pub fn admit_spawn(
        &mut self,
        config: PluginConfig,
        restart_count: u32,
        replace_epoch: Option<u64>,
        host: &HostFacts,
    ) -> (r: Result<Admission, VynkorError>)
        requires
            old(self).wf(),
            spawn_refused(*old(self), config.plugin_id@, replace_epoch) || old(self).next_epoch
                < u64::MAX,
        ensures
            final(self).wf(),
            match r {
                Ok(a) => {
                    &&& !spawn_refused(*old(self), config.plugin_id@, replace_epoch)
                    &&& epoch_handed_out(*old(self), *final(self), a.epoch)
                    &&& a.config == config
                    &&& a.restart_count == restart_count
                    &&& a.replace_epoch == replace_epoch
                    &&& a.use_shim == (host.linux && config.sandbox)
                    &&& text_of(a.plugin_data) == plugin_data_path(
                        old(self).data_dir,
                        config.plugin_id@,
                    )
                },
                Err(e) => {
                    &&& spawn_refused(*old(self), config.plugin_id@, replace_epoch)
                    &&& *final(self) == *old(self)
                    &&& e == VynkorError::PluginAlreadyRunning(config.plugin_id)
                },
            },
    {
        if replace_epoch.is_none() && self.entries.contains_key(&config.plugin_id) {
            return Err(VynkorError::PluginAlreadyRunning(config.plugin_id));
        }
        self.next_epoch = self.next_epoch + 1;
        let plugin_data: Option<String> = match &self.data_dir {
            Some(dir) => {
                let plugins: String = join_path(dir.as_str(), "plugins");
                Some(join_path(plugins.as_str(), config.plugin_id.as_str()))
            },
            None => None,
        };
        let use_shim: bool = host.linux && config.sandbox;
        Ok(
            Admission {
                config,
                restart_count,
                epoch: self.next_epoch,
                replace_epoch,
                use_shim,
                plugin_data,
            },
        )
    }

    /// Starts an empty log for an instance whose process was started, in place of the log
    /// of the instance before it. The log of an instance that may not be replaced stays.
    pub fn open_log(&mut self, prepared: &Prepared)
        requires
            old(self).wf(),
            prepared.epoch <= old(self).next_epoch,
        ensures
            final(self).wf(),
            may_register(*old(self), prepared.config.plugin_id@, prepared.replace_epoch) ==> {
                &&& final(self).only_logs_differ(*old(self))
                &&& log_started(
                    *old(self),
                    *final(self),
                    prepared.config.plugin_id@,
                    prepared.epoch,
                )
            },
            !may_register(*old(self), prepared.config.plugin_id@, prepared.replace_epoch)
                ==> *final(self) == *old(self),
    {
        if self.place_is_free(prepared) {
            self.start_log(&prepared.config.plugin_id, prepared.epoch);
        }
    }

    /// Whether the instance may be registered as things stand.
    fn place_is_free(&self, prepared: &Prepared) -> (r: bool)
        requires
            self.wf(),
        ensures
            r == may_register(*self, prepared.config.plugin_id@, prepared.replace_epoch),
    {
        match self.entries.get(&prepared.config.plugin_id) {
            Some(entry) => match prepared.replace_epoch {
                Some(epoch) => epoch == entry.epoch,
                None => false,
            },
            None => true,
        }
    }

    /// Registers the instance where its process came up and no other instance has been
    /// registered meanwhile that it may not replace. A sandboxed plugin counts as up only once
    /// the shim has named its process, so that none ever runs outside its sandbox.
    pub fn finish_spawn(
        &mut self,
        prepared: Prepared,
        scope: Option<String>,
        report: ChildReport,
    ) -> (r: Result<PluginProcess, SpawnFailure>)
        requires
            old(self).wf(),
            prepared.epoch <= old(self).next_epoch,
            prepared.use_shim <==> report is Shim,
        ensures
            final(self).wf(),
            match r {
                Ok(process) => {
                    &&& child_identity(report) is Some
                    &&& may_register(
                        *old(self),
                        prepared.config.plugin_id@,
                        prepared.replace_epoch,
                    )
                    &&& entry_registered(
                        *old(self),
                        *final(self),
                        PluginEntry {
                            config: prepared.config,
                            restart_count: prepared.restart_count,
                            pid: child_identity(report)->0.pid,
                            shim_pid: child_identity(report)->0.shim_pid,
                            epoch: prepared.epoch,
                        },
                    )
                    &&& process.plugin_id@ == prepared.config.plugin_id@
                    &&& process.pid == child_identity(report)->0.pid
                },
                Err(failure) => {
                    &&& *final(self) == *old(self)
                    &&& if child_identity(report) is None {
                        &&& failure.kill_child == shim_gave_no_pid(report)
                        &&& failure.cleanup == (if shim_gave_no_pid(report) {
                            scope
                        } else {
                            None
                        })
                        &&& failure.orphan is None
                        &&& is_spawn_error(report, failure.error)
                    } else {
                        &&& !may_register(
                            *old(self),
                            prepared.config.plugin_id@,
                            prepared.replace_epoch,
                        )
                        &&& failure.kill_child
                        &&& failure.cleanup == scope
                        &&& failure.orphan is Some <==> report is Shim
                        &&& failure.orphan matches Some(pid) ==> pid == signed_pid(
                            child_identity(report)->0.pid,
                        )
                        &&& failure.error == VynkorError::PluginAlreadyRunning(
                            prepared.config.plugin_id,
                        )
                    }
                },
            },
    {
        let identity: ChildIdentity = match report {
            ChildReport::Direct { pid } => match pid {
                Some(pid) => ChildIdentity { pid, shim_pid: None },
                None => {
                    return Err(plain_failure(VynkorError::Internal("no pid".to_owned())));
                },
            },
            ChildReport::Shim { reply, shim_pid } => {
                let plugin_pid: u32 = match reply {
                    ShimReply::TimedOut => {
                        return Err(
                            plain_failure(
                                VynkorError::Internal(
                                    "sandbox shim did not report a plugin pid within 15s".to_owned(),
                                ),
                            ),
                        );
                    },
                    ShimReply::ReadFailed(e) => {
                        return Err(plain_failure(VynkorError::Io(e)));
                    },
                    ShimReply::Line(line) => match parse_plugin_pid(&line) {
                        Some(pid) => pid,
                        None => {
                            let shown: String = debug_line(&line);
                            let error = VynkorError::Internal(shim_exit_message(shown.as_str()));
                            return Err(
                                SpawnFailure {
                                    kill_child: true,
                                    cleanup: scope,
                                    orphan: None,
                                    error,
                                },
                            );
                        },
                    },
                };
                match shim_pid {
                    Some(shim) => ChildIdentity { pid: plugin_pid, shim_pid: Some(shim) },
                    None => {
                        return Err(plain_failure(VynkorError::Internal("no shim pid".to_owned())));
                    },
                }
            },
        };
        if !self.place_is_free(&prepared) {
            return Err(
                SpawnFailure {
                    kill_child: true,
                    cleanup: scope,
                    orphan: orphan_pid(identity.pid, identity.shim_pid),
                    error: VynkorError::PluginAlreadyRunning(prepared.config.plugin_id),
                },
            );
        }
        let id: String = prepared.config.plugin_id.clone();
        let key: String = prepared.config.plugin_id.clone();
        let logged: bool = match self.log_buffers.get(&id) {
            Some(log) => log.epoch == prepared.epoch,
            None => false,
        };
        if !logged {
            self.start_log(&id, prepared.epoch);
        }
        let ghost before = self.entries@;
        self.entries.insert(
            key,
            PluginEntry {
                config: prepared.config,
                restart_count: prepared.restart_count,
                pid: identity.pid,
                shim_pid: identity.shim_pid,
                epoch: prepared.epoch,
            },
        );
        assert forall|k: Seq<char>| #[trigger]
            self.entries@.contains_key(k) implies self.entries@[k].config.plugin_id@ == k
            && self.entries@[k].epoch <= self.next_epoch by {
            assert(k == id@ || before.contains_key(k));
        }
        Ok(PluginProcess { plugin_id: id, pid: identity.pid })
    }
}

/// The error of a spawn whose process did not come up.
pub open spec fn is_spawn_error(report: ChildReport, error: VynkorError) -> bool {
    match report {
        ChildReport::Direct { .. } => error matches VynkorError::Internal(m) && m@ == "no pid"@,
        ChildReport::Shim { reply: ShimReply::TimedOut, .. } => error matches VynkorError::Internal(
            m,
        ) && m@ == "sandbox shim did not report a plugin pid within 15s"@,
        ChildReport::Shim { reply: ShimReply::ReadFailed(e), .. } => error == VynkorError::Io(e),
        ChildReport::Shim { reply: ShimReply::Line(line), .. } => error matches VynkorError::Internal(
            m,
        ) && m@ == if reported_pid(text_of(line)) is None {
            shim_exit_text(debug_text(text_of(line)))
        } else {
            "no shim pid"@
        },
    }
}

/// A failure after which nothing is cleared away: a process that was started, and its scope,
/// are left to themselves.
fn plain_failure(error: VynkorError) -> (r: SpawnFailure)
    ensures
        !r.kill_child,
        r.cleanup is None,
        r.orphan is None,
        r.error == error,
{
    SpawnFailure { kill_child: false, cleanup: None, orphan: None, error }
}

/// The failure of a spawn whose process could not be started at all: the scope that was
/// prepared for it has no one else to remove it.
pub fn launch_failure(scope: Option<String>, error: String) -> (r: SpawnFailure)
    ensures
        !r.kill_child,
        r.cleanup == scope,
        r.orphan is None,
        r.error == VynkorError::Io(error),
{
    SpawnFailure {
        kill_child: false,
        cleanup: scope,
        orphan: None,
        error: VynkorError::Io(error),
    }
}

/// Reads the plugin's process number from the shim's first line.
pub fn parse_plugin_pid(line: &Option<String>) -> (r: Option<u32>)
    ensures
        r == reported_pid(text_of(*line)),
{
    match line {
        Some(l) => match parse_u32(trim(l.as_str())) {
            Some(pid) => if pid > 0 {
                Some(pid)
            } else {
                None
            },
            None => None,
        },
        None => None,
    }
}

/// What an optional line looks like in debug form.
pub uninterp spec fn debug_text(line: Option<Seq<char>>) -> Seq<char>;

/// Shows an optional line through std's `Debug` for `Option<String>`, by `format!` with
/// `{:?}`. The contract says only that the text depends on the line alone; how characters
/// are escaped in it is left open.
#[verifier::external_body]
fn debug_line(line: &Option<String>) -> (r: String)
    ensures
        r@ == debug_text(text_of(*line)),
{
    format!("{:?}", line)
}

/// The message for a shim that ended early, around the shown line.
pub open spec fn shim_exit_text(shown: Seq<char>) -> Seq<char> {
    "sandbox shim exited before the plugin started (line: "@ + shown + ")"@
}

/// Writes the message for a shim that ended early.
pub fn shim_exit_message(shown: &str) -> (r: String)
    ensures
        r@ == shim_exit_text(shown@),
{
    concat3("sandbox shim exited before the plugin started (line: ", shown, ")")
}

impl Admission {
    /// Settles the data directory: the plugin gets it, and may write to it, where it could
    /// be made. A plugin without one runs all the same.
    pub fn with_data_dir(self, created: bool) -> (r: Prepared)
        ensures
            r.config == self.config,
            r.restart_count == self.restart_count,
            r.epoch == self.epoch,
            r.replace_epoch == self.replace_epoch,
            r.use_shim == self.use_shim,
            text_of(r.plugin_data_dir) == (if created {
                text_of(self.plugin_data)
            } else {
                None
            }),
            r.writable_paths.deep_view() == (match text_of(r.plugin_data_dir) {
                Some(dir) => self.config.writable_paths.deep_view().push(dir),
                None => self.config.writable_paths.deep_view(),
            }),
    {
        let mut writable_paths: Vec<String> = copy_texts(&self.config.writable_paths);
        let plugin_data_dir: Option<String> = if created {
            self.plugin_data
        } else {
            None
        };
        if let Some(dir) = &plugin_data_dir {
            writable_paths.push(dir.clone());
            assert(writable_paths.deep_view() =~= self.config.writable_paths.deep_view().push(dir@));
        }
        Prepared {
            config: self.config,
            restart_count: self.restart_count,
            epoch: self.epoch,
            replace_epoch: self.replace_epoch,
            use_shim: self.use_shim,
            plugin_data_dir,
            writable_paths,
        }
    }
}

impl Prepared {
    /// The command to run.
    pub fn launch_plan(&self, socket_path: &str, host: &HostFacts) -> (r: LaunchPlan)
        ensures
            seq![r.program@] + r.args.deep_view() == command_line(*self, host.shim_bin@),
            assignments(r.env@) == launch_env(*self, socket_path@),
            r.max_procs == self.config.max_procs.unwrap_or(host.default_max_procs),
            r.max_vmem_mb == self.config.max_vmem_mb.unwrap_or(host.default_max_vmem_mb),
            r.use_scope == (host.linux && !host.skip_cgroup),
            r.pre_exec == pre_exec_of(self.config.sandbox, *host),
            r.mirror_output == (host.skip_rlimits || host.skip_cgroup),
            r.fs_restriction_unenforced == (!self.use_shim && self.config.max_fs_access !is Full),
    {
        let mut env: Vec<(String, EnvValue)> = Vec::new();
        let mut args: Vec<String> = Vec::new();
        let program: String;
        let restricted: bool = match &self.config.max_fs_access {
            FsAccessMode::Full => false,
            FsAccessMode::Restricted(_) => true,
        };
        assert(assignments(env@) =~= Seq::empty());
        if self.use_shim {
            program = host.shim_bin.clone();
            args.push("__shim".to_owned());
            args.push(self.config.binary_path.clone());
            if self.config.grace_seconds > 0 {
                let grace: String = to_decimal(self.config.grace_seconds);
                assign(&mut env, "VYN_SHIM_GRACE_SECS", grace.as_str());
            }
            if let FsAccessMode::Restricted(mode) = &self.config.max_fs_access {
                assign(&mut env, "VYN_MAX_FS_ACCESS", mode.as_str());
                assign_paths(&mut env, "VYN_RO_PATHS", &self.config.readonly_paths);
                assign_paths(&mut env, "VYN_RW_PATHS", &self.writable_paths);
            }
            assert(assignments(env@) =~= shim_env(self.config, self.writable_paths.deep_view()));
        } else {
            program = self.config.binary_path.clone();
        }
        append_texts(&mut args, &self.config.args);
        assert(seq![program@] + args.deep_view() =~= command_line(*self, host.shim_bin@));
        assign(&mut env, "VYN_SOCKET_PATH", socket_path);
        if let Some(dir) = &self.plugin_data_dir {
            assign(&mut env, "VYN_DATA_DIR", dir.as_str());
        }
        assert(assignments(env@) =~= supervisor_env(*self, socket_path@));
        assign_configured(&mut env, &self.config.env);
        let pre_exec: PreExec = if !host.linux || host.skip_rlimits {
            PreExec::Unlimited
        } else if self.config.sandbox {
            PreExec::Sandbox
        } else {
            PreExec::Limits
        };
        LaunchPlan {
            program,
            args,
            env,
            max_procs: self.config.max_procs.unwrap_or(host.default_max_procs),
            max_vmem_mb: self.config.max_vmem_mb.unwrap_or(host.default_max_vmem_mb),
            use_scope: host.linux && !host.skip_cgroup,
            pre_exec,
            mirror_output: host.skip_rlimits || host.skip_cgroup,
            fs_restriction_unenforced: !self.use_shim && restricted,
        }
    }
}

/// What follows three parts at the start of a path.
pub open spec fn path_below3(
    path: Seq<char>,
    first: Seq<char>,
    second: Seq<char>,
    third: Seq<char>,
) -> Option<Seq<char>> {
    match path_below(path, first) {
        Some(rest) => match path_below(rest, second) {
            Some(rest) => path_below(rest, third),
            None => None,
        },
        None => None,
    }
}

/// How the system lists a scope: the part below `/sys/fs/cgroup`, without blank parts at
/// either end, or all of it where it does not lie there.
pub open spec fn listed_scope(scope: Seq<char>) -> Seq<char> {
    if scope.len() > 0 && scope[0] == '/' {
        match path_below3(scope, "sys"@, "fs"@, "cgroup"@) {
            Some(rest) => trimmed_path(rest),
            None => scope,
        }
    } else {
        scope
    }
}

/// The name under which the system is to list a process scope.
pub fn expected_scope(scope: &str) -> (r: String)
    ensures
        r@ == listed_scope(scope@),
{
    if scope.unicode_len() == 0 || scope.get_char(0) != '/' {
        return scope.to_owned();
    }
    if let Some(below_sys) = strip_part(scope, "sys") {
        if let Some(below_fs) = strip_part(below_sys, "fs") {
            if let Some(rest) = strip_part(below_fs, "cgroup") {
                return trim_path(rest).to_owned();
            }
        }
    }
    scope.to_owned()
}

/// Whether a process joined its scope, from what the system lists as the process's scope
/// (`None` where it lists nothing).
pub open spec fn scope_check_of(expected: Seq<char>, listed: Option<Seq<char>>) -> ScopeCheck {
    match listed {
        Some(text) => if has_suffix(trimmed_end(text), expected) {
            ScopeCheck::Joined
        } else {
            ScopeCheck::NotJoined
        },
        None => ScopeCheck::Gone,
    }
}

/// Compares the scope that a process is in with the one that was made for it.
pub fn check_scope(expected: &str, listed: &Option<String>) -> (r: ScopeCheck)
    ensures
        r == scope_check_of(expected@, text_of(*listed)),
{
    match listed {
        Some(text) => if ends_with(trim_end(text.as_str()), expected) {
            ScopeCheck::Joined
        } else {
            ScopeCheck::NotJoined
        },
        None => ScopeCheck::Gone,
    }
}

/// Whether the removal of a process scope is tried again after `attempts` attempts.
pub fn retry_cleanup(attempts: u32, still_there: bool) -> (r: bool)
    ensures
        r == (still_there && attempts < CLEANUP_ATTEMPTS),
{
    still_there && attempts < CLEANUP_ATTEMPTS
}

/// The exit of an instance. `status` is whether the process reported success, `None` where
/// its status could not be had.
pub fn exit_event(plugin_id: String, epoch: u64, pid: u32, status: Option<bool>) -> (r: ExitEvent)
    ensures
        r.plugin_id == plugin_id,
        r.epoch == epoch,
        r.pid == pid,
        r.success == (status == Some(true)),
{
    ExitEvent { plugin_id, epoch, pid, success: status.unwrap_or(false) }
}

} // verus!
