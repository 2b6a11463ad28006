//! How a plugin is to be run.
use crate::text::copy_texts;
use vstd::prelude::*;

verus! {

/// When an exited plugin is started again without being asked to.
#[derive(Clone, Copy, Debug, PartialEq, Eq, Structural)]
pub enum RestartPolicy {
    /// Never.
    Never,
    /// After every exit, up to the configured number of restarts.
    Always,
    /// After a failed exit, up to the configured number of restarts.
    OnFailure,
}

/// How much of the file system a sandboxed plugin may reach.
#[derive(Debug)]
pub enum FsAccessMode {
    /// No restriction.
    Full,
    /// A restriction, by the name under which the sandbox shim knows it.
    Restricted(String),
}

/// The configuration of one plugin.
#[derive(Debug)]
pub struct PluginConfig {
    pub plugin_id: String,
    pub binary_path: String,
    pub args: Vec<String>,
    /// `KEY=VALUE` assignments; an entry without `=` is skipped.
    pub env: Vec<String>,
    pub sandbox: bool,
    /// Seconds between the polite and the forced stop; 0 for the shim's own default.
    pub grace_seconds: u64,
    pub max_fs_access: FsAccessMode,
    pub readonly_paths: Vec<String>,
    pub writable_paths: Vec<String>,
    pub max_procs: Option<u64>,
    pub max_vmem_mb: Option<u64>,
    pub restart_policy: RestartPolicy,
    pub max_restarts: u32,
}

/// A plugin's configuration with its texts as character sequences.
pub struct PluginConfigView {
    pub plugin_id: Seq<char>,
    pub binary_path: Seq<char>,
    pub args: Seq<Seq<char>>,
    pub env: Seq<Seq<char>>,
    pub sandbox: bool,
    pub grace_seconds: u64,
    /// The name of the restriction, if there is one.
    pub max_fs_access: Option<Seq<char>>,
    pub readonly_paths: Seq<Seq<char>>,
    pub writable_paths: Seq<Seq<char>>,
    pub max_procs: Option<u64>,
    pub max_vmem_mb: Option<u64>,
    pub restart_policy: RestartPolicy,
    pub max_restarts: u32,
}

impl View for FsAccessMode {
    type V = Option<Seq<char>>;

    open spec fn view(&self) -> Option<Seq<char>> {
        match self {
            FsAccessMode::Full => None,
            FsAccessMode::Restricted(name) => Some(name@),
        }
    }
}

impl View for PluginConfig {
    type V = PluginConfigView;

    open spec fn view(&self) -> PluginConfigView {
        PluginConfigView {
            plugin_id: self.plugin_id@,
            binary_path: self.binary_path@,
            args: self.args.deep_view(),
            env: self.env.deep_view(),
            sandbox: self.sandbox,
            grace_seconds: self.grace_seconds,
            max_fs_access: self.max_fs_access@,
            readonly_paths: self.readonly_paths.deep_view(),
            writable_paths: self.writable_paths.deep_view(),
            max_procs: self.max_procs,
            max_vmem_mb: self.max_vmem_mb,
            restart_policy: self.restart_policy,
            max_restarts: self.max_restarts,
        }
    }
}

impl Clone for FsAccessMode {
    fn clone(&self) -> (r: Self)
        ensures
            r@ == self@,
    {
        match self {
            FsAccessMode::Full => FsAccessMode::Full,
            FsAccessMode::Restricted(name) => FsAccessMode::Restricted(name.clone()),
        }
    }
}

impl Clone for PluginConfig {
    fn clone(&self) -> (r: Self)
        ensures
            r@ == self@,
    {
        PluginConfig {
            plugin_id: self.plugin_id.clone(),
            binary_path: self.binary_path.clone(),
            args: copy_texts(&self.args),
            env: copy_texts(&self.env),
            sandbox: self.sandbox,
            grace_seconds: self.grace_seconds,
            max_fs_access: self.max_fs_access.clone(),
            readonly_paths: copy_texts(&self.readonly_paths),
            writable_paths: copy_texts(&self.writable_paths),
            max_procs: self.max_procs,
            max_vmem_mb: self.max_vmem_mb,
            restart_policy: self.restart_policy,
            max_restarts: self.max_restarts,
        }
    }
}

} // verus!
