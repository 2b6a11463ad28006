//! How a plugin is spawned, said of every call of the operations in `spawn`.
//!
//! `call_ensures(f, args, r)` is a call of `f` on `args` that returned `r`; a supervisor that
//! a call changes is `old(s)` before it and `final(s)` after it.
use crate::plugins::config::{FsAccessMode, PluginConfig};
use crate::plugins::errors::VynkorError;
use crate::plugins::supervisor::spawn::{
    assignments, check_scope, configured_env, debug_switch, exit_event, expected_scope,
    launch_env, launch_failure, parse_plugin_pid, path_below3, retry_cleanup, shim_exit_message,
    supervisor_env, Admission, ChildReport, EnvText, EnvValue, HostFacts, LaunchPlan, PreExec,
    Prepared, ScopeCheck, ShimReply, SpawnFailure,
};
use crate::plugins::supervisor::{ExitEvent, PluginProcess, PluginSupervisor};
use crate::text::{
    ends_with, join_path, parse_u32, path_below, strip_part, to_decimal, trim, trim_end,
    trim_path, trimmed_path_start,
};
use vstd::prelude::*;

verus! {

/// Every spawn is judged, as long as epochs are left; every instance that was admitted can
/// open its log and be finished, whatever became of its process.
pub proof fn law_every_spawn_is_judged(
    s: &mut PluginSupervisor,
    config: PluginConfig,
    restart_count: u32,
    replace_epoch: Option<u64>,
    host: &HostFacts,
    p: Prepared,
    scope: Option<String>,
    report: ChildReport,
)
    requires
        old(s).wf(),
        old(s).next_epoch < u64::MAX,
        p.epoch <= old(s).next_epoch,
        p.use_shim <==> report is Shim,
    ensures
        call_requires(
            PluginSupervisor::admit_spawn,
            (s, config, restart_count, replace_epoch, host),
        ),
        call_requires(PluginSupervisor::open_log, (s, &p)),
        call_requires(PluginSupervisor::finish_spawn, (s, p, scope, report)),
{
}

/// A spawn is refused exactly where it is a manual start of a registered plugin, and the
/// refusal changes nothing.
pub proof fn law_only_a_registered_plugin_refuses_a_manual_start(
    s: &mut PluginSupervisor,
    config: PluginConfig,
    restart_count: u32,
    replace_epoch: Option<u64>,
    host: &HostFacts,
    r: Result<Admission, VynkorError>,
)
    requires
        call_ensures(
            PluginSupervisor::admit_spawn,
            (s, config, restart_count, replace_epoch, host),
            r,
        ),
    ensures
        r is Err <==> (replace_epoch is None && old(s).entries@.contains_key(config.plugin_id@)),
        r matches Err(e) ==> {
            &&& e == VynkorError::PluginAlreadyRunning(config.plugin_id)
            &&& *final(s) == *old(s)
        },
{
}

/// A spawn that goes ahead gets the next epoch, keeps what it was asked for and runs under
/// the shim exactly where a sandbox is asked for on Linux; nothing but the epoch counter
/// moves.
pub proof fn law_admitted_spawn_keeps_what_was_asked_for(
    s: &mut PluginSupervisor,
    config: PluginConfig,
    restart_count: u32,
    replace_epoch: Option<u64>,
    host: &HostFacts,
    a: Admission,
)
    requires
        call_ensures(
            PluginSupervisor::admit_spawn,
            (s, config, restart_count, replace_epoch, host),
            Ok(a),
        ),
    ensures
        a.config == config,
        a.restart_count == restart_count,
        a.replace_epoch == replace_epoch,
        a.epoch == old(s).next_epoch + 1,
        a.use_shim <==> (host.linux && config.sandbox),
        final(s).next_epoch == a.epoch,
        final(s).entries == old(s).entries,
        final(s).forced_restarts == old(s).forced_restarts,
        final(s).stopped_epochs == old(s).stopped_epochs,
        final(s).stopped_counts == old(s).stopped_counts,
        final(s).log_buffers == old(s).log_buffers,
        final(s).max_log_lines == old(s).max_log_lines,
        final(s).socket_path == old(s).socket_path,
        final(s).data_dir == old(s).data_dir,
{
}

/// A later admission has a higher epoch.
pub proof fn law_later_admission_has_a_higher_epoch(
    s: &mut PluginSupervisor,
    config: PluginConfig,
    restart_count: u32,
    replace_epoch: Option<u64>,
    host: &HostFacts,
    first: Admission,
    t: &mut PluginSupervisor,
    other: PluginConfig,
    other_count: u32,
    other_epoch: Option<u64>,
    other_host: &HostFacts,
    second: Admission,
)
    requires
        call_ensures(
            PluginSupervisor::admit_spawn,
            (s, config, restart_count, replace_epoch, host),
            Ok(first),
        ),
        call_ensures(
            PluginSupervisor::admit_spawn,
            (t, other, other_count, other_epoch, other_host),
            Ok(second),
        ),
        old(t).next_epoch >= final(s).next_epoch,
    ensures
        second.epoch > first.epoch,
{
}

/// A plugin has a data directory of its own exactly where plugins have one: the plugin's
/// identifier below `plugins` below the common directory.
pub proof fn law_data_directory_is_named_after_the_plugin(
    s: &mut PluginSupervisor,
    config: PluginConfig,
    restart_count: u32,
    replace_epoch: Option<u64>,
    host: &HostFacts,
    a: Admission,
    base: &str,
    plugins: String,
    below: &str,
    id: &str,
    dir: String,
)
    requires
        call_ensures(
            PluginSupervisor::admit_spawn,
            (s, config, restart_count, replace_epoch, host),
            Ok(a),
        ),
        old(s).data_dir matches Some(d) ==> base@ == d@,
        call_ensures(join_path, (base, "plugins"), plugins),
        below@ == plugins@,
        id@ == config.plugin_id@,
        call_ensures(join_path, (below, id), dir),
    ensures
        a.plugin_data is Some <==> old(s).data_dir is Some,
        a.plugin_data matches Some(d) ==> d@ == dir@,
{
}

/// A plugin whose data directory could be made gets it and may write to it, besides its
/// configured paths; one whose directory is missing has just its configured paths. Nothing
/// else of the spawn changes.
pub proof fn law_data_directory_is_writable(a: Admission, created: bool, p: Prepared)
    requires
        call_ensures(Admission::with_data_dir, (a, created), p),
    ensures
        p.config == a.config,
        p.restart_count == a.restart_count,
        p.epoch == a.epoch,
        p.replace_epoch == a.replace_epoch,
        p.use_shim == a.use_shim,
        p.plugin_data_dir is Some <==> (created && a.plugin_data is Some),
        p.plugin_data_dir matches Some(d) ==> {
            &&& d@ == a.plugin_data->0@
            &&& p.writable_paths.len() == a.config.writable_paths.len() + 1
            &&& p.writable_paths@.last()@ == d@
        },
        p.plugin_data_dir is None ==> p.writable_paths.len() == a.config.writable_paths.len(),
        forall|i: int|
            0 <= i < a.config.writable_paths.len() ==> (#[trigger] p.writable_paths@[i])@
                == a.config.writable_paths@[i]@,
{
    let own = a.config.writable_paths.deep_view();
    assert(p.writable_paths.deep_view().len() == p.writable_paths.len());
    assert(own.len() == a.config.writable_paths.len());
    assert forall|i: int| 0 <= i < a.config.writable_paths.len() implies (
    #[trigger] p.writable_paths@[i])@ == a.config.writable_paths@[i]@ by {
        assert(p.writable_paths.deep_view()[i] == p.writable_paths@[i]@);
        assert(own[i] == a.config.writable_paths@[i]@);
    }
    if p.plugin_data_dir is Some {
        let n = a.config.writable_paths.len() as int;
        assert(p.writable_paths.deep_view()[n] == p.writable_paths@[n]@);
    }
}

/// A plugin without a sandbox runs as its own program, with every configured argument in
/// its place and no other.
pub proof fn law_plain_plugin_gets_all_its_arguments(
    p: &Prepared,
    socket_path: &str,
    host: &HostFacts,
    plan: LaunchPlan,
)
    requires
        call_ensures(Prepared::launch_plan, (p, socket_path, host), plan),
        !p.use_shim,
    ensures
        plan.program@ == p.config.binary_path@,
        plan.args.len() == p.config.args.len(),
        forall|i: int|
            0 <= i < p.config.args.len() ==> (#[trigger] plan.args@[i])@ == p.config.args@[i]@,
{
    let line = seq![plan.program@] + plan.args.deep_view();
    let own = seq![p.config.binary_path@] + p.config.args.deep_view();
    assert(line == own);
    assert(line.len() == 1 + plan.args.len());
    assert(own.len() == 1 + p.config.args.len());
    assert(line[0] == own[0]);
    assert forall|i: int| 0 <= i < p.config.args.len() implies (#[trigger] plan.args@[i])@
        == p.config.args@[i]@ by {
        assert(line[i + 1] == plan.args.deep_view()[i]);
        assert(own[i + 1] == p.config.args.deep_view()[i]);
    }
}

/// A sandboxed plugin is handed to the shim: first the shim's own word, then the program,
/// then every configured argument in its place and no other.
pub proof fn law_sandboxed_plugin_gets_all_its_arguments(
    p: &Prepared,
    socket_path: &str,
    host: &HostFacts,
    plan: LaunchPlan,
)
    requires
        call_ensures(Prepared::launch_plan, (p, socket_path, host), plan),
        p.use_shim,
    ensures
        plan.program@ == host.shim_bin@,
        plan.args.len() == p.config.args.len() + 2,
        plan.args@[0]@ == "__shim"@,
        plan.args@[1]@ == p.config.binary_path@,
        forall|i: int|
            0 <= i < p.config.args.len() ==> (#[trigger] p.config.args@[i])@ == plan.args@[i
                + 2]@,
{
    let line = seq![plan.program@] + plan.args.deep_view();
    let own = seq![host.shim_bin@, "__shim"@] + (seq![p.config.binary_path@]
        + p.config.args.deep_view());
    assert(line == own);
    assert(line.len() == 1 + plan.args.len());
    assert(own.len() == 3 + p.config.args.len());
    assert(line[0] == own[0]);
    assert(line[1] == plan.args.deep_view()[0] && own[1] == "__shim"@);
    assert(line[2] == plan.args.deep_view()[1] && own[2] == p.config.binary_path@);
    assert forall|i: int| 0 <= i < p.config.args.len() implies (#[trigger] p.config.args@[i])@
        == plan.args@[i + 2]@ by {
        assert(line[i + 3] == plan.args.deep_view()[i + 2]);
        assert(own[i + 3] == p.config.args.deep_view()[i]);
    }
}

/// The configured entries that assign something.
pub open spec fn assigning(entries: Seq<Seq<char>>) -> Seq<Seq<char>> {
    entries.filter(|e: Seq<char>| e.contains('='))
}

/// Each configured assignment is an entry that assigns something, cut at its first `=`.
proof fn lemma_configured_env(entries: Seq<Seq<char>>)
    ensures
        configured_env(entries).len() == assigning(entries).len(),
        forall|i: int|
            0 <= i < assigning(entries).len() ==> {
                let (key, value) = #[trigger] configured_env(entries)[i];
                &&& !key.contains('=')
                &&& value matches EnvText::Text(v) && key + seq!['='] + v == assigning(entries)[i]
            },
    decreases entries.len(),
{
    reveal(Seq::filter);
    if entries.len() > 0 {
        let init = entries.drop_last();
        let last = entries.last();
        lemma_configured_env(init);
        last.index_of_first_ensures('=');
        if last.contains('=') {
            let at = last.index_of_first('=')->0;
            let key = last.take(at);
            assert(key + seq!['='] + last.skip(at + 1) =~= last);
            assert(!key.contains('=')) by {
                if key.contains('=') {
                    let j = choose|j: int| 0 <= j < key.len() && key[j] == '=';
                    assert(last[j] == '=');
                }
            }
        }
        assert forall|i: int| 0 <= i < assigning(entries).len() implies ({
            let (key, value) = #[trigger] configured_env(entries)[i];
            &&& !key.contains('=')
            &&& value matches EnvText::Text(v) && key + seq!['='] + v == assigning(entries)[i]
        }) by {
            if i < assigning(init).len() {
                assert(configured_env(entries)[i] == configured_env(init)[i]);
                assert(assigning(entries)[i] == assigning(init)[i]);
            }
        }
    }
}

/// How many variables the shim is given: the stop deadline where there is one, and three
/// for a file-system restriction.
pub open spec fn shim_variables(p: Prepared) -> int {
    if p.use_shim {
        (if p.config.grace_seconds > 0 {
            1int
        } else {
            0
        }) + (if p.config.max_fs_access is Restricted {
            3int
        } else {
            0
        })
    } else {
        0
    }
}

/// The variable at this place has this name and this text as its value.
pub open spec fn sets_text(plan: LaunchPlan, i: int, key: Seq<char>, text: Seq<char>) -> bool {
    &&& 0 <= i < plan.env.len()
    &&& plan.env@[i].0@ == key
    &&& plan.env@[i].1 matches EnvValue::Text(t) && t@ == text
}

/// The variable at this place has this name and these paths as its value, in order.
pub open spec fn sets_paths(plan: LaunchPlan, i: int, key: Seq<char>, paths: Seq<String>) -> bool {
    &&& 0 <= i < plan.env.len()
    &&& plan.env@[i].0@ == key
    &&& plan.env@[i].1 matches EnvValue::Paths(v) && v.len() == paths.len() && forall|j: int|
        0 <= j < paths.len() ==> (#[trigger] v@[j])@ == paths[j]@
}

/// The variable `i` places after `at` is the one that a configured entry assigns: its name is
/// what stands before the first `=`, its value what stands after it.
pub open spec fn sets_entry(plan: LaunchPlan, at: int, i: int, entry: Seq<char>) -> bool {
    let key = plan.env@[at + i].0@;
    &&& !key.contains('=')
    &&& plan.env@[at + i].1 matches EnvValue::Text(t) && key + seq!['='] + t@ == entry
}

/// An environment as texts has its values at the same places.
proof fn lemma_assignment(env: Seq<(String, EnvValue)>, i: int)
    requires
        0 <= i < env.len(),
    ensures
        assignments(env).len() == env.len(),
        assignments(env)[i] == (env[i].0@, env[i].1@),
{
}

/// A list of paths is the same list when its texts are.
proof fn lemma_same_paths(a: Vec<String>, b: Vec<String>)
    requires
        a.deep_view() == b.deep_view(),
    ensures
        a.len() == b.len(),
        forall|j: int| 0 <= j < b.len() ==> (#[trigger] a@[j])@ == b@[j]@,
{
    assert(a.deep_view().len() == a.len());
    assert(b.deep_view().len() == b.len());
    assert forall|j: int| 0 <= j < b.len() implies (#[trigger] a@[j])@ == b@[j]@ by {
        assert(a.deep_view()[j] == a@[j]@);
        assert(b.deep_view()[j] == b@[j]@);
    }
}

/// The shim learns the stop deadline where one is configured, in seconds, and a file-system
/// restriction where there is one: by name, with the paths to read and the paths to write.
pub proof fn law_shim_learns_its_limits(
    p: &Prepared,
    socket_path: &str,
    host: &HostFacts,
    plan: LaunchPlan,
    grace: String,
)
    requires
        call_ensures(Prepared::launch_plan, (p, socket_path, host), plan),
        p.use_shim,
        call_ensures(to_decimal, (p.config.grace_seconds,), grace),
    ensures
        p.config.grace_seconds > 0 ==> sets_text(plan, 0, "VYN_SHIM_GRACE_SECS"@, grace@),
        p.config.max_fs_access matches FsAccessMode::Restricted(mode) ==> {
            let at = if p.config.grace_seconds > 0 {
                1int
            } else {
                0
            };
            &&& sets_text(plan, at, "VYN_MAX_FS_ACCESS"@, mode@)
            &&& sets_paths(plan, at + 1, "VYN_RO_PATHS"@, p.config.readonly_paths@)
            &&& sets_paths(plan, at + 2, "VYN_RW_PATHS"@, p.writable_paths@)
        },
{
    let env = launch_env(*p, socket_path@);
    assert(assignments(plan.env@) == env);
    assert(env.len() == plan.env.len());
    if p.config.grace_seconds > 0 {
        assert(env[0] == ("VYN_SHIM_GRACE_SECS"@, EnvText::Text(grace@)));
        lemma_assignment(plan.env@, 0);
    }
    if p.config.max_fs_access is Restricted {
        let at = if p.config.grace_seconds > 0 {
            1int
        } else {
            0
        };
        let mode = p.config.max_fs_access->0;
        assert(env[at] == ("VYN_MAX_FS_ACCESS"@, EnvText::Text(mode@)));
        assert(env[at + 1] == (
            "VYN_RO_PATHS"@,
            EnvText::Paths(p.config.readonly_paths.deep_view()),
        ));
        assert(env[at + 2] == ("VYN_RW_PATHS"@, EnvText::Paths(p.writable_paths.deep_view())));
        lemma_assignment(plan.env@, at);
        lemma_assignment(plan.env@, at + 1);
        lemma_assignment(plan.env@, at + 2);
        if let EnvValue::Paths(v) = plan.env@[at + 1].1 {
            lemma_same_paths(v, p.config.readonly_paths);
        }
        if let EnvValue::Paths(v) = plan.env@[at + 2].1 {
            lemma_same_paths(v, p.writable_paths);
        }
    }
}

/// Every plugin learns the kernel's socket, right after what is meant for the shim, and its
/// data directory where it has one. After these come the configured assignments, in order:
/// each entry that has a `=` gives its part before the first `=` the part after it as its
/// value. Nothing else is in the environment.
pub proof fn law_environment_is_complete(
    p: &Prepared,
    socket_path: &str,
    host: &HostFacts,
    plan: LaunchPlan,
)
    requires
        call_ensures(Prepared::launch_plan, (p, socket_path, host), plan),
    ensures
        sets_text(plan, shim_variables(*p), "VYN_SOCKET_PATH"@, socket_path@),
        p.plugin_data_dir matches Some(dir) ==> sets_text(
            plan,
            shim_variables(*p) + 1,
            "VYN_DATA_DIR"@,
            dir@,
        ),
        ({
            let own = assigning(p.config.env.deep_view());
            let at = shim_variables(*p) + (if p.plugin_data_dir is Some {
                2int
            } else {
                1
            });
            &&& plan.env.len() == at + own.len()
            &&& forall|i: int| 0 <= i < own.len() ==> sets_entry(plan, at, i, #[trigger] own[i])
        }),
{
    let entries = p.config.env.deep_view();
    let own = assigning(entries);
    let n = shim_variables(*p);
    let at = n + (if p.plugin_data_dir is Some {
        2int
    } else {
        1
    });
    let env = launch_env(*p, socket_path@);
    let before = supervisor_env(*p, socket_path@);
    lemma_configured_env(entries);
    assert(assignments(plan.env@) == env);
    assert(env.len() == plan.env.len());
    assert(before.len() == at);
    assert(env.len() == before.len() + configured_env(entries).len());
    assert(env[n] == before[n]);
    assert(before[n] == ("VYN_SOCKET_PATH"@, EnvText::Text(socket_path@)));
    lemma_assignment(plan.env@, n);
    if p.plugin_data_dir is Some {
        assert(env[n + 1] == before[n + 1]);
        assert(before[n + 1] == ("VYN_DATA_DIR"@, EnvText::Text(p.plugin_data_dir->0@)));
        lemma_assignment(plan.env@, n + 1);
    }
    assert forall|i: int| 0 <= i < own.len() implies sets_entry(plan, at, i, #[trigger] own[i]) by {
        lemma_assignment(plan.env@, at + i);
        assert(env[at + i] == configured_env(entries)[i]);
    }
}

/// A plugin's own limits hold where it has them, the host's otherwise.
pub proof fn law_own_limits_come_first(
    p: &Prepared,
    socket_path: &str,
    host: &HostFacts,
    plan: LaunchPlan,
)
    requires
        call_ensures(Prepared::launch_plan, (p, socket_path, host), plan),
    ensures
        p.config.max_procs matches Some(n) ==> plan.max_procs == n,
        p.config.max_procs is None ==> plan.max_procs == host.default_max_procs,
        p.config.max_vmem_mb matches Some(n) ==> plan.max_vmem_mb == n,
        p.config.max_vmem_mb is None ==> plan.max_vmem_mb == host.default_max_vmem_mb,
{
}

/// On Linux a plugin runs in a scope of its own and under limits, each unless its debug
/// switch is on; a sandboxed one takes on the sandbox's restrictions with the limits.
/// Elsewhere there is neither. Either switch mirrors the output.
pub proof fn law_limits_hold_unless_switched_off(
    p: &Prepared,
    socket_path: &str,
    host: &HostFacts,
    plan: LaunchPlan,
)
    requires
        call_ensures(Prepared::launch_plan, (p, socket_path, host), plan),
    ensures
        plan.use_scope <==> (host.linux && !host.skip_cgroup),
        plan.pre_exec == PreExec::Unlimited <==> (!host.linux || host.skip_rlimits),
        plan.pre_exec == PreExec::Sandbox <==> (host.linux && !host.skip_rlimits
            && p.config.sandbox),
        plan.pre_exec == PreExec::Limits <==> (host.linux && !host.skip_rlimits
            && !p.config.sandbox),
        plan.mirror_output <==> (host.skip_cgroup || host.skip_rlimits),
        plan.fs_restriction_unenforced <==> (!p.use_shim && p.config.max_fs_access is Restricted),
{
}

/// The log of a started instance is opened empty and at full size exactly where no instance
/// is registered that it may not replace; the other plugins' logs stay.
pub proof fn law_started_instance_gets_a_log(
    s: &mut PluginSupervisor,
    p: &Prepared,
    other: Seq<char>,
)
    requires
        call_ensures(PluginSupervisor::open_log, (s, p), ()),
        other != p.config.plugin_id@,
    ensures
        !old(s).entries@.contains_key(p.config.plugin_id@) || p.replace_epoch == Some(
            old(s).entries@[p.config.plugin_id@].epoch,
        ) ==> {
            let log = final(s).log_buffers@[p.config.plugin_id@];
            &&& final(s).log_buffers@.contains_key(p.config.plugin_id@)
            &&& log.epoch == p.epoch
            &&& log.buffer@.len() == 0
            &&& log.buffer.capacity() == old(s).max_log_lines
        },
        old(s).entries@.contains_key(p.config.plugin_id@) && p.replace_epoch != Some(
            old(s).entries@[p.config.plugin_id@].epoch,
        ) ==> final(s).log_buffers == old(s).log_buffers,
        final(s).log_buffers@.contains_key(other) == old(s).log_buffers@.contains_key(other),
        old(s).log_buffers@.contains_key(other) ==> final(s).log_buffers@[other] == old(
            s,
        ).log_buffers@[other],
        final(s).entries == old(s).entries,
        final(s).forced_restarts == old(s).forced_restarts,
        final(s).stopped_epochs == old(s).stopped_epochs,
        final(s).stopped_counts == old(s).stopped_counts,
        final(s).next_epoch == old(s).next_epoch,
{
    let id = p.config.plugin_id@;
    assert(final(s).log_buffers@.remove(id).contains_key(other) == old(s).log_buffers@.remove(
        id,
    ).contains_key(other));
    assert(final(s).log_buffers@.remove(id)[other] == old(s).log_buffers@.remove(id)[other]);
}

/// The instance came up as these processes: a plain one as the process that was started, a
/// sandboxed one as the process that its shim named.
pub open spec fn came_up(report: ChildReport, pid: u32, shim_pid: Option<u32>) -> bool {
    match report {
        ChildReport::Direct { pid: own } => own == Some(pid) && shim_pid is None,
        ChildReport::Shim { reply, shim_pid: shim } => {
            &&& reply matches ShimReply::Line(line) && call_ensures(
                parse_plugin_pid,
                (&line,),
                Some(pid),
            )
            &&& shim is Some
            &&& shim_pid == shim
        },
    }
}

/// An instance that came up is registered wherever no instance of the plugin is, for a
/// manual start as for a restart and whatever else is on record, and wherever the registered
/// one is the instance that a restart follows.
pub proof fn law_instance_that_came_up_is_registered(
    s: &mut PluginSupervisor,
    p: Prepared,
    scope: Option<String>,
    report: ChildReport,
    r: Result<PluginProcess, SpawnFailure>,
    pid: u32,
    shim_pid: Option<u32>,
)
    requires
        call_ensures(PluginSupervisor::finish_spawn, (s, p, scope, report), r),
        came_up(report, pid, shim_pid),
        !old(s).entries@.contains_key(p.config.plugin_id@) || p.replace_epoch == Some(
            old(s).entries@[p.config.plugin_id@].epoch,
        ),
    ensures
        r is Ok,
        r->Ok_0.plugin_id@ == p.config.plugin_id@,
        r->Ok_0.pid == pid,
        final(s).entries@.contains_key(p.config.plugin_id@),
        ({
            let entry = final(s).entries@[p.config.plugin_id@];
            &&& entry.config == p.config
            &&& entry.restart_count == p.restart_count
            &&& entry.pid == pid
            &&& entry.shim_pid == shim_pid
            &&& entry.epoch == p.epoch
        }),
        final(s).entries@.remove(p.config.plugin_id@) =~= old(s).entries@.remove(
            p.config.plugin_id@,
        ),
        final(s).forced_restarts == old(s).forced_restarts,
        final(s).stopped_epochs == old(s).stopped_epochs,
        final(s).stopped_counts == old(s).stopped_counts,
        final(s).next_epoch == old(s).next_epoch,
        final(s).max_log_lines == old(s).max_log_lines,
        final(s).socket_path == old(s).socket_path,
        final(s).data_dir == old(s).data_dir,
{
}

/// A registered instance has a log of its own: the one that was opened for it, with all its
/// lines, or else a new one.
pub proof fn law_registered_instance_logs_on(
    s: &mut PluginSupervisor,
    p: Prepared,
    scope: Option<String>,
    report: ChildReport,
    process: PluginProcess,
    other: Seq<char>,
)
    requires
        call_ensures(PluginSupervisor::finish_spawn, (s, p, scope, report), Ok(process)),
        other != p.config.plugin_id@,
    ensures
        final(s).log_buffers@.contains_key(p.config.plugin_id@),
        final(s).log_buffers@[p.config.plugin_id@].epoch == p.epoch,
        old(s).log_buffers@.contains_key(p.config.plugin_id@)
            && old(s).log_buffers@[p.config.plugin_id@].epoch == p.epoch ==> final(s).log_buffers
            == old(s).log_buffers,
        final(s).log_buffers@.contains_key(other) == old(s).log_buffers@.contains_key(other),
        old(s).log_buffers@.contains_key(other) ==> final(s).log_buffers@[other] == old(
            s,
        ).log_buffers@[other],
{
    let id = p.config.plugin_id@;
    assert(final(s).log_buffers@.remove(id).contains_key(other) == old(s).log_buffers@.remove(
        id,
    ).contains_key(other));
    assert(final(s).log_buffers@.remove(id)[other] == old(s).log_buffers@.remove(id)[other]);
}

/// An instance that came up too late, with another in its place that it may not replace, is
/// turned away: its process is to be killed, its scope removed, and a sandboxed plugin is to
/// be killed as well. Nothing that is registered changes.
pub proof fn law_instance_that_came_too_late_is_turned_away(
    s: &mut PluginSupervisor,
    p: Prepared,
    scope: Option<String>,
    report: ChildReport,
    r: Result<PluginProcess, SpawnFailure>,
    pid: u32,
    shim_pid: Option<u32>,
)
    requires
        call_ensures(PluginSupervisor::finish_spawn, (s, p, scope, report), r),
        came_up(report, pid, shim_pid),
        old(s).entries@.contains_key(p.config.plugin_id@),
        p.replace_epoch != Some(old(s).entries@[p.config.plugin_id@].epoch),
    ensures
        *final(s) == *old(s),
        r matches Err(failure) && {
            &&& failure.kill_child
            &&& failure.cleanup == scope
            &&& failure.orphan is Some <==> shim_pid is Some
            &&& failure.orphan matches Some(orphan) ==> orphan == (if pid <= i32::MAX {
                pid as int
            } else {
                pid - 0x1_0000_0000
            })
            &&& failure.error == VynkorError::PluginAlreadyRunning(p.config.plugin_id)
        },
{
}

/// An instance that did not come up is never registered, and nothing changes.
pub proof fn law_instance_that_did_not_come_up_is_not_registered(
    s: &mut PluginSupervisor,
    p: Prepared,
    scope: Option<String>,
    report: ChildReport,
    r: Result<PluginProcess, SpawnFailure>,
)
    requires
        call_ensures(PluginSupervisor::finish_spawn, (s, p, scope, report), r),
        match report {
            ChildReport::Direct { pid } => pid is None,
            ChildReport::Shim { reply, shim_pid } => match reply {
                ShimReply::Line(line) => shim_pid is None || call_ensures(
                    parse_plugin_pid,
                    (&line,),
                    None,
                ),
                _ => true,
            },
        },
    ensures
        r is Err,
        *final(s) == *old(s),
        r->Err_0.orphan is None,
{
}

/// A shim that names no process is killed and its scope removed; the error shows its line.
pub proof fn law_shim_without_a_process_is_cleared_away(
    s: &mut PluginSupervisor,
    p: Prepared,
    scope: Option<String>,
    line: Option<String>,
    shim_pid: Option<u32>,
    r: Result<PluginProcess, SpawnFailure>,
)
    requires
        call_ensures(
            PluginSupervisor::finish_spawn,
            (s, p, scope, ChildReport::Shim { reply: ShimReply::Line(line), shim_pid }),
            r,
        ),
        call_ensures(parse_plugin_pid, (&line,), None),
    ensures
        r matches Err(failure) && {
            &&& failure.kill_child
            &&& failure.cleanup == scope
            &&& failure.error matches VynkorError::Internal(m) && exists|shown: Seq<char>|
                #![trigger shown.len()]
                m@ == "sandbox shim exited before the plugin started (line: "@ + shown + ")"@
        },
{
    let shown = crate::plugins::supervisor::spawn::debug_text(
        crate::plugins::supervisor::spawn::text_of(line),
    );
    assert(shown.len() >= 0);
}

/// Each other way of not coming up has its own error, and leaves process and scope alone.
pub proof fn law_other_failures_are_told_apart(
    s: &mut PluginSupervisor,
    p: Prepared,
    scope: Option<String>,
    report: ChildReport,
    r: Result<PluginProcess, SpawnFailure>,
)
    requires
        call_ensures(PluginSupervisor::finish_spawn, (s, p, scope, report), r),
        match report {
            ChildReport::Direct { pid } => pid is None,
            ChildReport::Shim { reply, shim_pid } => match reply {
                ShimReply::Line(line) => shim_pid is None && exists|pid: u32| #[trigger]
                    call_ensures(parse_plugin_pid, (&line,), Some(pid)),
                _ => true,
            },
        },
    ensures
        r matches Err(failure) && {
            &&& !failure.kill_child
            &&& failure.cleanup is None
            &&& match report {
                ChildReport::Direct { .. } => failure.error matches VynkorError::Internal(m) && m@
                    == "no pid"@,
                ChildReport::Shim { reply, .. } => match reply {
                    ShimReply::TimedOut => failure.error matches VynkorError::Internal(m) && m@
                        == "sandbox shim did not report a plugin pid within 15s"@,
                    ShimReply::ReadFailed(e) => failure.error == VynkorError::Io(e),
                    ShimReply::Line(_) => failure.error matches VynkorError::Internal(m) && m@
                        == "no shim pid"@,
                },
            }
        },
{
}

/// A process that could not be started at all leaves its scope to be removed.
pub proof fn law_failed_launch_leaves_no_scope(
    scope: Option<String>,
    error: String,
    failure: SpawnFailure,
)
    requires
        call_ensures(launch_failure, (scope, error), failure),
    ensures
        failure.cleanup == scope,
        !failure.kill_child,
        failure.orphan is None,
        failure.error == VynkorError::Io(error),
{
}

/// A line names a process exactly where, white space around it aside, it is a number that
/// fits and is not 0.
pub proof fn law_line_names_a_process(
    line: Option<String>,
    text: &str,
    inner: &str,
    number: Option<u32>,
    named: Option<u32>,
)
    requires
        call_ensures(parse_plugin_pid, (&line,), named),
        line matches Some(l) ==> text@ == l@,
        call_ensures(trim, (text,), inner),
        call_ensures(parse_u32, (inner,), number),
    ensures
        line is None ==> named is None,
        line is Some ==> match number {
            Some(n) => if n == 0 {
                named is None
            } else {
                named == Some(n)
            },
            None => named is None,
        },
{
}

/// The message for a shim that ended early stands around the line that is shown.
pub proof fn law_early_end_shows_the_line(shown: &str, message: String)
    requires
        call_ensures(shim_exit_message, (shown,), message),
    ensures
        message@ == "sandbox shim exited before the plugin started (line: "@ + shown@ + ")"@,
{
}

/// A process joined its scope exactly where the system lists it under a name that ends in
/// the scope's, white space at the end aside; one that is not listed is gone.
pub proof fn law_scope_is_joined_where_listed(
    expected: &str,
    listed: Option<String>,
    text: &str,
    inner: &str,
    ends: bool,
    check: ScopeCheck,
)
    requires
        call_ensures(check_scope, (expected, &listed), check),
        listed matches Some(l) ==> text@ == l@,
        call_ensures(trim_end, (text,), inner),
        call_ensures(ends_with, (inner, expected), ends),
    ensures
        listed is None <==> check == ScopeCheck::Gone,
        listed is Some && ends <==> check == ScopeCheck::Joined,
        listed is Some && !ends <==> check == ScopeCheck::NotJoined,
{
}

/// The removal of a scope is tried ten times at most, and no more once it is gone.
pub proof fn law_scope_removal_is_tried_ten_times(attempts: u32, still_there: bool, again: bool)
    requires
        call_ensures(retry_cleanup, (attempts, still_there), again),
    ensures
        again <==> still_there && attempts < 10,
{
}

/// An exit is told with its instance; it is a success only where the process said so.
pub proof fn law_lost_status_is_no_success(
    plugin_id: String,
    epoch: u64,
    pid: u32,
    status: Option<bool>,
    event: ExitEvent,
)
    requires
        call_ensures(exit_event, (plugin_id, epoch, pid, status), event),
    ensures
        event.plugin_id == plugin_id,
        event.epoch == epoch,
        event.pid == pid,
        event.success <==> status == Some(true),
{
}

/// A debug switch is on exactly where its variable is the single character `1`.
pub proof fn law_switch_is_on_at_one_only(value: Option<String>, on: bool)
    requires
        call_ensures(debug_switch, (value,), on),
    ensures
        on <==> value is Some && value->0@ == seq!['1'],
{
    reveal_strlit("1");
    assert("1"@ =~= seq!['1']);
}

/// A scope is listed by what follows the three parts of the mount point in its path, blank
/// ends aside, where the path is absolute and begins with them; else by the whole path.
pub proof fn law_scope_is_listed_by_what_follows_the_mount_point(
    scope: &str,
    r: String,
    first: Option<&str>,
    below_sys: &str,
    second: Option<&str>,
    below_fs: &str,
    third: Option<&str>,
    rest: &str,
    inner: &str,
)
    requires
        call_ensures(expected_scope, (scope,), r),
        call_ensures(strip_part, (scope, "sys"), first),
        first matches Some(t) ==> below_sys@ == t@,
        call_ensures(strip_part, (below_sys, "fs"), second),
        second matches Some(t) ==> below_fs@ == t@,
        call_ensures(strip_part, (below_fs, "cgroup"), third),
        third matches Some(t) ==> rest@ == t@,
        call_ensures(trim_path, (rest,), inner),
    ensures
        scope@.len() > 0 && scope@[0] == '/' && first is Some && second is Some && third is Some
            ==> r@ == inner@,
        scope@.len() == 0 || scope@[0] != '/' || first is None || second is None || third is None
            ==> r@ == scope@,
{
}

/// A path that begins with a slash and a plain part has that part first.
proof fn lemma_first_part(path: Seq<char>, name: Seq<char>, rest: Seq<char>)
    requires
        path == seq!['/'] + name + rest,
        name.len() > 0,
        name[0] != '/' && name[0] != '.',
        rest.len() > 0 ==> rest[0] == '/',
    ensures
        path_below(path, name) == Some(rest),
{
    reveal_with_fuel(trimmed_path_start, 2);
    let p = path.skip(1);
    assert(p =~= name + rest);
    assert(path[0] == '/');
    assert(p[0] == name[0]);
    assert(trimmed_path_start(path) == p);
    assert(p.take(name.len() as int) =~= name);
    assert(p.skip(name.len() as int) =~= rest);
}

/// The mount point of process scopes, part by part.
proof fn lemma_mount_point()
    ensures
        "/sys/fs/cgroup"@ == seq!['/'] + "sys"@ + (seq!['/'] + "fs"@ + (seq!['/'] + "cgroup"@)),
        "/sys/fs/cgroup/"@ == "/sys/fs/cgroup"@ + seq!['/'],
        "sys"@ == seq!['s', 'y', 's'],
        "fs"@ == seq!['f', 's'],
        "cgroup"@ == seq!['c', 'g', 'r', 'o', 'u', 'p'],
{
    reveal_strlit("/sys/fs/cgroup");
    reveal_strlit("/sys/fs/cgroup/");
    reveal_strlit("sys");
    reveal_strlit("fs");
    reveal_strlit("cgroup");
    assert("sys"@ =~= seq!['s', 'y', 's']);
    assert("fs"@ =~= seq!['f', 's']);
    assert("cgroup"@ =~= seq!['c', 'g', 'r', 'o', 'u', 'p']);
    assert("/sys/fs/cgroup"@ =~= seq!['/'] + "sys"@ + (seq!['/'] + "fs"@ + (seq!['/']
        + "cgroup"@)));
    assert("/sys/fs/cgroup/"@ =~= "/sys/fs/cgroup"@ + seq!['/']);
}

/// A scope below the mount point of process scopes is listed by the rest of its path.
pub proof fn law_scope_is_listed_below_the_mount_point(scope: &str, rest: Seq<char>, r: String)
    requires
        call_ensures(expected_scope, (scope,), r),
        scope@ == "/sys/fs/cgroup/"@ + rest,
        rest.len() > 0,
        rest[0] != '/' && rest[0] != '.',
        rest.last() != '/' && rest.last() != '.',
    ensures
        r@ == rest,
{
    reveal_with_fuel(trimmed_path_start, 3);
    lemma_mount_point();
    let below = seq!['/'] + rest;
    let third = seq!['/'] + "cgroup"@ + below;
    let second = seq!['/'] + "fs"@ + third;
    assert(scope@ =~= seq!['/'] + "sys"@ + second);
    lemma_first_part(scope@, "sys"@, second);
    lemma_first_part(second, "fs"@, third);
    lemma_first_part(third, "cgroup"@, below);
    assert(scope@[0] == '/');
    assert(below.skip(1) =~= rest);
    assert(below[0] == '/');
    assert(trimmed_path_start(below) == rest);
}

/// A scope elsewhere is listed by its whole path: one that is no absolute path, and one
/// without blank parts up front that does not begin with the mount point, or goes on after
/// it within the same part.
pub proof fn law_scope_elsewhere_is_listed_as_it_is(scope: &str, r: String)
    requires
        call_ensures(expected_scope, (scope,), r),
        ({
            ||| scope@.len() == 0
            ||| scope@[0] != '/'
            ||| {
                &&& forall|i: int|
                    0 <= i < 14 && i + 1 < scope@.len() && #[trigger] scope@[i] == '/' ==> scope@[i
                        + 1] != '/' && scope@[i + 1] != '.'
                &&& !("/sys/fs/cgroup"@.is_prefix_of(scope@)) || (scope@.len() > 14 && scope@[14]
                    != '/')
            }
        }),
    ensures
        r@ == scope@,
{
    lemma_mount_point();
    reveal_with_fuel(trimmed_path_start, 2);
    let s = scope@;
    if s.len() > 0 && s[0] == '/' && path_below3(s, "sys"@, "fs"@, "cgroup"@) is Some {
        let a = path_below(s, "sys"@)->0;
        assert(s.len() > 1);
        let p = s.skip(1);
        assert(p[0] == s[1]);
        assert(trimmed_path_start(s) == p);
        assert(p.take(3) == "sys"@);
        assert(p.take(3)[0] == s[1] && p.take(3)[1] == s[2] && p.take(3)[2] == s[3]);
        assert(a == p.skip(3));
        assert(a =~= s.skip(4));
        let b = path_below(a, "fs"@)->0;
        assert(s.len() > 5);
        assert(a[0] == s[4] && a[1] == s[5]);
        let q = a.skip(1);
        assert(q[0] == s[5]);
        assert(trimmed_path_start(a) == q);
        assert(q.take(2) == "fs"@);
        assert(q.take(2)[0] == s[5] && q.take(2)[1] == s[6]);
        assert(b =~= s.skip(7));
        assert(s.len() > 8);
        assert(b[0] == s[7] && b[1] == s[8]);
        let t = b.skip(1);
        assert(t[0] == s[8]);
        assert(trimmed_path_start(b) == t);
        assert(t.take(6) == "cgroup"@);
        assert(forall|i: int| 0 <= i < 6 ==> #[trigger] t.take(6)[i] == s[8 + i]);
        assert(t.take(6)[0] == 'c' && t.take(6)[1] == 'g' && t.take(6)[2] == 'r' && t.take(6)[3]
            == 'o' && t.take(6)[4] == 'u' && t.take(6)[5] == 'p');
        assert("/sys/fs/cgroup"@ =~= s.take(14));
        assert("/sys/fs/cgroup"@.is_prefix_of(s));
        assert(t.len() > 6 ==> t[6] == s[14]);
    }
}

} // verus!
