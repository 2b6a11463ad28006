use vynkor::plugins::config::{FsAccessMode, PluginConfig, RestartPolicy};
use vynkor::plugins::errors::VynkorError;
use vynkor::plugins::logs::LogBuffer;
use vynkor::plugins::supervisor::monitor::{death_notice, exit_notice, ExitVerdict};
use vynkor::plugins::supervisor::spawn::{
    check_scope, debug_switch, exit_event, expected_scope, launch_failure, parse_plugin_pid,
    retry_cleanup, shim_exit_message, ChildReport, EnvValue, HostFacts, LaunchPlan, PreExec,
    Prepared, ScopeCheck, ShimReply, CLEANUP_PAUSE_MILLIS, SHIM_DEADLINE_SECS,
};
use vynkor::plugins::supervisor::watchdog::{
    deadline_nanos, orphan_pid, ping_dropped, ping_frame, ping_timestamp, to_signed_pid,
    watchdog_action, SupervisedPlugin, WatchdogAction,
};
use vynkor::plugins::supervisor::{ExitEvent, PluginSupervisor};

fn id(s: &str) -> String {
    s.to_string()
}

fn config(name: &str, policy: RestartPolicy, max_restarts: u32) -> PluginConfig {
    PluginConfig {
        plugin_id: id(name),
        binary_path: id("/opt/echo"),
        args: vec![id("-v")],
        env: vec![id("A=1=2"), id("junk"), id("B=")],
        sandbox: false,
        grace_seconds: 0,
        max_fs_access: FsAccessMode::Full,
        readonly_paths: vec![id("/ro")],
        writable_paths: vec![id("/rw")],
        max_procs: None,
        max_vmem_mb: Some(64),
        restart_policy: policy,
        max_restarts,
    }
}

fn host() -> HostFacts {
    HostFacts {
        linux: true,
        skip_cgroup: false,
        skip_rlimits: false,
        default_max_procs: 128,
        default_max_vmem_mb: 512,
        shim_bin: id("/usr/bin/vyn"),
    }
}

fn supervisor() -> PluginSupervisor {
    PluginSupervisor::new(3, id("/run/vyn.sock"), Some(id("/data")))
}

fn prepare(s: &mut PluginSupervisor, c: PluginConfig, count: u32, replace: Option<u64>) -> Prepared {
    s.admit_spawn(c, count, replace, &host()).ok().unwrap().with_data_dir(true)
}

fn start(s: &mut PluginSupervisor, c: PluginConfig, count: u32, replace: Option<u64>, pid: u32) -> u64 {
    let p = prepare(s, c, count, replace);
    let epoch = p.epoch;
    s.open_log(&p);
    let process = s.finish_spawn(p, None, ChildReport::Direct { pid: Some(pid) }).unwrap();
    assert_eq!(process.pid, pid);
    epoch
}

fn exit(name: &str, epoch: u64, success: bool) -> ExitEvent {
    exit_event(id(name), epoch, 7, Some(success))
}

fn env_pairs(plan: &LaunchPlan) -> Vec<(&str, String)> {
    let show = |value: &EnvValue| match value {
        EnvValue::Text(text) => text.clone(),
        EnvValue::Paths(paths) => format!("[{}]", paths.join(" ")),
    };
    plan.env.iter().map(|(k, v)| (k.as_str(), show(v))).collect()
}

fn pairs(expected: &[(&'static str, &str)]) -> Vec<(&'static str, String)> {
    expected.iter().map(|(k, v)| (*k, id(v))).collect()
}

#[test]
fn manual_start_is_refused_while_registered() {
    let mut s = supervisor();
    let e1 = start(&mut s, config("p", RestartPolicy::Never, 0), 0, None, 10);
    assert_eq!(e1, 1);
    let r = s.admit_spawn(config("p", RestartPolicy::Never, 0), 0, None, &host());
    assert!(matches!(r, Err(VynkorError::PluginAlreadyRunning(p)) if p == "p"));
    assert_eq!(s.next_epoch, 1);
    let e2 = start(&mut s, config("p", RestartPolicy::Never, 0), 1, Some(e1), 11);
    assert_eq!(e2, 2);
    assert_eq!(s.entries.get(&id("p")).unwrap().pid, 11);
    assert_eq!(s.entries.len(), 1);
}

#[test]
fn admission_names_the_data_directory() {
    let mut s = supervisor();
    let a = s.admit_spawn(config("p", RestartPolicy::Never, 0), 4, None, &host()).ok().unwrap();
    assert_eq!(a.plugin_data.as_deref(), Some("/data/plugins/p"));
    assert_eq!((a.restart_count, a.epoch, a.use_shim), (4, 1, false));
    let p = a.with_data_dir(true);
    assert_eq!(p.writable_paths, vec!["/rw", "/data/plugins/p"]);
    assert_eq!(p.plugin_data_dir.as_deref(), Some("/data/plugins/p"));

    let a = s.admit_spawn(config("q", RestartPolicy::Never, 0), 0, None, &host()).ok().unwrap();
    let p = a.with_data_dir(false);
    assert_eq!(p.writable_paths, vec!["/rw"]);
    assert!(p.plugin_data_dir.is_none());

    let mut bare = PluginSupervisor::new(3, id("/s"), None);
    let a = bare.admit_spawn(config("p", RestartPolicy::Never, 0), 0, None, &host()).ok().unwrap();
    assert!(a.plugin_data.is_none());
}

#[test]
fn plain_launch_plan() {
    let mut s = supervisor();
    let p = prepare(&mut s, config("p", RestartPolicy::Never, 0), 0, None);
    let plan = p.launch_plan("/run/vyn.sock", &host());
    assert_eq!(plan.program, "/opt/echo");
    assert_eq!(plan.args, vec!["-v"]);
    assert_eq!(
        env_pairs(&plan),
        pairs(&[
            ("VYN_SOCKET_PATH", "/run/vyn.sock"),
            ("VYN_DATA_DIR", "/data/plugins/p"),
            ("A", "1=2"),
            ("B", ""),
        ])
    );
    assert_eq!((plan.max_procs, plan.max_vmem_mb), (128, 64));
    assert!(plan.use_scope);
    assert_eq!(plan.pre_exec, PreExec::Limits);
    assert!(!plan.mirror_output);
    assert!(!plan.fs_restriction_unenforced);
}

#[test]
fn sandboxed_launch_plan() {
    let mut s = supervisor();
    let mut c = config("p", RestartPolicy::Never, 0);
    c.sandbox = true;
    c.grace_seconds = 12;
    c.max_fs_access = FsAccessMode::Restricted(id("readonly"));
    c.env = vec![id("VYN_SOCKET_PATH=/mine")];
    let p = prepare(&mut s, c, 0, None);
    assert!(p.use_shim);
    let plan = p.launch_plan("/run/vyn.sock", &host());
    assert_eq!(plan.program, "/usr/bin/vyn");
    assert_eq!(plan.args, vec!["__shim", "/opt/echo", "-v"]);
    assert_eq!(
        env_pairs(&plan),
        pairs(&[
            ("VYN_SHIM_GRACE_SECS", "12"),
            ("VYN_MAX_FS_ACCESS", "readonly"),
            ("VYN_RO_PATHS", "[/ro]"),
            ("VYN_RW_PATHS", "[/rw /data/plugins/p]"),
            ("VYN_SOCKET_PATH", "/run/vyn.sock"),
            ("VYN_DATA_DIR", "/data/plugins/p"),
            ("VYN_SOCKET_PATH", "/mine"),
        ])
    );
    assert_eq!(plan.pre_exec, PreExec::Sandbox);
}

#[test]
fn full_access_announces_no_restriction() {
    let mut s = supervisor();
    let mut c = config("p", RestartPolicy::Never, 0);
    c.sandbox = true;
    let p = prepare(&mut s, c, 0, None);
    let plan = p.launch_plan("/s", &host());
    assert!(!plan.env.iter().any(|(k, _)| k == "VYN_MAX_FS_ACCESS" || k == "VYN_RO_PATHS"));
    assert!(!plan.env.iter().any(|(k, _)| k == "VYN_SHIM_GRACE_SECS"));
}

#[test]
fn host_facts_shape_the_plan() {
    let mut s = supervisor();
    let mut c = config("p", RestartPolicy::Never, 0);
    c.sandbox = true;
    c.max_fs_access = FsAccessMode::Restricted(id("readonly"));
    let mut h = host();
    h.linux = false;
    let p = s.admit_spawn(c.clone(), 0, None, &h).ok().unwrap().with_data_dir(true);
    assert!(!p.use_shim);
    let plan = p.launch_plan("/s", &h);
    assert_eq!(plan.program, "/opt/echo");
    assert_eq!(plan.pre_exec, PreExec::Unlimited);
    assert!(!plan.use_scope);
    assert!(plan.fs_restriction_unenforced);

    let mut h = host();
    h.skip_rlimits = true;
    let p = prepare(&mut s, c.clone(), 0, None);
    let plan = p.launch_plan("/s", &h);
    assert_eq!(plan.pre_exec, PreExec::Unlimited);
    assert!(plan.use_scope && plan.mirror_output);

    let mut h = host();
    h.skip_cgroup = true;
    let plan = p.launch_plan("/s", &h);
    assert!(!plan.use_scope && plan.mirror_output);
    assert_eq!(plan.pre_exec, PreExec::Sandbox);
}

#[test]
fn debug_switches_are_on_at_one_only() {
    assert!(debug_switch(Some(id("1"))));
    assert!(!debug_switch(Some(id("true"))));
    assert!(!debug_switch(Some(id(""))));
    assert!(!debug_switch(None));
}

#[test]
fn pid_lines() {
    let parse = |s: &str| parse_plugin_pid(&Some(id(s)));
    assert_eq!(parse("4711"), Some(4711));
    assert_eq!(parse("  4711\r\n"), Some(4711));
    assert_eq!(parse("+12"), Some(12));
    assert_eq!(parse("0"), None);
    assert_eq!(parse("-3"), None);
    assert_eq!(parse("4294967296"), None);
    assert_eq!(parse("pid 3"), None);
    assert_eq!(parse(""), None);
    assert_eq!(parse_plugin_pid(&None), None);
}

fn sandboxed(s: &mut PluginSupervisor) -> Prepared {
    let mut c = config("box", RestartPolicy::Never, 0);
    c.sandbox = true;
    prepare(s, c, 0, None)
}

#[test]
fn sandboxed_plugin_registers_after_the_handshake() {
    let mut s = supervisor();
    let p = sandboxed(&mut s);
    let report = ChildReport::Shim { reply: ShimReply::Line(Some(id("44\n"))), shim_pid: Some(43) };
    let process = s.finish_spawn(p, Some(id("/cg")), report).unwrap();
    assert_eq!((process.plugin_id.as_str(), process.pid), ("box", 44));
    let e = s.entries.get(&id("box")).unwrap();
    assert_eq!((e.pid, e.shim_pid, e.epoch), (44, Some(43), 1));
}

#[test]
fn shim_that_names_no_process_is_cleared_away() {
    let mut s = supervisor();
    let p = sandboxed(&mut s);
    let report =
        ChildReport::Shim { reply: ShimReply::Line(Some(id("no \"ns\""))), shim_pid: Some(43) };
    let f = s.finish_spawn(p, Some(id("/cg")), report).unwrap_err();
    assert!(f.kill_child && f.orphan.is_none());
    assert_eq!(f.cleanup.as_deref(), Some("/cg"));
    let line: Option<String> = Some(id("no \"ns\""));
    let expected = format!("sandbox shim exited before the plugin started (line: {line:?})");
    assert!(matches!(f.error, VynkorError::Internal(m) if m == expected));
    assert_eq!(s.entries.len(), 0);

    let p = sandboxed(&mut s);
    let report = ChildReport::Shim { reply: ShimReply::Line(None), shim_pid: None };
    let f = s.finish_spawn(p, None, report).unwrap_err();
    assert!(f.kill_child && f.cleanup.is_none());
    assert!(matches!(
        f.error,
        VynkorError::Internal(m)
            if m == "sandbox shim exited before the plugin started (line: None)"
    ));
    assert_eq!(shim_exit_message("X"), "sandbox shim exited before the plugin started (line: X)");
}

#[test]
fn other_failed_spawns() {
    let mut s = supervisor();
    let p = sandboxed(&mut s);
    let report = ChildReport::Shim { reply: ShimReply::TimedOut, shim_pid: Some(1) };
    let f = s.finish_spawn(p, Some(id("/cg")), report).unwrap_err();
    assert!(!f.kill_child && f.cleanup.is_none());
    assert!(matches!(
        f.error,
        VynkorError::Internal(m) if m == "sandbox shim did not report a plugin pid within 15s"
    ));

    let p = sandboxed(&mut s);
    let report = ChildReport::Shim { reply: ShimReply::ReadFailed(id("bad")), shim_pid: Some(1) };
    let f = s.finish_spawn(p, Some(id("/cg")), report).unwrap_err();
    assert!(matches!(f.error, VynkorError::Io(m) if m == "bad"));

    let p = sandboxed(&mut s);
    let report = ChildReport::Shim { reply: ShimReply::Line(Some(id("5"))), shim_pid: None };
    let f = s.finish_spawn(p, Some(id("/cg")), report).unwrap_err();
    assert!(matches!(f.error, VynkorError::Internal(m) if m == "no shim pid"));

    let p = prepare(&mut s, config("p", RestartPolicy::Never, 0), 0, None);
    let f = s.finish_spawn(p, Some(id("/cg")), ChildReport::Direct { pid: None }).unwrap_err();
    assert!(!f.kill_child && f.cleanup.is_none());
    assert!(matches!(f.error, VynkorError::Internal(m) if m == "no pid"));

    let f = launch_failure(Some(id("/cg")), id("EAGAIN"));
    assert!(!f.kill_child);
    assert_eq!(f.cleanup.as_deref(), Some("/cg"));
    assert!(matches!(f.error, VynkorError::Io(m) if m == "EAGAIN"));
    assert_eq!(s.entries.len(), 0);
    assert_eq!(s.next_epoch, 4);
}

#[test]
fn scope_checks() {
    let listed = |t: &str| Some(id(t));
    assert_eq!(check_scope("vyn/p", &listed("0::/user/vyn/p\n")), ScopeCheck::Joined);
    assert_eq!(check_scope("vyn/p", &listed("0::/user/vyn/q\n")), ScopeCheck::NotJoined);
    assert_eq!(check_scope("vyn/p", &listed("")), ScopeCheck::NotJoined);
    assert_eq!(check_scope("vyn/p", &None), ScopeCheck::Gone);
}

#[test]
fn scopes_are_listed_below_the_mount_point() {
    let root = std::path::Path::new("/sys/fs/cgroup");
    for scope in [
        "/sys/fs/cgroup/vyn/p",
        "/sys/fs/cgroup//vyn/p",
        "/sys/fs/cgroup/a/",
        "/sys/fs/cgroup/a/./",
        "/sys/fs/cgroup/./a//b/.",
        "/sys/fs/cgroup/a/..",
        "/sys/fs/cgroup/.hidden/x.",
        "/sys/fs//cgroup/a",
        "//sys/./fs/cgroup/a",
        "/sys/fs/cgroup/",
        "/sys/fs/cgroup/.",
        "/sys/fs/cgroup/..",
        "/sys/fs/../cgroup/a/",
        "./sys/fs/cgroup/a",
        "sys/fs/cgroup/a",
        "/",
        "/run/vyn/p/",
        "/sys/fs/cgroup",
        "/sys/fs/cgroup2/p",
        "/sys/fs",
        "/run/vyn/p",
        "relative/p",
        "",
    ] {
        let path = std::path::Path::new(scope);
        let below = path.strip_prefix(root).unwrap_or(path);
        assert_eq!(expected_scope(scope), below.to_string_lossy());
    }
    assert_eq!(expected_scope("/sys/fs/cgroup/vyn/p"), "vyn/p");
    assert_eq!(expected_scope("/sys/fs/cgroup/a/"), "a");
    assert_eq!(expected_scope("/sys/fs//cgroup/a"), "a");
}

#[test]
fn scope_removal_is_tried_ten_times() {
    let mut attempts = 0u32;
    while retry_cleanup(attempts, true) {
        attempts += 1;
    }
    assert_eq!(attempts, 10);
    assert!(!retry_cleanup(0, false));
}

#[test]
fn exit_status_that_is_lost_is_a_failure() {
    assert!(exit_event(id("p"), 1, 2, Some(true)).success);
    assert!(!exit_event(id("p"), 1, 2, Some(false)).success);
    let e = exit_event(id("p"), 1, 2, None);
    assert!(!e.success);
    assert_eq!((e.plugin_id.as_str(), e.epoch, e.pid), ("p", 1, 2));
}

#[test]
fn policies_decide_on_restarts() {
    let cases = [
        (RestartPolicy::Never, 5, 0, false, false),
        (RestartPolicy::Always, 5, 0, true, true),
        (RestartPolicy::Always, 5, 4, false, true),
        (RestartPolicy::Always, 5, 5, false, false),
        (RestartPolicy::OnFailure, 5, 0, false, true),
        (RestartPolicy::OnFailure, 5, 0, true, false),
        (RestartPolicy::OnFailure, 5, 5, false, false),
        (RestartPolicy::Always, 0, 0, false, false),
    ];
    for (policy, max, count, success, restarts) in cases {
        let mut s = supervisor();
        let epoch = start(&mut s, config("p", policy, max), count, None, 10);
        match s.on_exit(&exit("p", epoch, success)) {
            ExitVerdict::Restart(order) => {
                assert!(restarts);
                assert_eq!((order.prev_count, order.new_count), (count, count + 1));
                assert_eq!(order.epoch, epoch);
                assert_eq!(order.config.args, vec!["-v"]);
            }
            ExitVerdict::Retire { restart_count } => {
                assert!(!restarts);
                assert_eq!(restart_count, count);
            }
            ExitVerdict::Ignored { .. } => panic!("ignored"),
        }
        assert!(s.entries.contains_key(&id("p")));
    }
}

#[test]
fn requested_restart_overrides_the_policy_once() {
    let mut s = supervisor();
    let epoch = start(&mut s, config("p", RestartPolicy::Never, 0), 3, None, 10);
    s.forced_restarts.insert(id("p"), ());
    let order = match s.on_exit(&exit("p", epoch, true)) {
        ExitVerdict::Restart(order) => order,
        _ => panic!("not restarted"),
    };
    assert_eq!(order.new_count, 4);
    assert!(!s.restart_cancelled(&order));
    let next = start(&mut s, order.config, order.new_count, Some(order.epoch), 11);
    assert!(next > epoch);
    assert!(matches!(s.on_exit(&exit("p", next, true)), ExitVerdict::Retire { restart_count: 4 }));
}

#[test]
fn stale_exit_leaves_the_request_pending() {
    let mut s = supervisor();
    let first = start(&mut s, config("p", RestartPolicy::Never, 0), 0, None, 10);
    let second = start(&mut s, config("p", RestartPolicy::Never, 0), 1, Some(first), 11);
    s.forced_restarts.insert(id("p"), ());
    let v = s.on_exit(&exit("p", first, false));
    assert!(matches!(v, ExitVerdict::Ignored { is_current: false, was_stopped: false }));
    assert!(exit_notice(&exit("p", first, false), &v, true, true).is_none());
    assert!(s.forced_restarts.contains_key(&id("p")));
    assert_eq!(s.entries.get(&id("p")).unwrap().epoch, second);
    assert!(matches!(s.on_exit(&exit("p", second, true)), ExitVerdict::Restart(_)));
    assert!(!s.forced_restarts.contains_key(&id("p")));
}

#[test]
fn exit_of_an_unregistered_plugin_uses_up_the_request() {
    let mut s = supervisor();
    s.forced_restarts.insert(id("gone"), ());
    let v = s.on_exit(&exit("gone", 1, false));
    assert!(matches!(v, ExitVerdict::Ignored { is_current: false, was_stopped: false }));
    assert!(!s.forced_restarts.contains_key(&id("gone")));
}

#[test]
fn restart_counts_climb_to_the_limit() {
    let mut s = supervisor();
    let mut epoch = start(&mut s, config("p", RestartPolicy::Always, 3), 0, None, 10);
    let mut counts: Vec<u32> = Vec::new();
    loop {
        match s.on_exit(&exit("p", epoch, false)) {
            ExitVerdict::Restart(order) => {
                epoch = start(&mut s, order.config, order.new_count, Some(order.epoch), 11);
                counts.push(s.entries.get(&id("p")).unwrap().restart_count);
            }
            ExitVerdict::Retire { restart_count } => {
                assert_eq!(restart_count, 3);
                break;
            }
            ExitVerdict::Ignored { .. } => panic!("ignored"),
        }
    }
    assert_eq!(counts, vec![1, 2, 3]);
}

#[test]
fn second_of_two_manual_starts_is_turned_away() {
    let mut s = supervisor();
    let first = prepare(&mut s, config("p", RestartPolicy::Never, 0), 0, None);
    let second = prepare(&mut s, config("p", RestartPolicy::Never, 0), 0, None);
    let up = ChildReport::Direct { pid: Some(20) };
    assert!(s.finish_spawn(second, Some(id("/cg/2")), up).is_ok());
    let late = ChildReport::Direct { pid: Some(10) };
    let f = s.finish_spawn(first, Some(id("/cg/1")), late).unwrap_err();
    assert!(f.kill_child);
    assert_eq!((f.cleanup.as_deref(), f.orphan), (Some("/cg/1"), None));
    assert!(matches!(f.error, VynkorError::PluginAlreadyRunning(p) if p == "p"));
    let entry = s.entries.get(&id("p")).unwrap();
    assert_eq!((entry.pid, entry.epoch), (20, 2));
}

#[test]
fn sandboxed_late_comer_leaves_its_plugin_to_be_killed() {
    let mut s = supervisor();
    let first = sandboxed(&mut s);
    let second = sandboxed(&mut s);
    let named = |pid: &str, shim| ChildReport::Shim {
        reply: ShimReply::Line(Some(id(pid))),
        shim_pid: Some(shim),
    };
    assert!(s.finish_spawn(first, None, named("44", 43)).is_ok());
    let f = s.finish_spawn(second, None, named("54", 53)).unwrap_err();
    assert!(f.kill_child && f.cleanup.is_none());
    assert_eq!(f.orphan, Some(54));
    assert!(matches!(f.error, VynkorError::PluginAlreadyRunning(p) if p == "box"));
    assert_eq!(s.entries.get(&id("box")).unwrap().pid, 44);
}

#[test]
fn restart_replaces_the_instance_that_exited_only() {
    let mut s = supervisor();
    let first = start(&mut s, config("p", RestartPolicy::Always, 9), 0, None, 10);
    let late = prepare(&mut s, config("p", RestartPolicy::Always, 9), 1, Some(first));
    // the plugin is given up and started by hand while the restart is under way
    s.retire(&id("p"));
    let by_hand = start(&mut s, config("p", RestartPolicy::Always, 9), 0, None, 20);
    let f = s.finish_spawn(late, None, ChildReport::Direct { pid: Some(30) }).unwrap_err();
    assert!(f.kill_child);
    assert!(matches!(f.error, VynkorError::PluginAlreadyRunning(_)));
    assert_eq!(s.entries.get(&id("p")).unwrap().epoch, by_hand);

    // with no instance left there is nothing to replace
    let late = prepare(&mut s, config("p", RestartPolicy::Always, 9), 1, Some(by_hand));
    s.retire(&id("p"));
    assert!(s.finish_spawn(late, None, ChildReport::Direct { pid: Some(30) }).is_ok());
    assert_eq!(s.entries.get(&id("p")).unwrap().pid, 30);
}

#[test]
fn stop_is_final() {
    let mut s = supervisor();
    let epoch = start(&mut s, config("p", RestartPolicy::Always, 9), 0, None, 10);
    s.stopped_epochs.insert(id("p"), epoch);
    s.forced_restarts.insert(id("p"), ());
    let v = s.on_exit(&exit("p", epoch, false));
    assert!(matches!(v, ExitVerdict::Ignored { is_current: true, was_stopped: true }));
}

#[test]
fn stop_during_backoff_cancels_the_restart() {
    let mut s = supervisor();
    let older = start(&mut s, config("p", RestartPolicy::Always, 9), 0, None, 9);
    let epoch = start(&mut s, config("p", RestartPolicy::Always, 9), 0, Some(older), 10);
    let order = match s.on_exit(&exit("p", epoch, false)) {
        ExitVerdict::Restart(order) => order,
        _ => panic!("not restarted"),
    };
    assert!(!s.restart_cancelled(&order));
    s.stopped_epochs.insert(id("p"), older);
    assert!(!s.restart_cancelled(&order));
    s.stopped_epochs.insert(id("p"), epoch);
    assert!(s.restart_cancelled(&order));
}

#[test]
fn older_stop_does_not_touch_a_newer_instance() {
    let mut s = supervisor();
    let first = start(&mut s, config("p", RestartPolicy::Always, 9), 0, None, 10);
    s.stopped_epochs.insert(id("p"), first);
    let second = start(&mut s, config("p", RestartPolicy::Always, 9), 0, Some(first), 11);
    assert!(matches!(s.on_exit(&exit("p", second, false)), ExitVerdict::Restart(_)));
}

#[test]
fn retired_plugin_keeps_its_count_and_can_start_again() {
    let mut s = supervisor();
    let _ = start(&mut s, config("p", RestartPolicy::Never, 0), 6, None, 10);
    s.retire(&id("p"));
    assert!(!s.entries.contains_key(&id("p")));
    assert_eq!(s.stopped_counts.get(&id("p")), Some(&6));
    assert!(s.admit_spawn(config("p", RestartPolicy::Never, 0), 0, None, &host()).is_ok());
    s.retire(&id("ghost"));
    assert_eq!(s.stopped_counts.get(&id("ghost")), Some(&0));
}

#[test]
fn retirement_spares_a_newer_instance() {
    let mut s = supervisor();
    let first = start(&mut s, config("p", RestartPolicy::Never, 0), 2, None, 10);
    let event = exit("p", first, false);
    assert!(matches!(s.on_exit(&event), ExitVerdict::Retire { restart_count: 2 }));
    // stopped and started by hand while the exit is being announced
    assert!(s.entries.remove(&id("p")).is_some());
    s.retire_exited(&event);
    assert!(s.stopped_counts.get(&id("p")).is_none());
    let second = start(&mut s, config("p", RestartPolicy::Never, 0), 0, None, 11);
    s.retire_exited(&event);
    assert_eq!(s.entries.get(&id("p")).unwrap().epoch, second);
    assert!(s.stopped_counts.get(&id("p")).is_none());
    s.retire_exited(&exit("p", second, true));
    assert!(!s.entries.contains_key(&id("p")));
    assert_eq!(s.stopped_counts.get(&id("p")), Some(&0));
}

#[test]
fn death_notices() {
    let e = death_notice("p", 12, true);
    assert_eq!(e.event_id, "sys-died-p-12");
    assert_eq!(e.event_type, "system.plugin_died");
    assert_eq!(
        String::from_utf8(e.payload_json).unwrap(),
        r#"{"plugin_id":"p","restart_count":12,"will_restart":true}"#
    );
    assert_eq!(e.retry_count, 0);

    let mut s = supervisor();
    let epoch = start(&mut s, config("caf\u{e9}", RestartPolicy::Always, 9), 2, None, 10);
    let event = exit("caf\u{e9}", epoch, false);
    let v = s.on_exit(&event);
    let n = exit_notice(&event, &v, true, true).unwrap();
    assert_eq!(
        n.payload_json,
        "{\"plugin_id\":\"caf\u{e9}\",\"restart_count\":2,\"will_restart\":true}".as_bytes()
    );
    assert!(exit_notice(&event, &v, false, true).is_none());
    assert!(exit_notice(&event, &v, true, false).is_none());
    let n = exit_notice(&event, &ExitVerdict::Retire { restart_count: 2 }, true, true).unwrap();
    assert_eq!(n.event_id, "sys-died-caf\u{e9}-2");
    assert!(String::from_utf8(n.payload_json).unwrap().ends_with("\"will_restart\":false}"));
}

#[test]
fn logs_keep_the_latest_lines() {
    let mut b = LogBuffer::new(2);
    for l in ["a", "b", "c"] {
        b.push(id(l));
    }
    assert_eq!(b.lines(), vec!["b", "c"]);
    let mut none = LogBuffer::new(0);
    none.push(id("a"));
    none.push(id("b"));
    assert_eq!(none.lines(), vec!["b"]);
    let mut wide = LogBuffer::new(usize::MAX);
    wide.push(id("a"));
    assert_eq!(wide.lines(), vec!["a"]);
}

#[test]
fn each_instance_has_its_own_log() {
    let mut s = supervisor();
    let first = start(&mut s, config("p", RestartPolicy::Always, 9), 0, None, 10);
    for l in ["1", "2", "3", "4"] {
        s.append_log(&id("p"), first, id(l));
    }
    assert_eq!(s.log_buffers.get(&id("p")).unwrap().buffer.lines(), vec!["2", "3", "4"]);
    let second = start(&mut s, config("p", RestartPolicy::Always, 9), 1, Some(first), 11);
    s.append_log(&id("p"), first, id("late"));
    s.append_log(&id("p"), second, id("new"));
    s.append_log(&id("q"), second, id("lost"));
    assert_eq!(s.log_buffers.get(&id("p")).unwrap().buffer.lines(), vec!["new"]);
    assert!(s.log_buffers.get(&id("q")).is_none());
}

#[test]
fn spawn_that_is_turned_away_leaves_the_log() {
    let mut s = supervisor();
    let late = prepare(&mut s, config("p", RestartPolicy::Never, 0), 0, None);
    let late_epoch = late.epoch;
    let live = start(&mut s, config("p", RestartPolicy::Never, 0), 0, None, 11);
    s.append_log(&id("p"), live, id("one"));
    s.open_log(&late);
    s.append_log(&id("p"), late_epoch, id("stray"));
    s.append_log(&id("p"), live, id("two"));
    assert!(s.finish_spawn(late, None, ChildReport::Direct { pid: Some(12) }).is_err());
    assert_eq!(s.log_buffers.get(&id("p")).unwrap().buffer.lines(), vec!["one", "two"]);
}

#[test]
fn registered_instance_has_its_own_log() {
    let mut s = supervisor();
    let first = prepare(&mut s, config("p", RestartPolicy::Never, 0), 0, None);
    let second = prepare(&mut s, config("p", RestartPolicy::Never, 0), 0, None);
    let epoch = first.epoch;
    s.open_log(&first);
    s.open_log(&second);
    assert!(s.finish_spawn(first, None, ChildReport::Direct { pid: Some(10) }).is_ok());
    assert!(s.finish_spawn(second, None, ChildReport::Direct { pid: Some(11) }).is_err());
    s.append_log(&id("p"), epoch, id("line"));
    assert_eq!(s.log_buffers.get(&id("p")).unwrap().buffer.lines(), vec!["line"]);
}

#[test]
fn supervised_lists_every_entry() {
    let mut s = supervisor();
    let _ = start(&mut s, config("a", RestartPolicy::Never, 0), 0, None, 1);
    let _ = start(&mut s, config("b", RestartPolicy::Never, 0), 0, None, 2);
    let mut seen: Vec<(String, u32, Option<u32>)> =
        s.supervised().into_iter().map(|p| (p.plugin_id, p.pid, p.shim_pid)).collect();
    seen.sort();
    assert_eq!(seen, vec![(id("a"), 1, None), (id("b"), 2, None)]);
}

#[test]
fn watchdog_kills_silence_only() {
    let p = SupervisedPlugin { plugin_id: id("p"), pid: 50, shim_pid: None };
    assert_eq!(watchdog_action(&p, Some(101), 100, true), WatchdogAction::Kill(50));
    assert_eq!(watchdog_action(&p, Some(500), 100, false), WatchdogAction::Kill(50));
    assert_eq!(watchdog_action(&p, Some(100), 100, true), WatchdogAction::Ping);
    assert_eq!(watchdog_action(&p, None, 100, true), WatchdogAction::Ping);
    assert_eq!(watchdog_action(&p, None, 100, false), WatchdogAction::Skip);
    let boxed = SupervisedPlugin { plugin_id: id("p"), pid: 50, shim_pid: Some(49) };
    assert_eq!(watchdog_action(&boxed, Some(101), 100, true), WatchdogAction::Kill(49));
}

#[test]
fn pings_go_to_the_client() {
    let frame = ping_frame(1_700_000_000_123);
    assert_eq!((frame.target, frame.flags, frame.timestamp), ("client", 0, 1_700_000_000_123));
    assert!(ping_dropped(true, false));
    assert!(!ping_dropped(true, true));
    assert!(!ping_dropped(false, false));
}

#[test]
fn time_limits() {
    assert_eq!((SHIM_DEADLINE_SECS, CLEANUP_PAUSE_MILLIS), (15, 50));
}

#[test]
fn watchdog_numbers() {
    assert_eq!(deadline_nanos(30_000_000_000, 5_000_000_000), 35_000_000_000);
    let widest = std::time::Duration::MAX.as_nanos();
    assert_eq!(vynkor::plugins::supervisor::watchdog::MAX_SPAN_NANOS, widest);
    for pid in [1u32, 2_147_483_647, 2_147_483_648, u32::MAX] {
        assert_eq!(to_signed_pid(pid), pid as i32);
    }
    assert_eq!(orphan_pid(9, Some(8)), Some(9));
    assert_eq!(orphan_pid(9, None), None);
    assert_eq!(ping_timestamp(Some(1_700_000_000_123)), 1_700_000_000_123);
    assert_eq!(ping_timestamp(Some(u128::MAX)), u64::MAX);
    assert_eq!(ping_timestamp(Some(1u128 << 64)), 0);
    assert_eq!(ping_timestamp(None), 0);
}
