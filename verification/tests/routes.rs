use axum::http::StatusCode;
use vynkor::api::routes::{
    get_plugin, get_plugin_logs, health_check, list_devices, list_plugins, restart_plugin,
    restart_plugin_finished, start_plugin, start_plugin_finished, start_plugin_validated,
    stop_plugin, stop_plugin_finished, ApiError, AppState, DeviceRecord, LogsQuery, PluginDef,
    PluginManager, RegisteredPlugin,
};
use vynkor::plugins::errors::VynkorError;

fn id(s: &str) -> String {
    s.to_string()
}

fn plugin(name: &str, device: &str) -> RegisteredPlugin {
    RegisteredPlugin {
        plugin_id: id(name),
        state: id("running"),
        registered_at: 11,
        permissions: vec![id("network"), id("storage")],
        device_id: id(device),
    }
}

fn state() -> AppState {
    let mut manager = PluginManager::new();
    manager.add_plugin(plugin("echo", "local"));
    manager.add_plugin(plugin("cam", "dev-1"));
    manager.add_device(DeviceRecord {
        device_id: id("dev-1"),
        os: 4,
        arch: id("aarch64"),
        os_version: id("14"),
        capabilities: vec![id("battery")],
        last_seen: 77,
        state: 3,
        created: 5,
        expires: 6,
    });
    manager.add_supervised(id("echo"));
    manager.add_supervised(id("booting"));
    AppState {
        manager,
        plugin_defs: vec![
            PluginDef { id: id("echo") },
            PluginDef { id: id("mail") },
            PluginDef { id: id("mail") },
        ],
        started_at: 7_000_000_000,
    }
}

fn refused(e: (u16, ApiError), status: u16, message: &str) {
    assert_eq!(e.0, status);
    assert_eq!(e.1.code, status);
    assert_eq!(e.1.message, message);
    assert!(!e.1.retryable);
    assert!(StatusCode::from_u16(e.0).unwrap().is_client_error());
}

#[test]
fn refusals_carry_their_status() {
    refused(ApiError::not_found("a"), 404, "a");
    refused(ApiError::conflict("b"), 409, "b");
    refused(ApiError::unprocessable("c"), 422, "c");
    refused(ApiError::forbidden("d"), 403, "d");
}

#[test]
fn health_counts_the_plugins() {
    let h = health_check(&state(), "0.1.0", 49_999_999_999);
    assert_eq!((h.status, h.version, h.uptime_secs, h.plugins), ("ok", "0.1.0", 42, 2));
    assert_eq!(health_check(&state(), "0.1.0", 7_000_000_000).uptime_secs, 0);
    assert_eq!(health_check(&state(), "0.1.0", 0).uptime_secs, 0);
    let longest = 7_000_000_000 + std::time::Duration::MAX.as_nanos();
    assert_eq!(health_check(&state(), "0.1.0", longest).uptime_secs, u64::MAX);
}

#[test]
fn plugins_are_listed_with_their_device_time() {
    let infos = list_plugins(&state());
    assert_eq!(infos.len(), 2);
    assert_eq!(infos[0].plugin_id, "echo");
    assert_eq!(infos[0].last_seen, 0);
    assert_eq!(infos[1].plugin_id, "cam");
    assert_eq!(infos[1].last_seen, 77);
    assert_eq!(infos[1].permissions, vec!["network", "storage"]);
    assert_eq!(infos[1].state, "running");
    assert_eq!(infos[1].registered_at, 11);
    assert_eq!(infos[1].device_id, "dev-1");
}

#[test]
fn listings_keep_the_recorded_order() {
    let mut s = state();
    s.manager.add_plugin(plugin("aaa", "local"));
    s.manager.add_plugin(plugin("echo", "local"));
    let names: Vec<String> = list_plugins(&s).into_iter().map(|p| p.plugin_id).collect();
    assert_eq!(names, vec!["cam", "aaa", "echo"]);
}

#[test]
fn single_plugin_agrees_with_the_list() {
    let s = state();
    for info in list_plugins(&s) {
        let one = get_plugin(&s, &info.plugin_id).unwrap();
        assert_eq!(format!("{:?}", one), format!("{:?}", info));
    }
    refused(get_plugin(&s, &id("nope")).unwrap_err(), 404, "plugin 'nope' is not registered");
}

#[test]
fn devices_are_shown_by_name() {
    let views = list_devices(&state());
    assert_eq!(views.len(), 1);
    let v = &views[0];
    assert_eq!((v.device_id.as_str(), v.os.as_str(), v.state.as_str()), ("dev-1", "android", "revoked"));
    assert_eq!((v.arch.as_str(), v.os_version.as_str()), ("aarch64", "14"));
    assert_eq!((v.last_seen, v.created, v.expires), (77, 5, 6));
    assert_eq!(v.capabilities, vec!["battery"]);
}

#[test]
fn start_takes_declared_plugins_only() {
    let s = state();
    assert_eq!(start_plugin(&s, &id("mail")).unwrap(), 1);
    refused(start_plugin(&s, &id("echo")).unwrap_err(), 409, "plugin 'echo' is already running");
    refused(
        start_plugin(&s, &id("booting")).unwrap_err(),
        409,
        "plugin 'booting' is already running",
    );
    refused(
        start_plugin(&s, &id("cam")).unwrap_err(),
        404,
        "plugin 'cam' is not declared in config",
    );
}

#[test]
fn start_answers_by_outcome() {
    assert!(start_plugin_validated(&Ok(())).is_ok());
    refused(
        start_plugin_validated(&Err(VynkorError::PermissionDenied(id("x")))).unwrap_err(),
        403,
        "plugin requests a permission not granted by config",
    );
    refused(
        start_plugin_validated(&Err(VynkorError::Internal(id("x")))).unwrap_err(),
        422,
        "plugin definition failed validation",
    );
    assert_eq!(start_plugin_finished(&id("mail"), &Ok(())).unwrap(), 200);
    refused(
        start_plugin_finished(&id("mail"), &Err(VynkorError::Io(id("x")))).unwrap_err(),
        422,
        "failed to start plugin 'mail'",
    );
}

#[test]
fn stop_answers_by_outcome() {
    let s = state();
    assert!(stop_plugin(&s, &id("cam")).is_ok());
    refused(stop_plugin(&s, &id("booting")).unwrap_err(), 404, "plugin 'booting' is not registered");
    assert_eq!(stop_plugin_finished(&id("cam"), &Ok(())).unwrap(), 200);
    refused(
        stop_plugin_finished(&id("cam"), &Err(VynkorError::PluginNotFound(id("cam")))).unwrap_err(),
        404,
        "plugin 'cam' exited before stop completed",
    );
    refused(
        stop_plugin_finished(&id("cam"), &Err(VynkorError::Io(id("x")))).unwrap_err(),
        422,
        "failed to stop plugin 'cam'",
    );
}

#[test]
fn restart_answers_by_outcome() {
    let s = state();
    assert!(restart_plugin(&s, &id("echo")).is_ok());
    refused(restart_plugin(&s, &id("x")).unwrap_err(), 404, "plugin 'x' is not registered");
    assert_eq!(restart_plugin_finished(&id("echo"), &Ok(())).unwrap(), 202);
    refused(
        restart_plugin_finished(&id("echo"), &Err(VynkorError::PluginNotFound(id("echo"))))
            .unwrap_err(),
        422,
        "failed to restart plugin 'echo'",
    );
}

#[test]
fn log_requests_are_bounded() {
    let s = state();
    let ask = |name: &str, lines| get_plugin_logs(&s, &id(name), &LogsQuery { lines });
    assert_eq!(ask("cam", None).unwrap(), 100);
    assert_eq!(ask("booting", Some(7)).unwrap(), 7);
    assert_eq!(ask("echo", Some(0)).unwrap(), 0);
    assert_eq!(ask("echo", Some(10_000)).unwrap(), 10_000);
    assert_eq!(ask("echo", Some(10_001)).unwrap(), 10_000);
    assert_eq!(ask("echo", Some(usize::MAX)).unwrap(), 10_000);
    refused(ask("x", None).unwrap_err(), 404, "plugin 'x' is not registered");
}
