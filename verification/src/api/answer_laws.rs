//! What the REST routes answer, said of every call of them.
//!
//! `call_ensures(f, args, r)` is a call of `f` on `args` that returned `r`; a manager that a
//! call changes is `old(m)` before it and `final(m)` after it.
use crate::api::display::{device_os_str, device_state_str};
use crate::api::routes::{
    get_plugin, get_plugin_logs, health_check, list_devices, list_plugins, restart_plugin,
    restart_plugin_finished, start_plugin, start_plugin_finished, start_plugin_validated,
    stop_plugin, stop_plugin_finished, ApiError, AppState, DeviceInfoView, DeviceRecord, Health,
    LogsQuery, PluginInfo, PluginManager, RegisteredPlugin,
};
use crate::plugins::errors::VynkorError;
use crate::proto::{DeviceOs, DeviceState};
use vstd::prelude::*;

verus! {

/// The answer is an error with this status, in its head and in its body, and this message;
/// it is not worth repeating the request.
pub open spec fn refuses(answer: (u16, ApiError), status: u16, message: Seq<char>) -> bool {
    &&& answer.0 == status
    &&& answer.1.code == status
    &&& answer.1.message@ == message
    &&& !answer.1.retryable
}

/// Every request is answered, whatever it names.
pub proof fn law_every_request_is_answered(state: &AppState, id: &String, q: &LogsQuery)
    requires
        state.manager.wf(),
    ensures
        call_requires(list_plugins, (state,)),
        call_requires(list_devices, (state,)),
        call_requires(get_plugin, (state, id)),
        call_requires(start_plugin, (state, id)),
        call_requires(stop_plugin, (state, id)),
        call_requires(restart_plugin, (state, id)),
        call_requires(get_plugin_logs, (state, id, q)),
{
}

/// Each kind of refusal has its status and the message that it was given.
pub proof fn law_refusals_have_their_status(
    message: &str,
    not_found: (u16, ApiError),
    conflict: (u16, ApiError),
    unprocessable: (u16, ApiError),
    forbidden: (u16, ApiError),
)
    requires
        call_ensures(ApiError::not_found, (message,), not_found),
        call_ensures(ApiError::conflict, (message,), conflict),
        call_ensures(ApiError::unprocessable, (message,), unprocessable),
        call_ensures(ApiError::forbidden, (message,), forbidden),
    ensures
        refuses(not_found, 404, message@),
        refuses(conflict, 409, message@),
        refuses(unprocessable, 422, message@),
        refuses(forbidden, 403, message@),
{
}

/// The health report says `ok`, the version that it was given, the whole seconds since the
/// start, and how many plugins are registered.
pub proof fn law_health_report_counts_seconds_and_plugins(
    state: &AppState,
    version: &'static str,
    now: u128,
    health: Health,
)
    requires
        call_ensures(health_check, (state, version, now), health),
    ensures
        health.status@ == "ok"@,
        health.version@ == version@,
        health.plugins == state.manager.plugins@.len(),
        now <= state.started_at ==> health.uptime_secs == 0,
        now > state.started_at ==> {
            let nanos = now - state.started_at;
            health.uptime_secs * 1_000_000_000 <= nanos < (health.uptime_secs + 1) * 1_000_000_000
        },
{
}

/// The plugin as clients are to see it: its own data, and the last sign of life of its
/// device, 0 where that is not known.
pub open spec fn seen_as(
    manager: PluginManager,
    plugin: RegisteredPlugin,
    info: PluginInfo,
) -> bool {
    &&& info.plugin_id@ == plugin.plugin_id@
    &&& info.state@ == plugin.state@
    &&& info.registered_at == plugin.registered_at
    &&& info.permissions.len() == plugin.permissions.len()
    &&& forall|i: int|
        0 <= i < plugin.permissions.len() ==> (#[trigger] info.permissions@[i])@
            == plugin.permissions@[i]@
    &&& info.device_id@ == plugin.device_id@
    &&& manager.devices@.contains_key(plugin.device_id@) ==> info.last_seen
        == manager.devices@[plugin.device_id@].last_seen
    &&& !manager.devices@.contains_key(plugin.device_id@) ==> info.last_seen == 0
}

/// A list of texts is the same list when its texts are.
proof fn lemma_same_texts(a: Vec<String>, b: Vec<String>)
    requires
        a.deep_view() == b.deep_view(),
    ensures
        a.len() == b.len(),
        forall|i: int| 0 <= i < b.len() ==> (#[trigger] a@[i])@ == b@[i]@,
{
    assert(a.deep_view().len() == a.len());
    assert(b.deep_view().len() == b.len());
    assert forall|i: int| 0 <= i < b.len() implies (#[trigger] a@[i])@ == b@[i]@ by {
        assert(a.deep_view()[i] == a@[i]@);
        assert(b.deep_view()[i] == b@[i]@);
    }
}

/// A plugin is shown, with all that clients are to see of it, exactly where it is
/// registered; any other is answered with 404.
pub proof fn law_registered_plugin_is_shown(
    state: &AppState,
    id: &String,
    r: Result<PluginInfo, (u16, ApiError)>,
)
    requires
        call_ensures(get_plugin, (state, id), r),
    ensures
        r is Ok <==> state.manager.plugins@.contains_key(id@),
        r matches Ok(info) ==> seen_as(state.manager, state.manager.plugins@[id@], info),
        r matches Err(e) ==> refuses(e, 404, "plugin '"@ + id@ + "' is not registered"@),
{
    if let Ok(info) = r {
        lemma_same_texts(info.permissions, state.manager.plugins@[id@].permissions);
    }
}

/// The list shows every registered plugin, each once, in the order of the registry, with all
/// that clients are to see of it.
pub proof fn law_every_registered_plugin_is_listed(
    state: &AppState,
    infos: Vec<PluginInfo>,
    id: Seq<char>,
)
    requires
        call_ensures(list_plugins, (state,), infos),
        state.manager.wf(),
    ensures
        infos.len() == state.manager.plugins@.len(),
        infos.len() == state.manager.plugins.order().len(),
        forall|i: int|
            0 <= i < infos.len() ==> {
                let key = state.manager.plugins.order()[i];
                &&& state.manager.plugins@.contains_key(key)
                &&& seen_as(state.manager, state.manager.plugins@[key], #[trigger] infos@[i])
            },
        state.manager.plugins@.contains_key(id) <==> exists|i: int|
            0 <= i < infos.len() && #[trigger] state.manager.plugins.order()[i] == id,
{
    let order = state.manager.plugins.order();
    state.manager.plugins.lemma_order();
    assert forall|i: int| 0 <= i < infos.len() implies {
        let key = order[i];
        &&& state.manager.plugins@.contains_key(key)
        &&& seen_as(state.manager, state.manager.plugins@[key], #[trigger] infos@[i])
    } by {
        assert(state.manager.plugins@.contains_key(order[i]));
        lemma_same_texts(infos@[i].permissions, state.manager.plugins@[order[i]].permissions);
    }
    if state.manager.plugins@.contains_key(id) {
        assert(order.contains(id));
        let i = choose|i: int| 0 <= i < order.len() && order[i] == id;
        assert(order[i] == id);
    }
}

/// A plugin is shown alone as it is shown in the list.
pub proof fn law_plugin_looks_the_same_alone_and_listed(
    state: &AppState,
    id: &String,
    alone: PluginInfo,
    infos: Vec<PluginInfo>,
    i: int,
)
    requires
        state.manager.wf(),
        call_ensures(get_plugin, (state, id), Ok(alone)),
        call_ensures(list_plugins, (state,), infos),
        0 <= i < infos.len(),
        infos@[i].plugin_id@ == id@,
    ensures
        infos@[i].state@ == alone.state@,
        infos@[i].registered_at == alone.registered_at,
        infos@[i].permissions.deep_view() == alone.permissions.deep_view(),
        infos@[i].device_id@ == alone.device_id@,
        infos@[i].last_seen == alone.last_seen,
{
    state.manager.plugins.lemma_order();
    let key = state.manager.plugins.order()[i];
    assert(state.manager.plugins@.contains_key(key));
    assert(infos@[i].plugin_id@ == state.manager.plugins@[key].plugin_id@);
}

/// The list shows every known device, in the order of the registry, with its own data; the
/// operating system and the state are shown as `device_os_str` and `device_state_str` show
/// them.
pub proof fn law_every_known_device_is_listed(
    state: &AppState,
    views: Vec<DeviceInfoView>,
    i: int,
    os: &'static str,
    device_state: &'static str,
)
    requires
        call_ensures(list_devices, (state,), views),
        state.manager.wf(),
        0 <= i < views.len(),
        call_ensures(
            device_os_str,
            (state.manager.devices@[state.manager.devices.order()[i]].os,),
            os,
        ),
        call_ensures(
            device_state_str,
            (state.manager.devices@[state.manager.devices.order()[i]].state,),
            device_state,
        ),
    ensures
        views.len() == state.manager.devices@.len(),
        views.len() == state.manager.devices.order().len(),
        state.manager.devices@.contains_key(state.manager.devices.order()[i]),
        ({
            let device = state.manager.devices@[state.manager.devices.order()[i]];
            let view = views@[i];
            &&& view.device_id@ == device.device_id@
            &&& view.os@ == os@
            &&& view.arch@ == device.arch@
            &&& view.os_version@ == device.os_version@
            &&& view.capabilities.len() == device.capabilities.len()
            &&& forall|j: int|
                0 <= j < device.capabilities.len() ==> (#[trigger] view.capabilities@[j])@
                    == device.capabilities@[j]@
            &&& view.last_seen == device.last_seen
            &&& view.state@ == device_state@
            &&& view.created == device.created
            &&& view.expires == device.expires
        }),
{
    state.manager.devices.lemma_order();
    let key = state.manager.devices.order()[i];
    assert(state.manager.devices@.contains_key(key));
    let device = state.manager.devices@[key];
    lemma_same_texts(views@[i].capabilities, device.capabilities);
    lemma_os_is_shown_one_way(device.os, views@[i].os@, os@);
    lemma_state_is_shown_one_way(device.state, views@[i].state@, device_state@);
}

/// An operating system number is shown as one text only.
proof fn lemma_os_is_shown_one_way(number: i32, a: Seq<char>, b: Seq<char>)
    requires
        crate::api::display::shows_os(number, a),
        crate::api::display::shows_os(number, b),
    ensures
        a == b,
{
    if exists|known: DeviceOs| #[trigger] known.number() == number {
        let known = choose|known: DeviceOs| #[trigger] known.number() == number;
        assert(known.number() == number);
    }
}

/// A device state number is shown as one text only.
proof fn lemma_state_is_shown_one_way(number: i32, a: Seq<char>, b: Seq<char>)
    requires
        crate::api::display::shows_state(number, a),
        crate::api::display::shows_state(number, b),
    ensures
        a == b,
{
    if exists|known: DeviceState| #[trigger] known.number() == number {
        let known = choose|known: DeviceState| #[trigger] known.number() == number;
        assert(known.number() == number);
    }
}

/// Each operating system is shown by its name, and every other number as `unspecified`.
pub proof fn law_operating_system_is_shown_by_its_name(
    number: i32,
    read: Option<DeviceOs>,
    text: &'static str,
)
    requires
        call_ensures(device_os_str, (number,), text),
        call_ensures(DeviceOs::from_wire, (number,), read),
    ensures
        read == Some(DeviceOs::Linux) ==> text@ == "linux"@,
        read == Some(DeviceOs::Macos) ==> text@ == "macos"@,
        read == Some(DeviceOs::Windows) ==> text@ == "windows"@,
        read == Some(DeviceOs::Android) ==> text@ == "android"@,
        read == Some(DeviceOs::Ios) ==> text@ == "ios"@,
        read == Some(DeviceOs::Freebsd) ==> text@ == "freebsd"@,
        read is None || read == Some(DeviceOs::Unspecified) ==> text@ == "unspecified"@,
{
    if let Some(os) = read {
        assert(os.number() == number);
    }
}

/// Each state is shown by its name, and every other number as `unspecified`.
pub proof fn law_state_is_shown_by_its_name(
    number: i32,
    read: Option<DeviceState>,
    text: &'static str,
)
    requires
        call_ensures(device_state_str, (number,), text),
        call_ensures(DeviceState::from_wire, (number,), read),
    ensures
        read == Some(DeviceState::Online) ==> text@ == "online"@,
        read == Some(DeviceState::Offline) ==> text@ == "offline"@,
        read == Some(DeviceState::Revoked) ==> text@ == "revoked"@,
        read is None || read == Some(DeviceState::Unspecified) ==> text@ == "unspecified"@,
{
    if let Some(state) = read {
        assert(state.number() == number);
    }
}

/// Every number within the range of the wire values is read, each as a value of its own, and
/// no other is.
pub proof fn law_wire_numbers_are_read_one_to_one(
    a: i32,
    b: i32,
    os_a: Option<DeviceOs>,
    os_b: Option<DeviceOs>,
    state_a: Option<DeviceState>,
    state_b: Option<DeviceState>,
)
    requires
        call_ensures(DeviceOs::from_wire, (a,), os_a),
        call_ensures(DeviceOs::from_wire, (b,), os_b),
        call_ensures(DeviceState::from_wire, (a,), state_a),
        call_ensures(DeviceState::from_wire, (b,), state_b),
    ensures
        os_a is Some <==> 0 <= a <= 6,
        state_a is Some <==> 0 <= a <= 3,
        os_a is Some && os_a == os_b ==> a == b,
        state_a is Some && state_a == state_b ==> a == b,
        a == 0 ==> os_a == Some(DeviceOs::Unspecified) && state_a == Some(
            DeviceState::Unspecified,
        ),
        a == 1 ==> os_a == Some(DeviceOs::Linux) && state_a == Some(DeviceState::Online),
        a == 2 ==> os_a == Some(DeviceOs::Macos) && state_a == Some(DeviceState::Offline),
        a == 3 ==> os_a == Some(DeviceOs::Windows) && state_a == Some(DeviceState::Revoked),
        a == 4 ==> os_a == Some(DeviceOs::Android),
        a == 5 ==> os_a == Some(DeviceOs::Ios),
        a == 6 ==> os_a == Some(DeviceOs::Freebsd),
{
    assert(DeviceOs::Unspecified.number() == 0);
    assert(DeviceOs::Linux.number() == 1);
    assert(DeviceOs::Macos.number() == 2);
    assert(DeviceOs::Windows.number() == 3);
    assert(DeviceOs::Android.number() == 4);
    assert(DeviceOs::Ios.number() == 5);
    assert(DeviceOs::Freebsd.number() == 6);
    assert(DeviceState::Unspecified.number() == 0);
    assert(DeviceState::Online.number() == 1);
    assert(DeviceState::Offline.number() == 2);
    assert(DeviceState::Revoked.number() == 3);
}

/// A start takes the first declaration whose identifier is exactly the one asked for.
pub proof fn law_start_takes_the_declaration_asked_for(state: &AppState, id: &String, i: usize)
    requires
        call_ensures(start_plugin, (state, id), Ok(i)),
    ensures
        i < state.plugin_defs.len(),
        state.plugin_defs@[i as int].id@ == id@,
        forall|j: int| 0 <= j < i ==> (#[trigger] state.plugin_defs@[j]).id@ != id@,
        !state.manager.supervised@.contains_key(id@),
{
    assert(forall|j: int|
        0 <= j < state.plugin_defs.len() ==> state.plugin_defs[j] == #[trigger] state.plugin_defs@[j]);
}

/// A plugin that has a process already is answered with 409, whether it is declared or not.
/// Any other is answered with 404 where no declaration has exactly its identifier, and goes
/// on where one has.
pub proof fn law_start_is_refused_exactly_where_running_or_undeclared(
    state: &AppState,
    id: &String,
    r: Result<usize, (u16, ApiError)>,
)
    requires
        call_ensures(start_plugin, (state, id), r),
    ensures
        state.manager.supervised@.contains_key(id@) ==> r is Err && refuses(
            r->Err_0,
            409,
            "plugin '"@ + id@ + "' is already running"@,
        ),
        !state.manager.supervised@.contains_key(id@) && (forall|i: int|
            0 <= i < state.plugin_defs.len() ==> (#[trigger] state.plugin_defs@[i]).id@ != id@)
            ==> r is Err && refuses(
            r->Err_0,
            404,
            "plugin '"@ + id@ + "' is not declared in config"@,
        ),
        !state.manager.supervised@.contains_key(id@) && (exists|i: int|
            0 <= i < state.plugin_defs.len() && (#[trigger] state.plugin_defs@[i]).id@ == id@)
            ==> r is Ok,
{
    assert(forall|j: int|
        0 <= j < state.plugin_defs.len() ==> state.plugin_defs[j] == #[trigger] state.plugin_defs@[j]);
    if exists|i: int| 0 <= i < state.plugin_defs.len() && (#[trigger] state.plugin_defs@[i]).id@
        == id@ {
        let i = choose|i: int|
            0 <= i < state.plugin_defs.len() && (#[trigger] state.plugin_defs@[i]).id@ == id@;
        assert(state.plugin_defs[i].id@ == id@);
    }
}

/// A valid declaration goes on; one that asks for a permission that it is not granted is
/// answered with 403, one that is invalid otherwise with 422.
pub proof fn law_invalid_declaration_is_refused(
    outcome: &Result<(), VynkorError>,
    r: Result<(), (u16, ApiError)>,
)
    requires
        call_ensures(start_plugin_validated, (outcome,), r),
    ensures
        r is Ok <==> *outcome is Ok,
        *outcome matches Err(VynkorError::PermissionDenied(_)) ==> refuses(
            r->Err_0,
            403,
            "plugin requests a permission not granted by config"@,
        ),
        *outcome is Err && !(*outcome matches Err(VynkorError::PermissionDenied(_))) ==> refuses(
            r->Err_0,
            422,
            "plugin definition failed validation"@,
        ),
{
}

/// A start that succeeded is answered with 200, any other with 422.
pub proof fn law_start_is_answered_by_its_outcome(
    id: &String,
    outcome: &Result<(), VynkorError>,
    r: Result<u16, (u16, ApiError)>,
)
    requires
        call_ensures(start_plugin_finished, (id, outcome), r),
    ensures
        *outcome is Ok ==> r == Ok::<u16, (u16, ApiError)>(200),
        *outcome is Err ==> r is Err && refuses(
            r->Err_0,
            422,
            "failed to start plugin '"@ + id@ + "'"@,
        ),
{
}

/// A plugin is stopped or restarted only where it is registered; any other is answered with
/// 404.
pub proof fn law_only_a_registered_plugin_is_stopped_or_restarted(
    state: &AppState,
    id: &String,
    stop: Result<(), (u16, ApiError)>,
    restart: Result<(), (u16, ApiError)>,
)
    requires
        call_ensures(stop_plugin, (state, id), stop),
        call_ensures(restart_plugin, (state, id), restart),
    ensures
        stop is Ok <==> state.manager.plugins@.contains_key(id@),
        restart is Ok <==> state.manager.plugins@.contains_key(id@),
        stop matches Err(e) ==> refuses(e, 404, "plugin '"@ + id@ + "' is not registered"@),
        restart matches Err(e) ==> refuses(e, 404, "plugin '"@ + id@ + "' is not registered"@),
{
}

/// A stop that succeeded is answered with 200, one that found no process with 404, any other
/// with 422.
pub proof fn law_stop_is_answered_by_its_outcome(
    id: &String,
    outcome: &Result<(), VynkorError>,
    r: Result<u16, (u16, ApiError)>,
)
    requires
        call_ensures(stop_plugin_finished, (id, outcome), r),
    ensures
        *outcome is Ok ==> r == Ok::<u16, (u16, ApiError)>(200),
        *outcome matches Err(VynkorError::PluginNotFound(_)) ==> r is Err && refuses(
            r->Err_0,
            404,
            "plugin '"@ + id@ + "' exited before stop completed"@,
        ),
        *outcome is Err && !(*outcome matches Err(VynkorError::PluginNotFound(_)))
            ==> r is Err && refuses(r->Err_0, 422, "failed to stop plugin '"@ + id@ + "'"@),
{
}

/// A restart that is under way is answered with 202, any other with 422.
pub proof fn law_restart_is_answered_by_its_outcome(
    id: &String,
    outcome: &Result<(), VynkorError>,
    r: Result<u16, (u16, ApiError)>,
)
    requires
        call_ensures(restart_plugin_finished, (id, outcome), r),
    ensures
        *outcome is Ok ==> r == Ok::<u16, (u16, ApiError)>(202),
        *outcome is Err ==> r is Err && refuses(
            r->Err_0,
            422,
            "failed to restart plugin '"@ + id@ + "'"@,
        ),
{
}

/// A plugin's log is open exactly where the plugin is registered or has a process. A request
/// gets the lines that it asks for, 100 where it does not say, and never more than 10 000.
pub proof fn law_log_request_gets_what_it_asks_for(
    state: &AppState,
    id: &String,
    q: &LogsQuery,
    r: Result<usize, (u16, ApiError)>,
)
    requires
        call_ensures(get_plugin_logs, (state, id, q), r),
    ensures
        r is Ok <==> state.manager.plugins@.contains_key(id@)
            || state.manager.supervised@.contains_key(id@),
        r matches Err(e) ==> refuses(e, 404, "plugin '"@ + id@ + "' is not registered"@),
        r matches Ok(n) ==> {
            &&& q.lines is None ==> n == 100
            &&& q.lines matches Some(asked) ==> if asked <= 10_000 {
                n == asked
            } else {
                n == 10_000
            }
        },
{
}

/// A plugin that is recorded is registered as it was given and listed last; every other keeps
/// its data and its place among the others, and nothing else changes.
pub proof fn law_recorded_plugin_is_registered(m: &mut PluginManager, plugin: RegisteredPlugin)
    requires
        call_ensures(PluginManager::add_plugin, (m, plugin), ()),
    ensures
        final(m).plugins@ == old(m).plugins@.insert(plugin.plugin_id@, plugin),
        final(m).plugins.order().len() > 0,
        final(m).plugins.order().last() == plugin.plugin_id@,
        final(m).plugins.order().drop_last() == old(m).plugins.order().filter(
            |k: Seq<char>| k != plugin.plugin_id@,
        ),
        final(m).devices == old(m).devices,
        final(m).supervised == old(m).supervised,
{
    let others = old(m).plugins.order().filter(|k: Seq<char>| k != plugin.plugin_id@);
    assert(final(m).plugins.order() == others.push(plugin.plugin_id@));
    assert(others.push(plugin.plugin_id@).drop_last() =~= others);
}

/// A device that is recorded is known as it was given and listed last; every other keeps its
/// data and its place among the others, and nothing else changes.
pub proof fn law_recorded_device_is_known(m: &mut PluginManager, device: DeviceRecord)
    requires
        call_ensures(PluginManager::add_device, (m, device), ()),
    ensures
        final(m).devices@ == old(m).devices@.insert(device.device_id@, device),
        final(m).devices.order().len() > 0,
        final(m).devices.order().last() == device.device_id@,
        final(m).devices.order().drop_last() == old(m).devices.order().filter(
            |k: Seq<char>| k != device.device_id@,
        ),
        final(m).plugins == old(m).plugins,
        final(m).supervised == old(m).supervised,
{
    let others = old(m).devices.order().filter(|k: Seq<char>| k != device.device_id@);
    assert(final(m).devices.order() == others.push(device.device_id@));
    assert(others.push(device.device_id@).drop_last() =~= others);
}

/// A plugin that is recorded as supervised is so, besides those that were.
pub proof fn law_recorded_process_is_supervised(
    m: &mut PluginManager,
    plugin_id: String,
    id: Seq<char>,
)
    requires
        call_ensures(PluginManager::add_supervised, (m, plugin_id), ()),
    ensures
        final(m).supervised@.contains_key(id) <==> id == plugin_id@
            || old(m).supervised@.contains_key(id),
        final(m).plugins == old(m).plugins,
        final(m).devices == old(m).devices,
{
}

} // verus!
