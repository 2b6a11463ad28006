//! What holds of the REST answers across routes.
use crate::api::routes::{
    declared, declared_at, is_refusal, lists_devices, lists_plugins, log_lines, shows_device,
    shows_plugin, start_failure, start_refusal, validation_refusal, ApiError, AppState,
    DeviceInfoView, DeviceRecord, LogsQuery, PluginInfo, PluginManager, RegisteredPlugin,
    MAX_LOG_LINES,
};
use crate::idmap::{lemma_without_absent, without};
use crate::plugins::errors::VynkorError;
use vstd::prelude::*;

verus! {

/// Every refusal has one shape: its body repeats the status, the status is no success, and
/// the body alone tells refusals apart.
pub proof fn law_refusals_share_one_shape(
    a: (u16, ApiError),
    status: u16,
    message: Seq<char>,
    b: (u16, ApiError),
    other_status: u16,
    other_message: Seq<char>,
)
    requires
        is_refusal(a, status, message),
        is_refusal(b, other_status, other_message),
    ensures
        a.0 == a.1.code,
        !(200 <= a.1.code < 300),
        !a.1.retryable,
        (a.1.code == b.1.code && a.1.message@ == b.1.message@) <==> (status == other_status
            && message == other_message),
{
}

/// A start ends in success exactly where the plugin has no supervised process, is declared,
/// passes validation and comes up: no request starts anything that is not declared.
pub proof fn law_start_succeeds_for_declared_plugins_only(
    state: AppState,
    id: Seq<char>,
    validation: Result<(), VynkorError>,
    start: Result<(), VynkorError>,
)
    ensures
        (start_refusal(state, id) is None && validation_refusal(validation) is None
            && start_failure(id, start) is None) <==> (!state.manager.is_supervised(id)
            && declared(state, id) && validation is Ok && start is Ok),
{
}

/// A plugin has a first declaration exactly where it is declared, and only one: which
/// declaration a start uses is settled by the request's identifier alone.
pub proof fn law_start_uses_the_first_declaration(state: AppState, id: Seq<char>)
    ensures
        declared(state, id) <==> exists|i: int| declared_at(state, id, i),
        forall|i: int, j: int| #[trigger]
            declared_at(state, id, i) && #[trigger] declared_at(state, id, j) ==> i == j,
{
    if declared(state, id) {
        let i = choose|i: int|
            0 <= i < state.plugin_defs.len() && (#[trigger] state.plugin_defs[i]).id@ == id;
        lemma_first_declaration(state, id, i);
    }
    if exists|i: int| declared_at(state, id, i) {
        let i = choose|i: int| declared_at(state, id, i);
        assert(state.plugin_defs[i].id@ == id);
    }
    assert forall|i: int, j: int| #[trigger]
        declared_at(state, id, i) && #[trigger] declared_at(state, id, j) implies i == j by {
        if i < j {
            assert(state.plugin_defs[i].id@ == id);
        }
        if j < i {
            assert(state.plugin_defs[j].id@ == id);
        }
    }
}

/// Where there is a declaration there is a first one.
proof fn lemma_first_declaration(state: AppState, id: Seq<char>, i: int)
    requires
        0 <= i < state.plugin_defs.len(),
        state.plugin_defs[i].id@ == id,
    ensures
        exists|k: int| declared_at(state, id, k),
    decreases i,
{
    if exists|j: int| 0 <= j < i && (#[trigger] state.plugin_defs[j]).id@ == id {
        let j = choose|j: int| 0 <= j < i && (#[trigger] state.plugin_defs[j]).id@ == id;
        lemma_first_declaration(state, id, j);
    } else {
        assert(declared_at(state, id, i));
    }
}

/// The list of plugins and the answer for a single plugin agree: every registered plugin is
/// listed exactly once, as it is shown by itself, and nothing else is listed.
pub proof fn law_list_and_single_plugin_agree(
    manager: PluginManager,
    infos: Seq<PluginInfo>,
    id: Seq<char>,
)
    requires
        manager.wf(),
        lists_plugins(manager, infos),
    ensures
        infos.len() == manager.plugins@.len(),
        manager.registered(id) <==> exists|i: int|
            0 <= i < infos.len() && (#[trigger] infos[i]).plugin_id@ == id,
        forall|i: int|
            0 <= i < infos.len() && (#[trigger] infos[i]).plugin_id@ == id ==> shows_plugin(
                manager,
                manager.plugins@[id],
                infos[i],
            ),
        forall|i: int, j: int|
            0 <= i < j < infos.len() ==> (#[trigger] infos[i]).plugin_id@ != (
            #[trigger] infos[j]).plugin_id@,
{
    let order = manager.plugins.order();
    manager.plugins.lemma_order();
    assert forall|i: int| 0 <= i < infos.len() implies (#[trigger] infos[i]).plugin_id@ == order[i]
        && manager.registered(order[i]) by {
        assert(manager.plugins@.contains_key(order[i]));
    }
    if manager.registered(id) {
        assert(order.contains(id));
        let i = choose|i: int| 0 <= i < order.len() && order[i] == id;
        assert(infos[i].plugin_id@ == id);
    }
}

/// Plugins are listed in the order in which they were recorded: one that was not on record
/// is listed after all others, which keep their places.
pub proof fn law_plugins_are_listed_as_recorded(
    pre: PluginManager,
    post: PluginManager,
    plugin: RegisteredPlugin,
    before: Seq<PluginInfo>,
    after: Seq<PluginInfo>,
)
    requires
        pre.wf(),
        post.wf(),
        !pre.plugins@.contains_key(plugin.plugin_id@),
        post.plugins@ == pre.plugins@.insert(plugin.plugin_id@, plugin),
        post.plugins.order() == without(pre.plugins.order(), plugin.plugin_id@).push(plugin.plugin_id@),
        lists_plugins(pre, before),
        lists_plugins(post, after),
    ensures
        after.len() == before.len() + 1,
        forall|i: int|
            0 <= i < before.len() ==> (#[trigger] after[i]).plugin_id@ == before[i].plugin_id@,
        after.last().plugin_id@ == plugin.plugin_id@,
{
    let order = pre.plugins.order();
    pre.plugins.lemma_order();
    post.plugins.lemma_order();
    assert forall|j: int| 0 <= j < order.len() implies #[trigger] order[j] != plugin.plugin_id@ by {
        assert(pre.plugins@.contains_key(order[j]));
    }
    lemma_without_absent(order, plugin.plugin_id@);
    assert forall|i: int| 0 <= i < after.len() implies (#[trigger] after[i]).plugin_id@
        == post.plugins.order()[i] by {
        assert(post.plugins@.contains_key(post.plugins.order()[i]));
    }
    assert forall|i: int| 0 <= i < before.len() implies (#[trigger] after[i]).plugin_id@
        == before[i].plugin_id@ by {
        assert(pre.plugins@.contains_key(order[i]));
        assert(before[i].plugin_id@ == order[i]);
    }
}

/// Devices are listed in the order in which they were recorded: one that was not on record
/// is listed after all others, which keep their places.
pub proof fn law_devices_are_listed_as_recorded(
    pre: PluginManager,
    post: PluginManager,
    device: DeviceRecord,
    before: Seq<DeviceInfoView>,
    after: Seq<DeviceInfoView>,
)
    requires
        pre.wf(),
        post.wf(),
        !pre.devices@.contains_key(device.device_id@),
        post.devices@ == pre.devices@.insert(device.device_id@, device),
        post.devices.order() == without(pre.devices.order(), device.device_id@).push(device.device_id@),
        lists_devices(pre, before),
        lists_devices(post, after),
    ensures
        after.len() == before.len() + 1,
        forall|i: int|
            0 <= i < before.len() ==> (#[trigger] after[i]).device_id@ == before[i].device_id@,
        after.last().device_id@ == device.device_id@,
{
    let order = pre.devices.order();
    pre.devices.lemma_order();
    post.devices.lemma_order();
    assert forall|j: int| 0 <= j < order.len() implies #[trigger] order[j] != device.device_id@ by {
        assert(pre.devices@.contains_key(order[j]));
    }
    lemma_without_absent(order, device.device_id@);
    assert forall|i: int| 0 <= i < after.len() implies (#[trigger] after[i]).device_id@
        == post.devices.order()[i] by {
        assert(post.devices@.contains_key(post.devices.order()[i]));
    }
    assert forall|i: int| 0 <= i < before.len() implies (#[trigger] after[i]).device_id@
        == before[i].device_id@ by {
        assert(pre.devices@.contains_key(order[i]));
        assert(before[i].device_id@ == order[i]);
    }
}

/// Every known device is listed exactly once, and nothing else is listed.
pub proof fn law_each_device_is_listed_once(
    manager: PluginManager,
    views: Seq<DeviceInfoView>,
    id: Seq<char>,
)
    requires
        manager.wf(),
        lists_devices(manager, views),
    ensures
        views.len() == manager.devices@.len(),
        manager.devices@.contains_key(id) <==> exists|i: int|
            0 <= i < views.len() && (#[trigger] views[i]).device_id@ == id,
        forall|i: int|
            0 <= i < views.len() && (#[trigger] views[i]).device_id@ == id ==> shows_device(
                manager.devices@[id],
                views[i],
            ),
        forall|i: int, j: int|
            0 <= i < j < views.len() ==> (#[trigger] views[i]).device_id@ != (
            #[trigger] views[j]).device_id@,
{
    let order = manager.devices.order();
    manager.devices.lemma_order();
    assert forall|i: int| 0 <= i < views.len() implies (#[trigger] views[i]).device_id@ == order[i]
        && manager.devices@.contains_key(order[i]) by {
        assert(manager.devices@.contains_key(order[i]));
    }
    if manager.devices@.contains_key(id) {
        assert(order.contains(id));
        let i = choose|i: int| 0 <= i < order.len() && order[i] == id;
        assert(views[i].device_id@ == id);
    }
}

/// No request gets more log lines than the limit, nor more than it asked for.
pub proof fn law_log_requests_are_bounded(q: LogsQuery)
    ensures
        log_lines(q) <= MAX_LOG_LINES,
        q.lines matches Some(n) ==> log_lines(q) <= n,
{
}

} // verus!
