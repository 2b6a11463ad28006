//! What holds of logs and configurations, said of every call of the operations on them.
//!
//! `call_ensures(f, args, r)` is a call of `f` on `args` that returned `r`; a value that a
//! call changes is `old(b)` before it and `final(b)` after it.
use crate::plugins::config::{FsAccessMode, PluginConfig};
use crate::plugins::logs::LogBuffer;
use crate::plugins::supervisor::PluginSupervisor;
use vstd::prelude::*;

verus! {

/// A new line is the last of the log; the lines before it stay as they were, but for the
/// oldest one where the log was full.
pub proof fn law_new_line_is_kept(b: &mut LogBuffer, line: String)
    requires
        call_ensures(LogBuffer::push, (b, line), ()),
    ensures
        final(b)@.len() > 0,
        final(b)@.last() == line@,
        final(b).capacity() == old(b).capacity(),
        old(b)@.len() == 0 || old(b)@.len() < old(b).capacity() ==> final(b)@.drop_last() == old(
            b,
        )@,
        old(b)@.len() > 0 && old(b)@.len() >= old(b).capacity() ==> final(b)@.drop_last() == old(
            b,
        )@.drop_first(),
{
    assert(final(b)@.drop_last() =~= if old(b)@.len() > 0 && old(b)@.len() >= old(b).capacity() {
        old(b)@.drop_first()
    } else {
        old(b)@
    });
}

/// A log is empty at first and handed out line by line, oldest first.
pub proof fn law_log_is_handed_out_in_order(
    max_lines: usize,
    fresh: LogBuffer,
    b: &LogBuffer,
    lines: Vec<String>,
)
    requires
        call_ensures(LogBuffer::new, (max_lines,), fresh),
        call_ensures(LogBuffer::lines, (b,), lines),
    ensures
        fresh@.len() == 0,
        fresh.capacity() == max_lines,
        lines.len() == b@.len(),
        forall|i: int| 0 <= i < lines.len() ==> (#[trigger] lines@[i])@ == b@[i],
{
    assert(lines.deep_view().len() == lines.len());
    assert forall|i: int| 0 <= i < lines.len() implies (#[trigger] lines@[i])@ == b@[i] by {
        assert(lines.deep_view()[i] == lines@[i]@);
    }
}

/// A line of the instance that the plugin's log belongs to goes into that log as its last
/// line; every other line is lost. No other log, and nothing but logs, ever changes.
pub proof fn law_line_goes_to_its_own_instance(
    s: &mut PluginSupervisor,
    plugin_id: &String,
    epoch: u64,
    line: String,
    other: Seq<char>,
)
    requires
        call_ensures(PluginSupervisor::append_log, (s, plugin_id, epoch, line), ()),
        other != plugin_id@,
    ensures
        !old(s).log_buffers@.contains_key(plugin_id@) || old(s).log_buffers@[plugin_id@].epoch
            != epoch ==> *final(s) == *old(s),
        old(s).log_buffers@.contains_key(plugin_id@) && old(s).log_buffers@[plugin_id@].epoch
            == epoch ==> {
            let before = old(s).log_buffers@[plugin_id@];
            let after = final(s).log_buffers@[plugin_id@];
            &&& final(s).log_buffers@.contains_key(plugin_id@)
            &&& after.epoch == epoch
            &&& after.buffer.capacity() == before.buffer.capacity()
            &&& after.buffer@.len() > 0
            &&& after.buffer@.last() == line@
            &&& after.buffer@.drop_last() == (if before.buffer@.len() > 0 && before.buffer@.len()
                >= before.buffer.capacity() {
                before.buffer@.drop_first()
            } else {
                before.buffer@
            })
        },
        final(s).log_buffers@.contains_key(other) == old(s).log_buffers@.contains_key(other),
        old(s).log_buffers@.contains_key(other) ==> final(s).log_buffers@[other] == old(
            s,
        ).log_buffers@[other],
        final(s).entries == old(s).entries,
        final(s).forced_restarts == old(s).forced_restarts,
        final(s).stopped_epochs == old(s).stopped_epochs,
        final(s).stopped_counts == old(s).stopped_counts,
        final(s).next_epoch == old(s).next_epoch,
{
    let id = plugin_id@;
    assert(final(s).log_buffers@.remove(id).contains_key(other) == old(s).log_buffers@.remove(
        id,
    ).contains_key(other));
    assert(final(s).log_buffers@.remove(id)[other] == old(s).log_buffers@.remove(id)[other]);
    if old(s).log_buffers@.contains_key(id) && old(s).log_buffers@[id].epoch == epoch {
        let before = old(s).log_buffers@[id].buffer@;
        let after = final(s).log_buffers@[id].buffer@;
        assert(after.drop_last() =~= if before.len() > 0 && before.len() >= old(
            s,
        ).log_buffers@[id].buffer.capacity() {
            before.drop_first()
        } else {
            before
        });
    }
}

/// A copy of a configuration has every setting of the one that it was made from.
pub proof fn law_copied_configuration_is_complete(config: &PluginConfig, copy: PluginConfig)
    requires
        call_ensures(PluginConfig::clone, (config,), copy),
    ensures
        copy.plugin_id@ == config.plugin_id@,
        copy.binary_path@ == config.binary_path@,
        copy.args.deep_view() == config.args.deep_view(),
        copy.env.deep_view() == config.env.deep_view(),
        copy.sandbox == config.sandbox,
        copy.grace_seconds == config.grace_seconds,
        match (copy.max_fs_access, config.max_fs_access) {
            (FsAccessMode::Full, FsAccessMode::Full) => true,
            (FsAccessMode::Restricted(m), FsAccessMode::Restricted(n)) => m@ == n@,
            _ => false,
        },
        copy.readonly_paths.deep_view() == config.readonly_paths.deep_view(),
        copy.writable_paths.deep_view() == config.writable_paths.deep_view(),
        copy.max_procs == config.max_procs,
        copy.max_vmem_mb == config.max_vmem_mb,
        copy.restart_policy == config.restart_policy,
        copy.max_restarts == config.max_restarts,
{
    assert(copy@ == config@);
    assert(copy@.max_fs_access == config@.max_fs_access);
}

} // verus!
