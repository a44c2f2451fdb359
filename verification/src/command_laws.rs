//! What the commands with a single outside step reply, in terms of how that step went.
use vstd::prelude::*;

#[allow(unused_imports)]
use log::LevelFilter;

#[allow(unused_imports)]
use crate::auto_launch::{
    auto_launch_change, get_auto_launch_status, set_auto_launch, AutoLaunchChange,
};
#[allow(unused_imports)]
use crate::config::{
    log_config_stored, set_app_config_dir_override, set_copilot_optimizer_config, set_log_config,
    set_optimizer_config, set_rectifier_config, LogConfigStored,
};
#[allow(unused_imports)]
use crate::download::{downloaded_after, UpdateDownloadProgress};
#[allow(unused_imports)]
use crate::exit::{restart_app, ExitStep, RestartPlan};
#[allow(unused_imports)]
use crate::history::{
    restore_codex_unified_history, CodexUnifyHistoryRestoreResult, HistoryRestoreOutcome,
};
#[allow(unused_imports)]
use crate::logger::MaxLevel;
#[allow(unused_imports)]
use crate::reply::{acknowledge, labelled};
#[allow(unused_imports)]
use crate::update::{check_app_update_available, UpdateLookup};

verus! {

/// A check that has found a version reports that version, character by character; one that has
/// found none reports none; and one that has failed reports the cause behind its label.
pub proof fn law_check_reports_the_version_found(
    lookup: UpdateLookup,
    reply: Result<Option<String>, String>,
)
    requires
        call_ensures(check_app_update_available, (lookup,), reply),
    ensures
        match lookup {
            UpdateLookup::Checked(Some(version)) => reply is Ok && reply->Ok_0 is Some
                && reply->Ok_0->0@ == version@,
            UpdateLookup::Checked(None) => reply is Ok && reply->Ok_0 is None,
            UpdateLookup::BuildFailed(cause) => reply is Err && reply->Err_0@ == "初始化更新器失败: "@
                + cause@,
            UpdateLookup::CheckFailed(cause) => reply is Err && reply->Err_0@ == "检查更新失败: "@
                + cause@,
        },
{
}

/// Two checks that find different versions report different versions.
pub proof fn law_checks_tell_versions_apart(
    first: String,
    second: String,
    first_reply: Result<Option<String>, String>,
    second_reply: Result<Option<String>, String>,
)
    requires
        call_ensures(
            check_app_update_available,
            (UpdateLookup::Checked(Some(first)),),
            first_reply,
        ),
        call_ensures(
            check_app_update_available,
            (UpdateLookup::Checked(Some(second)),),
            second_reply,
        ),
        first@ != second@,
    ensures
        first_reply->Ok_0->0@ != second_reply->Ok_0->0@,
{
    law_check_reports_the_version_found(UpdateLookup::Checked(Some(first)), first_reply);
    law_check_reports_the_version_found(UpdateLookup::Checked(Some(second)), second_reply);
}

/// What was restored is reported as it is: the counts, and the reason where nothing was.
pub proof fn law_restored_history_is_reported_as_it_is(
    outcome: HistoryRestoreOutcome,
    reply: Result<CodexUnifyHistoryRestoreResult, String>,
)
    requires
        call_ensures(restore_codex_unified_history, (Ok(Ok(outcome)),), reply),
    ensures
        reply is Ok,
        reply->Ok_0.restored_jsonl_files == outcome.restored_jsonl_files,
        reply->Ok_0.restored_state_rows == outcome.restored_state_rows,
        reply->Ok_0.skipped_reason is Some <==> outcome.skipped_reason is Some,
        outcome.skipped_reason is Some ==> reply->Ok_0.skipped_reason->0@
            == outcome.skipped_reason->0@,
{
}

/// A failure of the restoration, and one of the task that it runs in, is reported as it is.
pub proof fn law_failed_restoration_is_reported_as_it_is(
    cause: String,
    reply: Result<CodexUnifyHistoryRestoreResult, String>,
)
    requires
        call_ensures(restore_codex_unified_history, (Err(cause),), reply) || call_ensures(
            restore_codex_unified_history,
            (Ok(Err(cause)),),
            reply,
        ),
    ensures
        reply is Err,
        reply->Err_0@ == cause@,
{
}

/// Storing a configuration is acknowledged exactly if it went well; a failure is passed on as it
/// is, whichever configuration it is.
pub proof fn law_storing_is_acknowledged(
    stored: Result<(), String>,
    reply: Result<bool, String>,
    decision: LogConfigStored,
    level: LevelFilter,
)
    requires
        call_ensures(log_config_stored, (stored, level), decision),
        call_ensures(set_rectifier_config, (stored,), reply) || call_ensures(
            set_optimizer_config,
            (stored,),
            reply,
        ) || call_ensures(set_copilot_optimizer_config, (stored,), reply) || call_ensures(
            set_app_config_dir_override,
            (stored,),
            reply,
        ) || call_ensures(acknowledge, (stored,), reply) || reply == decision.reply,
    ensures
        match stored {
            Ok(()) => reply == Ok::<bool, String>(true),
            Err(cause) => reply is Err && reply->Err_0@ == cause@,
        },
        decision.max_level is Some <==> stored is Ok,
        stored is Ok ==> decision.max_level->0 == level,
{
}

/// A message holds the label and behind it the whole cause, with nothing between, before or
/// behind them.
pub proof fn law_a_message_holds_label_and_cause(label: &str, cause: &str, message: String)
    requires
        call_ensures(labelled, (label, cause), message),
    ensures
        message@.len() == label@.len() + cause@.len(),
        message@.take(label@.len() as int) == label@,
        message@.skip(label@.len() as int) == cause@,
{
}

/// Through a new hold on the logger no level has gone to it yet.
pub proof fn law_a_new_hold_has_handed_nothing(hold: MaxLevel)
    requires
        call_ensures(MaxLevel::new, (), hold),
    ensures
        hold.handed().len() == 0,
{
}

/// The verbosity goes to the logger once, as it is, if its configuration has been stored, and
/// nothing goes there otherwise; the reply is as for any configuration.
pub proof fn law_only_a_stored_verbosity_is_put_in_force(
    stored: Result<(), String>,
    level: LevelFilter,
    reply: Result<bool, String>,
)
    ensures
        forall|hold: &mut MaxLevel|
            #[trigger] call_ensures(set_log_config, (hold, stored, level), reply) ==> {
                match stored {
                    Ok(()) => {
                        &&& reply == Ok::<bool, String>(true)
                        &&& final(hold).handed().len() == hold.handed().len() + 1
                        &&& final(hold).handed().last() == level
                        &&& final(hold).handed().drop_last() == hold.handed()
                    },
                    Err(cause) => {
                        &&& reply is Err
                        &&& reply->Err_0@ == cause@
                        &&& final(hold).handed() == hold.handed()
                    },
                }
            },
{
    assert forall|hold: &mut MaxLevel|
        #[trigger] call_ensures(set_log_config, (hold, stored, level), reply)
            && stored is Ok implies final(hold).handed().drop_last() == hold.handed() by {
        assert(hold.handed().push(level).drop_last() =~= hold.handed());
    }
}

/// Starting with the user's session is registered if it is wanted and taken back if it is not; a
/// failure is reported with its cause behind the label of what was tried.
pub proof fn law_auto_launch_is_changed_as_wanted(
    enabled: bool,
    changed: Result<(), String>,
    change: AutoLaunchChange,
    reply: Result<bool, String>,
)
    requires
        call_ensures(auto_launch_change, (enabled,), change),
        call_ensures(set_auto_launch, (enabled, changed), reply),
    ensures
        enabled <==> change is Enable,
        !enabled <==> change is Disable,
        match changed {
            Ok(()) => reply == Ok::<bool, String>(true),
            Err(cause) => reply is Err && reply->Err_0@ == if change is Enable {
                "启用开机自启失败: "@ + cause@
            } else {
                "禁用开机自启失败: "@ + cause@
            },
        },
{
}

/// Whether the application is registered is reported as it was found; a failure is reported with
/// its cause behind its label.
pub proof fn law_auto_launch_status_is_reported_as_found(
    status: Result<bool, String>,
    reply: Result<bool, String>,
)
    requires
        call_ensures(get_auto_launch_status, (status,), reply),
    ensures
        match status {
            Ok(registered) => reply == Ok::<bool, String>(registered),
            Err(cause) => reply is Err && reply->Err_0@ == "获取开机自启状态失败: "@ + cause@,
        },
{
}

/// A restart on request remembers the window before it replies, replies that it is under way, and
/// restarts as the very last thing, after a pause and with the clean-up right before it.
pub proof fn law_restart_cleans_up_first(plan: RestartPlan)
    requires
        call_ensures(restart_app, (), plan),
    ensures
        plan.reply == Ok::<bool, String>(true),
        plan.before_reply@.len() == 1,
        plan.before_reply@[0] == ExitStep::SaveWindowState,
        plan.after_reply@.len() == 3,
        plan.after_reply@[0] == (ExitStep::Wait { millis: 100 }),
        plan.after_reply@[1] == ExitStep::CleanUp,
        plan.after_reply@[2] == ExitStep::Restart,
{
}

/// A download starts with nothing received and no total announced.
pub proof fn law_progress_starts_at_nothing(progress: UpdateDownloadProgress)
    requires
        call_ensures(UpdateDownloadProgress::start, (), progress),
    ensures
        progress.downloaded == 0,
        progress.total is None,
{
}

/// Taking in a chunk adds its own length to the counter, which stops at its largest value, and
/// shows the total as the server announces it.
pub proof fn law_progress_takes_in_each_chunk(chunk: usize, total: Option<u64>)
    ensures
        forall|progress: &mut UpdateDownloadProgress|
            #[trigger] call_ensures(
                UpdateDownloadProgress::advance,
                (progress, chunk, total),
                (),
            ) ==> {
                &&& progress.downloaded + chunk <= u64::MAX ==> final(progress).downloaded
                    == progress.downloaded + chunk
                &&& progress.downloaded + chunk > u64::MAX ==> final(progress).downloaded
                    == u64::MAX
                &&& final(progress).total == total
            },
{
}

/// One more chunk adds its own length to the counter, which stops at its largest value.
pub proof fn law_a_chunk_counts_its_length(downloaded: u64, chunks: Seq<usize>, chunk: usize)
    ensures
        downloaded_after(downloaded, Seq::empty()) == downloaded,
        downloaded_after(downloaded, chunks) + chunk <= u64::MAX ==> downloaded_after(
            downloaded,
            chunks.push(chunk),
        ) == downloaded_after(downloaded, chunks) + chunk,
        downloaded_after(downloaded, chunks) + chunk > u64::MAX ==> downloaded_after(
            downloaded,
            chunks.push(chunk),
        ) == u64::MAX,
{
    assert(chunks.push(chunk).drop_last() =~= chunks);
}

} // verus!
