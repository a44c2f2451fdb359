//! What an update asks for, step by step, in terms of how its steps go.
use vstd::prelude::*;

#[allow(unused_imports)]
use crate::exit::ExitStep;
#[allow(unused_imports)]
use crate::update::{
    install_update_and_restart, update_plan, InstallUpdate, Platform, UpdateAction, UpdateOutcome,
    UpdateStageView, UpdateStep,
};

verus! {

/// Whether `updates` are the stages of an update on `platform` whose steps go as `outcomes` says,
/// and `due` is what each stage asks for.
pub open spec fn is_update_run(
    platform: Platform,
    updates: Seq<InstallUpdate>,
    outcomes: Seq<UpdateOutcome>,
    due: Seq<UpdateAction>,
) -> bool {
    &&& updates.len() == outcomes.len() + 1
    &&& due.len() == updates.len()
    &&& call_ensures(install_update_and_restart, (platform,), updates[0])
    &&& forall|i: int|
        0 <= i < outcomes.len() ==> call_ensures(
            InstallUpdate::next,
            (updates[i], #[trigger] outcomes[i]),
            updates[i + 1],
        )
    &&& forall|i: int|
        0 <= i < due.len() ==> call_ensures(
            InstallUpdate::action,
            (&updates[i],),
            #[trigger] due[i],
        )
}

/// In a run, as many steps of the plan are done as outcomes have come in, or the update is over.
proof fn lemma_position(
    platform: Platform,
    updates: Seq<InstallUpdate>,
    outcomes: Seq<UpdateOutcome>,
    due: Seq<UpdateAction>,
    i: int,
)
    requires
        is_update_run(platform, updates, outcomes, due),
        0 <= i < updates.len(),
    ensures
        updates[i]@.platform == platform,
        updates[i]@.stage matches UpdateStageView::Performed(done) ==> done == i && i
            < update_plan(platform).len(),
        call_ensures(InstallUpdate::action, (&updates[i],), due[i]),
        i < outcomes.len() ==> updates[i + 1]@ == updates[i]@.next(outcomes[i]@),
    decreases i,
{
    assert(call_ensures(InstallUpdate::action, (&updates[i],), due[i]));
    if i < outcomes.len() {
        assert(call_ensures(InstallUpdate::next, (updates[i], outcomes[i]), updates[i + 1]));
    }
    if i > 0 {
        lemma_position(platform, updates, outcomes, due, i - 1);
    }
}

/// An update begins by setting the updater up.
pub proof fn law_update_begins_with_the_updater(
    platform: Platform,
    updates: Seq<InstallUpdate>,
    outcomes: Seq<UpdateOutcome>,
    due: Seq<UpdateAction>,
)
    requires
        is_update_run(platform, updates, outcomes, due),
    ensures
        due[0] == UpdateAction::Perform(UpdateStep::BuildUpdater),
{
    lemma_position(platform, updates, outcomes, due, 0);
}

/// A step that fails, if it can, ends the update for good, with its label and the cause.
pub proof fn law_failed_step_ends_the_update(
    platform: Platform,
    updates: Seq<InstallUpdate>,
    outcomes: Seq<UpdateOutcome>,
    due: Seq<UpdateAction>,
    k: int,
    cause: String,
    step: UpdateStep,
    later: int,
)
    requires
        is_update_run(platform, updates, outcomes, due),
        0 <= k < later < due.len(),
        due[k] == UpdateAction::Perform(step),
        outcomes[k] == UpdateOutcome::Failed(cause),
        !(step is Exit),
    ensures
        due[later] is Reply,
        due[later]->Reply_0 is Err,
        step == UpdateStep::BuildUpdater ==> due[later]->Reply_0->Err_0@ == "初始化更新器失败: "@
            + cause@,
        step == UpdateStep::CheckForUpdate ==> due[later]->Reply_0->Err_0@ == "检查更新失败: "@
            + cause@,
        step == UpdateStep::Download ==> due[later]->Reply_0->Err_0@ == "下载更新失败: "@ + cause@,
        step == UpdateStep::Install && platform == Platform::Other
            ==> due[later]->Reply_0->Err_0@ == "安装更新失败: "@ + cause@,
        step == UpdateStep::Install && platform == Platform::Windows
            ==> due[later]->Reply_0->Err_0@ == "Windows 更新安装失败: "@ + cause@
            + "。已执行退出前清理，代理或 Live 接管可能已暂停；请重启应用或重新开启代理后再试。"@,
    decreases later,
{
    lemma_position(platform, updates, outcomes, due, k);
    lemma_position(platform, updates, outcomes, due, later);
    if later > k + 1 {
        law_failed_step_ends_the_update(
            platform,
            updates,
            outcomes,
            due,
            k,
            cause,
            step,
            later - 1,
        );
        lemma_position(platform, updates, outcomes, due, later - 1);
    }
}

/// A check that finds nothing newer ends the update for good, with the reply `false`.
pub proof fn law_nothing_newer_ends_the_update(
    platform: Platform,
    updates: Seq<InstallUpdate>,
    outcomes: Seq<UpdateOutcome>,
    due: Seq<UpdateAction>,
    k: int,
    later: int,
)
    requires
        is_update_run(platform, updates, outcomes, due),
        0 <= k < later < due.len(),
        due[k] == UpdateAction::Perform(UpdateStep::CheckForUpdate),
        outcomes[k] is NoUpdate,
    ensures
        due[later] == UpdateAction::Reply(Ok(false)),
    decreases later,
{
    lemma_position(platform, updates, outcomes, due, k);
    lemma_position(platform, updates, outcomes, due, later);
    if later > k + 1 {
        law_nothing_newer_ends_the_update(platform, updates, outcomes, due, k, later - 1);
        lemma_position(platform, updates, outcomes, due, later - 1);
    }
}

/// Except on Windows, the installation follows the download, and the way out follows the
/// installation, with the restart at its end.
/// Each step follows the one before it, unless that one has failed or has found nothing newer.
pub proof fn law_what_follows_each_step_elsewhere(
    platform: Platform,
    updates: Seq<InstallUpdate>,
    outcomes: Seq<UpdateOutcome>,
    due: Seq<UpdateAction>,
    k: int,
    step: UpdateStep,
)
    requires
        platform == Platform::Other,
        is_update_run(platform, updates, outcomes, due),
        0 <= k < outcomes.len(),
        due[k] == UpdateAction::Perform(step),
        outcomes[k] is Failed ==> step is Exit,
        outcomes[k] is NoUpdate ==> step != UpdateStep::CheckForUpdate,
    ensures
        step == UpdateStep::BuildUpdater ==> due[k + 1] == UpdateAction::Perform(
            UpdateStep::CheckForUpdate,
        ),
        step == UpdateStep::CheckForUpdate ==> due[k + 1] == UpdateAction::Perform(
            UpdateStep::Download,
        ),
        step == UpdateStep::Download ==> due[k + 1] == UpdateAction::Perform(
            UpdateStep::Install,
        ),
        step == UpdateStep::Install ==> due[k + 1] == UpdateAction::Perform(
            UpdateStep::Exit(ExitStep::SaveWindowState),
        ),
        step == UpdateStep::Exit(ExitStep::SaveWindowState) ==> due[k + 1] == UpdateAction::Perform(
            UpdateStep::Exit(ExitStep::CleanUp),
        ),
        step == UpdateStep::Exit(ExitStep::CleanUp) ==> due[k + 1] == UpdateAction::Perform(
            UpdateStep::Exit(ExitStep::Wait { millis: 100 }),
        ),
        step == UpdateStep::Exit(ExitStep::Wait { millis: 100 }) ==> due[k + 1] == UpdateAction::Perform(
            UpdateStep::Exit(ExitStep::Restart),
        ),
        step == UpdateStep::Exit(ExitStep::Restart) ==> due[k + 1] == UpdateAction::Reply(
            Ok(true),
        ),
{
    lemma_position(platform, updates, outcomes, due, k);
    lemma_position(platform, updates, outcomes, due, k + 1);
    let plan = update_plan(platform);
    assert(plan.len() == 8);
    assert(step == plan[k]);
}

/// On Windows the way out follows the download, and the installation comes at its end.
/// Each step follows the one before it, unless that one has failed or has found nothing newer.
pub proof fn law_what_follows_each_step_on_windows(
    platform: Platform,
    updates: Seq<InstallUpdate>,
    outcomes: Seq<UpdateOutcome>,
    due: Seq<UpdateAction>,
    k: int,
    step: UpdateStep,
)
    requires
        platform == Platform::Windows,
        is_update_run(platform, updates, outcomes, due),
        0 <= k < outcomes.len(),
        due[k] == UpdateAction::Perform(step),
        outcomes[k] is Failed ==> step is Exit,
        outcomes[k] is NoUpdate ==> step != UpdateStep::CheckForUpdate,
    ensures
        step == UpdateStep::BuildUpdater ==> due[k + 1] == UpdateAction::Perform(
            UpdateStep::CheckForUpdate,
        ),
        step == UpdateStep::CheckForUpdate ==> due[k + 1] == UpdateAction::Perform(
            UpdateStep::Download,
        ),
        step == UpdateStep::Download ==> due[k + 1] == UpdateAction::Perform(
            UpdateStep::Exit(ExitStep::SaveWindowState),
        ),
        step == UpdateStep::Exit(ExitStep::SaveWindowState) ==> due[k + 1] == UpdateAction::Perform(
            UpdateStep::Exit(ExitStep::CleanUp),
        ),
        step == UpdateStep::Exit(ExitStep::CleanUp) ==> due[k + 1] == UpdateAction::Perform(
            UpdateStep::Exit(ExitStep::RemoveTrayIcon),
        ),
        step == UpdateStep::Exit(ExitStep::RemoveTrayIcon) ==> due[k + 1] == UpdateAction::Perform(
            UpdateStep::Exit(ExitStep::ReleaseInstanceLock),
        ),
        step == UpdateStep::Exit(ExitStep::ReleaseInstanceLock) ==> due[k + 1] == UpdateAction::Perform(
            UpdateStep::Exit(ExitStep::Wait { millis: 100 }),
        ),
        step == UpdateStep::Exit(ExitStep::Wait { millis: 100 }) ==> due[k + 1] == UpdateAction::Perform(
            UpdateStep::Install,
        ),
        step == UpdateStep::Install ==> due[k + 1] == UpdateAction::Reply(
            Ok(true),
        ),
{
    lemma_position(platform, updates, outcomes, due, k);
    lemma_position(platform, updates, outcomes, due, k + 1);
    let plan = update_plan(platform);
    assert(plan.len() == 9);
    assert(step == plan[k]);
}

/// Nothing is installed, and no step on the way out is performed or due, unless an update has been
/// found and has been downloaded without failure.
pub proof fn law_nothing_is_installed_without_a_download(
    platform: Platform,
    updates: Seq<InstallUpdate>,
    outcomes: Seq<UpdateOutcome>,
    due: Seq<UpdateAction>,
    n: int,
    step: UpdateStep,
)
    requires
        is_update_run(platform, updates, outcomes, due),
        0 <= n < due.len(),
        due[n] == UpdateAction::Perform(step),
        step == UpdateStep::Install || step is Exit,
    ensures
        n > 2,
        due[0] == UpdateAction::Perform(UpdateStep::BuildUpdater),
        due[1] == UpdateAction::Perform(UpdateStep::CheckForUpdate),
        due[2] == UpdateAction::Perform(UpdateStep::Download),
        !(outcomes[0] is Failed),
        !(outcomes[1] is Failed),
        !(outcomes[1] is NoUpdate),
        !(outcomes[2] is Failed),
{
    lemma_position(platform, updates, outcomes, due, n);
    lemma_due_before(platform, updates, outcomes, due, n, 0);
    if n > 1 {
        lemma_due_before(platform, updates, outcomes, due, n, 1);
    }
    if n > 2 {
        lemma_due_before(platform, updates, outcomes, due, n, 2);
        if let UpdateOutcome::Failed(cause) = outcomes[0] {
            law_failed_step_ends_the_update(
                platform,
                updates,
                outcomes,
                due,
                0,
                cause,
                UpdateStep::BuildUpdater,
                n,
            );
        }
        if let UpdateOutcome::Failed(cause) = outcomes[1] {
            law_failed_step_ends_the_update(
                platform,
                updates,
                outcomes,
                due,
                1,
                cause,
                UpdateStep::CheckForUpdate,
                n,
            );
        }
        if outcomes[1] is NoUpdate {
            law_nothing_newer_ends_the_update(platform, updates, outcomes, due, 1, n);
        }
        if let UpdateOutcome::Failed(cause) = outcomes[2] {
            law_failed_step_ends_the_update(
                platform,
                updates,
                outcomes,
                due,
                2,
                cause,
                UpdateStep::Download,
                n,
            );
        }
    }
}

/// Before a step is due, each stage has asked for its step of the plan.
proof fn lemma_due_before(
    platform: Platform,
    updates: Seq<InstallUpdate>,
    outcomes: Seq<UpdateOutcome>,
    due: Seq<UpdateAction>,
    n: int,
    i: int,
)
    requires
        is_update_run(platform, updates, outcomes, due),
        0 <= i <= n < due.len(),
        due[n] is Perform,
    ensures
        i < update_plan(platform).len(),
        due[i] == UpdateAction::Perform(update_plan(platform)[i]),
    decreases n - i,
{
    lemma_position(platform, updates, outcomes, due, i);
    if i < n {
        lemma_due_before(platform, updates, outcomes, due, n, i + 1);
        lemma_position(platform, updates, outcomes, due, i + 1);
    }
}

/// Except on Windows, a step on the way out is performed or due only after the installation has
/// gone well.
pub proof fn law_the_way_out_follows_the_installation(
    platform: Platform,
    updates: Seq<InstallUpdate>,
    outcomes: Seq<UpdateOutcome>,
    due: Seq<UpdateAction>,
    n: int,
    exit: ExitStep,
)
    requires
        platform == Platform::Other,
        is_update_run(platform, updates, outcomes, due),
        0 <= n < due.len(),
        due[n] == UpdateAction::Perform(UpdateStep::Exit(exit)),
    ensures
        n > 3,
        due[3] == UpdateAction::Perform(UpdateStep::Install),
        !(outcomes[3] is Failed),
{
    law_nothing_is_installed_without_a_download(
        platform,
        updates,
        outcomes,
        due,
        n,
        UpdateStep::Exit(exit),
    );
    lemma_due_before(platform, updates, outcomes, due, n, 3);
    if let UpdateOutcome::Failed(cause) = outcomes[3] {
        law_failed_step_ends_the_update(
            platform,
            updates,
            outcomes,
            due,
            3,
            cause,
            UpdateStep::Install,
            n,
        );
    }
}

/// A reply that has been given is given again, whatever is reported afterwards.
pub proof fn law_a_given_update_reply_stays(
    update: InstallUpdate,
    outcome: UpdateOutcome,
    after: InstallUpdate,
    before_action: UpdateAction,
    after_action: UpdateAction,
)
    requires
        call_ensures(InstallUpdate::action, (&update,), before_action),
        call_ensures(InstallUpdate::next, (update, outcome), after),
        call_ensures(InstallUpdate::action, (&after,), after_action),
        before_action is Reply,
    ensures
        after_action is Reply,
        after_action->Reply_0 is Ok <==> before_action->Reply_0 is Ok,
        before_action->Reply_0 is Ok ==> after_action->Reply_0 == before_action->Reply_0,
        before_action->Reply_0 is Err ==> after_action->Reply_0->Err_0@
            == before_action->Reply_0->Err_0@,
{
}

} // verus!
