//! What holds of every update, however its steps go.
use vstd::prelude::*;

#[allow(unused_imports)]
use crate::exit::ExitStep;
#[allow(unused_imports)]
use crate::update::{
    available_update, ending, update_plan, InstallUpdateView, Platform, UpdateLookupView,
    UpdateOutcomeView, UpdateStageView, UpdateStep,
};

verus! {

/// The outcomes of the first two steps of an update, as a look at the update server gives them.
pub open spec fn lookup_outcomes(lookup: UpdateLookupView) -> Seq<UpdateOutcomeView> {
    match lookup {
        UpdateLookupView::BuildFailed(cause) => seq![UpdateOutcomeView::Failed(cause)],
        UpdateLookupView::CheckFailed(cause) => seq![
            UpdateOutcomeView::Done,
            UpdateOutcomeView::Failed(cause),
        ],
        UpdateLookupView::Checked(None) => seq![
            UpdateOutcomeView::Done,
            UpdateOutcomeView::NoUpdate,
        ],
        UpdateLookupView::Checked(Some(_)) => seq![
            UpdateOutcomeView::Done,
            UpdateOutcomeView::Done,
        ],
    }
}

proof fn lemma_plan_from(
    update: InstallUpdateView,
    done: nat,
    outcomes: Seq<UpdateOutcomeView>,
)
    requires
        update.stage == UpdateStageView::Performed(done),
        update.well_formed(),
    ensures
        ({
            let plan = update_plan(update.platform);
            let performed = update.performed(outcomes);
            let count = performed.len() as int;
            &&& count <= outcomes.len()
            &&& done + count <= plan.len()
            &&& performed == plan.subrange(done as int, done + count)
            &&& forall|i: int|
                0 <= i < count - 1 ==> #[trigger] ending(
                    update.platform,
                    plan[done + i],
                    outcomes[i],
                ) is None
            &&& match update.run(outcomes).stage {
                UpdateStageView::Performed(total) => {
                    &&& count == outcomes.len()
                    &&& total == done + count
                    &&& total < plan.len()
                    &&& count > 0 ==> ending(
                        update.platform,
                        plan[done + count - 1],
                        outcomes[count - 1],
                    ) is None
                },
                UpdateStageView::Finished(reply) => {
                    &&& count > 0
                    &&& match ending(
                        update.platform,
                        plan[done + count - 1],
                        outcomes[count - 1],
                    ) {
                        Some(ended) => reply == ended,
                        None => done + count == plan.len() && reply == Ok::<bool, Seq<char>>(true),
                    }
                },
            }
        }),
    decreases outcomes.len(),
{
    let plan = update_plan(update.platform);
    let performed = update.performed(outcomes);
    if outcomes.len() == 0 {
        assert(performed =~= plan.subrange(done as int, done as int));
    } else {
        let rest = outcomes.drop_first();
        let next = update.next(outcomes.first());
        if next.stage is Performed {
            lemma_plan_from(next, done + 1, rest);
            let later = next.performed(rest);
            assert(performed == seq![plan[done as int]] + later);
            assert(performed =~= plan.subrange(done as int, done as int + performed.len()));
            assert forall|i: int| 0 <= i < performed.len() - 1 implies #[trigger] ending(
                update.platform,
                plan[done + i],
                outcomes[i],
            ) is None by {
                if i > 0 {
                    assert(ending(update.platform, plan[(done + 1) + (i - 1)], rest[i - 1]) is None);
                }
            }
            if later.len() > 0 {
                assert(rest[later.len() - 1] == outcomes[performed.len() - 1]);
            }
        } else {
            lemma_finished_stays(next, rest);
            assert(performed =~= seq![plan[done as int]]);
            assert(performed =~= plan.subrange(done as int, done as int + 1));
        }
    }
}

proof fn lemma_finished_stays(update: InstallUpdateView, outcomes: Seq<UpdateOutcomeView>)
    requires
        update.stage is Finished,
    ensures
        update.run(outcomes) == update,
        update.performed(outcomes) == Seq::<UpdateStep>::empty(),
    decreases outcomes.len(),
{
    if outcomes.len() > 0 {
        lemma_finished_stays(update, outcomes.drop_first());
    }
}

/// An update keeps to its plan. The steps that it performs are the first ones of the plan, each
/// after the one before it has left the update going. While it goes on, the step that is due is
/// the next one of the plan. It is over either because its last step has ended it, with the
/// reply of that step, or because the plan is done, with success.
pub proof fn law_update_keeps_to_its_plan(platform: Platform, outcomes: Seq<UpdateOutcomeView>)
    ensures
        ({
            let plan = update_plan(platform);
            let update = InstallUpdateView::start(platform);
            let performed = update.performed(outcomes);
            let count = performed.len() as int;
            &&& count <= outcomes.len()
            &&& count <= plan.len()
            &&& performed == plan.take(count)
            &&& forall|i: int|
                0 <= i < count - 1 ==> #[trigger] ending(platform, plan[i], outcomes[i]) is None
            &&& match update.run(outcomes).step() {
                Some(step) => {
                    &&& count == outcomes.len()
                    &&& count < plan.len()
                    &&& step == plan[count]
                    &&& count > 0 ==> ending(platform, plan[count - 1], outcomes[count - 1]) is None
                },
                None => {
                    &&& count > 0
                    &&& update.run(outcomes).stage == UpdateStageView::Finished(
                        match ending(platform, plan[count - 1], outcomes[count - 1]) {
                            Some(reply) => reply,
                            None => Ok(true),
                        },
                    )
                    &&& ending(platform, plan[count - 1], outcomes[count - 1]) is None ==> count
                        == plan.len()
                },
            }
        }),
{
    let plan = update_plan(platform);
    let update = InstallUpdateView::start(platform);
    lemma_plan_from(update, 0, outcomes);
    let performed = update.performed(outcomes);
    assert(performed =~= plan.take(performed.len() as int));
    assert forall|i: int| 0 <= i < performed.len() - 1 implies #[trigger] ending(
        platform,
        plan[i],
        outcomes[i],
    ) is None by {
        assert(ending(platform, plan[0 + i], outcomes[i]) is None);
    }
    lemma_platform_is_kept(update, outcomes);
}

proof fn lemma_platform_is_kept(update: InstallUpdateView, outcomes: Seq<UpdateOutcomeView>)
    ensures
        update.run(outcomes).platform == update.platform,
    decreases outcomes.len(),
{
    if outcomes.len() > 0 {
        lemma_platform_is_kept(update.next(outcomes.first()), outcomes.drop_first());
    }
}

/// An update is over once as many outcomes have come in as its plan has steps.
pub proof fn law_update_finishes(platform: Platform, outcomes: Seq<UpdateOutcomeView>)
    requires
        outcomes.len() >= update_plan(platform).len(),
    ensures
        InstallUpdateView::start(platform).run(outcomes).stage is Finished,
{
    law_update_keeps_to_its_plan(platform, outcomes);
}

/// Whether the installation has been performed and has not failed.
pub open spec fn is_installed(platform: Platform, outcomes: Seq<UpdateOutcomeView>) -> bool {
    let performed = InstallUpdateView::start(platform).performed(outcomes);
    exists|i: int|
        0 <= i < performed.len() && #[trigger] performed[i] == UpdateStep::Install && !(
        outcomes[i] is Failed)
}

/// Whether a step on the way out of the running instance has been performed.
pub open spec fn is_leaving(platform: Platform, outcomes: Seq<UpdateOutcomeView>) -> bool {
    let performed = InstallUpdateView::start(platform).performed(outcomes);
    exists|i: int| 0 <= i < performed.len() && #[trigger] performed[i] is Exit
}

/// Except on Windows, the way out begins only after the installation has gone well, so an update
/// that fails, or finds nothing to install, leaves the instance running as it was.
pub proof fn law_failed_update_leaves_the_instance_running(outcomes: Seq<UpdateOutcomeView>)
    ensures
        is_leaving(Platform::Other, outcomes) ==> is_installed(Platform::Other, outcomes),
        match InstallUpdateView::start(Platform::Other).run(outcomes).stage {
            UpdateStageView::Finished(reply) => is_leaving(Platform::Other, outcomes) ==> reply
                == Ok::<bool, Seq<char>>(true),
            UpdateStageView::Performed(_) => true,
        },
{
    law_update_keeps_to_its_plan(Platform::Other, outcomes);
    let plan = update_plan(Platform::Other);
    let performed = InstallUpdateView::start(Platform::Other).performed(outcomes);
    if is_leaving(Platform::Other, outcomes) {
        let i = choose|i: int| 0 <= i < performed.len() && #[trigger] performed[i] is Exit;
        assert(performed[i] == plan[i]);
        assert(performed[3] == UpdateStep::Install);
        assert(ending(Platform::Other, plan[3], outcomes[3]) is None);
    }
}

/// On Windows the installer is started only once the whole way out is prepared, and no restart
/// is asked for: the installer takes care of it.
pub proof fn law_windows_prepares_before_installing(outcomes: Seq<UpdateOutcomeView>)
    ensures
        ({
            let performed = InstallUpdateView::start(Platform::Windows).performed(outcomes);
            &&& performed.contains(UpdateStep::Install) ==> performed == update_plan(
                Platform::Windows,
            )
            &&& !performed.contains(UpdateStep::Exit(ExitStep::Restart))
        }),
{
    law_update_keeps_to_its_plan(Platform::Windows, outcomes);
    let plan = update_plan(Platform::Windows);
    let performed = InstallUpdateView::start(Platform::Windows).performed(outcomes);
    if performed.contains(UpdateStep::Install) {
        let i = choose|i: int| 0 <= i < performed.len() && performed[i] == UpdateStep::Install;
        assert(performed[i] == plan[i]);
        assert(performed =~= plan);
    }
}

/// A restart comes last, after an installation that has gone well and after the clean-up.
pub proof fn law_restart_comes_last(platform: Platform, outcomes: Seq<UpdateOutcomeView>)
    requires
        InstallUpdateView::start(platform).performed(outcomes).contains(
            UpdateStep::Exit(ExitStep::Restart),
        ),
    ensures
        is_installed(platform, outcomes),
        InstallUpdateView::start(platform).performed(outcomes) == update_plan(platform),
        update_plan(platform).contains(UpdateStep::Exit(ExitStep::CleanUp)),
        update_plan(platform).last() == UpdateStep::Exit(ExitStep::Restart),
{
    law_update_keeps_to_its_plan(platform, outcomes);
    let plan = update_plan(platform);
    let performed = InstallUpdateView::start(platform).performed(outcomes);
    let i = choose|i: int|
        0 <= i < performed.len() && performed[i] == UpdateStep::Exit(ExitStep::Restart);
    assert(performed[i] == plan[i]);
    assert(performed =~= plan);
    assert(performed[3] == UpdateStep::Install);
    assert(ending(platform, plan[3], outcomes[3]) is None);
    assert(plan[5] == UpdateStep::Exit(ExitStep::CleanUp));
}

/// What an update replies: success only if it has been installed, and `false` exactly if the
/// check has found nothing newer.
pub proof fn law_update_reply(
    platform: Platform,
    outcomes: Seq<UpdateOutcomeView>,
    reply: Result<bool, Seq<char>>,
)
    requires
        InstallUpdateView::start(platform).run(outcomes).stage == UpdateStageView::Finished(reply),
    ensures
        reply == Ok::<bool, Seq<char>>(true) ==> is_installed(platform, outcomes),
        reply == Ok::<bool, Seq<char>>(false) <==> {
            &&& outcomes.len() >= 2
            &&& !(outcomes[0] is Failed)
            &&& outcomes[1] is NoUpdate
        },
{
    law_update_keeps_to_its_plan(platform, outcomes);
    let plan = update_plan(platform);
    let performed = InstallUpdateView::start(platform).performed(outcomes);
    let count = performed.len() as int;
    if reply == Ok::<bool, Seq<char>>(true) {
        let at: int = if platform == Platform::Windows {
            8
        } else {
            3
        };
        assert(performed[at] == UpdateStep::Install);
        assert(ending(platform, plan[at], outcomes[at]) is None);
    }
    if count > 1 {
        assert(ending(platform, plan[0], outcomes[0]) is None);
    }
    if count > 2 {
        assert(ending(platform, plan[1], outcomes[1]) is None);
    }
}

/// Installing an update sees what a check for one reports: where the check fails the update
/// fails with the same message, where there is nothing newer it replies `false`, and where a
/// version is on offer it goes on to download.
pub proof fn law_update_agrees_with_the_check(platform: Platform, lookup: UpdateLookupView)
    ensures
        ({
            let update = InstallUpdateView::start(platform).run(lookup_outcomes(lookup));
            match available_update(lookup) {
                Err(message) => update.stage == UpdateStageView::Finished(Err(message)),
                Ok(None) => update.stage == UpdateStageView::Finished(Ok(false)),
                Ok(Some(_)) => update.step() == Some(UpdateStep::Download),
            }
        }),
{
    reveal_with_fuel(InstallUpdateView::run, 3);
}

} // verus!
