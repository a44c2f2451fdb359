//! What holds of every save, however its steps go.
use vstd::prelude::*;

#[allow(unused_imports)]
use crate::merge::{frontend_settings, law_get_and_save_change_nothing};
#[allow(unused_imports)]
use crate::save::{LIVE_REWRITE_FAILED, SaveActionView, SaveSettingsView, SaveStageView};
#[allow(unused_imports)]
use crate::settings::{AppSettingsView, LocalMigrationsView};

verus! {

/// The settings without the mark of a completed migration of the official sessions. Clearing the
/// mark is taken to do this to the store, and nothing else.
pub open spec fn without_migration_mark(settings: AppSettingsView) -> AppSettingsView {
    AppSettingsView {
        local_migrations: match settings.local_migrations {
            Some(marks) => Some(
                LocalMigrationsView { codex_official_history_unify_v1: None, ..marks },
            ),
            None => None,
        },
        ..settings
    }
}

/// The settings without the wish to migrate existing sessions. Clearing the wish is taken to do
/// this to the store, and nothing else.
pub open spec fn without_migration_intent(settings: AppSettingsView) -> AppSettingsView {
    AppSettingsView { unify_codex_migrate_existing: None, ..settings }
}

/// What the steps of a save have brought about.
pub struct SaveEffects {
    /// The settings that the store was last made to hold. A write or a clearing that fails leaves
    /// the store as it was; a clearing that goes well changes the one entry that it is about.
    pub written: AppSettingsView,
    /// The position of the switch that the live configuration follows, as far as it is known: a
    /// rewrite that fails may have changed a part of it.
    pub live: Option<bool>,
    /// Whether the store would not take the merged settings.
    pub write_refused: bool,
    /// Whether the store would not take the settings before the save back.
    pub settings_restore_refused: bool,
    /// Whether the live configuration could not be rewritten from the settings before the save.
    pub live_restore_refused: bool,
    pub migration_started: bool,
    /// Whether clearing the mark of a completed migration went well, once it was tried.
    pub mark_cleared: Option<bool>,
    /// Whether clearing the wish to migrate existing sessions went well, once it was tried.
    pub intent_cleared: Option<bool>,
}

impl SaveEffects {
    /// Before the first step: the store holds `existing` and the live configuration follows `live`,
    /// whatever that is.
    pub open spec fn none(existing: AppSettingsView, live: Option<bool>) -> Self {
        SaveEffects {
            written: existing,
            live,
            write_refused: false,
            settings_restore_refused: false,
            live_restore_refused: false,
            migration_started: false,
            mark_cleared: None,
            intent_cleared: None,
        }
    }

    /// After one more step.
    pub open spec fn after(self, action: SaveActionView, outcome: Result<(), Seq<char>>) -> Self {
        match action {
            SaveActionView::WriteSettings(settings) => if outcome is Ok {
                SaveEffects { written: settings, ..self }
            } else {
                SaveEffects { write_refused: true, ..self }
            },
            SaveActionView::RewriteLive => if outcome is Ok {
                SaveEffects { live: Some(self.written.unify_codex_session_history), ..self }
            } else {
                SaveEffects { live: None, ..self }
            },
            SaveActionView::RestoreSettings(settings) => if outcome is Ok {
                SaveEffects { written: settings, ..self }
            } else {
                SaveEffects { settings_restore_refused: true, ..self }
            },
            SaveActionView::RestoreLive => if outcome is Ok {
                SaveEffects { live: Some(self.written.unify_codex_session_history), ..self }
            } else {
                SaveEffects { live: None, live_restore_refused: true, ..self }
            },
            SaveActionView::StartMigration => SaveEffects { migration_started: true, ..self },
            SaveActionView::ClearMigrationMark => if outcome is Ok {
                SaveEffects {
                    written: without_migration_mark(self.written),
                    mark_cleared: Some(true),
                    ..self
                }
            } else {
                SaveEffects { mark_cleared: Some(false), ..self }
            },
            SaveActionView::ClearMigrationIntent => if outcome is Ok {
                SaveEffects {
                    written: without_migration_intent(self.written),
                    intent_cleared: Some(true),
                    ..self
                }
            } else {
                SaveEffects { intent_cleared: Some(false), ..self }
            },
            SaveActionView::Reply(_) => self,
        }
    }

    /// What the store holds of `merged` after the clearings that went well.
    pub open spec fn as_cleared(self, merged: AppSettingsView) -> AppSettingsView {
        let unmarked = if self.mark_cleared == Some(true) {
            without_migration_mark(merged)
        } else {
            merged
        };
        if self.intent_cleared == Some(true) {
            without_migration_intent(unmarked)
        } else {
            unmarked
        }
    }
}

/// What the steps of `save` have brought about once they have gone as `outcomes` says, on top of
/// `before`.
pub open spec fn effects(
    save: SaveSettingsView,
    outcomes: Seq<Result<(), Seq<char>>>,
    before: SaveEffects,
) -> SaveEffects
    decreases outcomes.len(),
{
    if outcomes.len() == 0 {
        before
    } else {
        effects(
            save.next(outcomes.first()),
            outcomes.drop_first(),
            before.after(save.action(), outcomes.first()),
        )
    }
}

/// What the stage of a save says about the effects so far, if the live configuration followed
/// `before` when it started.
spec fn stage_explains(
    save: SaveSettingsView,
    before: Option<bool>,
    so_far: SaveEffects,
) -> bool {
    let none = SaveEffects::none(save.existing, before);
    let written = SaveEffects { written: save.merged, ..none };
    let on = save.merged.unify_codex_session_history;
    let live = SaveEffects { live: Some(on), ..written };
    match save.stage {
        SaveStageView::WritingSettings => so_far == none,
        SaveStageView::RewritingLive => save.flips_switch() && so_far == written,
        SaveStageView::RestoringSettings { .. } => save.flips_switch() && so_far == SaveEffects {
            live: None,
            ..written
        },
        SaveStageView::RestoringLive { .. } => save.flips_switch() && so_far == SaveEffects {
            live: None,
            ..none
        },
        SaveStageView::StartingMigration => save.flips_switch() && on && so_far == live,
        SaveStageView::ClearingMigrationMark => save.flips_switch() && !on && so_far == live,
        SaveStageView::ClearingMigrationIntent => save.flips_switch() && !on
            && so_far.mark_cleared is Some && so_far == SaveEffects {
            written: so_far.as_cleared(save.merged),
            mark_cleared: so_far.mark_cleared,
            ..live
        },
        SaveStageView::Finished(Ok(saved)) => {
            &&& saved
            &&& so_far.mark_cleared is Some <==> save.flips_switch() && !on
            &&& so_far.intent_cleared is Some <==> save.flips_switch() && !on
            &&& so_far == SaveEffects {
                written: so_far.as_cleared(save.merged),
                migration_started: save.flips_switch() && on,
                mark_cleared: so_far.mark_cleared,
                intent_cleared: so_far.intent_cleared,
                ..if save.flips_switch() {
                    live
                } else {
                    written
                }
            }
        },
        SaveStageView::Finished(Err(_)) => {
            ||| so_far == SaveEffects { write_refused: true, ..none }
            ||| save.flips_switch() && so_far == SaveEffects {
                live: Some(save.existing.unify_codex_session_history),
                ..none
            }
            ||| save.flips_switch() && so_far == SaveEffects {
                live: None,
                settings_restore_refused: true,
                ..written
            }
            ||| save.flips_switch() && so_far == SaveEffects {
                live: None,
                live_restore_refused: true,
                ..none
            }
        },
    }
}

proof fn lemma_stage_explains(
    save: SaveSettingsView,
    outcomes: Seq<Result<(), Seq<char>>>,
    before: Option<bool>,
    so_far: SaveEffects,
)
    requires
        stage_explains(save, before, so_far),
    ensures
        stage_explains(save.run(outcomes), before, effects(save, outcomes, so_far)),
        save.run(outcomes).merged == save.merged,
        save.run(outcomes).existing == save.existing,
    decreases outcomes.len(),
{
    if outcomes.len() > 0 {
        lemma_stage_explains(
            save.next(outcomes.first()),
            outcomes.drop_first(),
            before,
            so_far.after(save.action(), outcomes.first()),
        );
    }
}

/// A save is over after four steps at most, and after one where it leaves the switch alone.
pub proof fn law_save_finishes(
    incoming: AppSettingsView,
    existing: AppSettingsView,
    outcomes: Seq<Result<(), Seq<char>>>,
)
    ensures
        ({
            let save = SaveSettingsView::start(incoming, existing);
            &&& outcomes.len() >= 4 ==> save.run(outcomes).is_finished()
            &&& outcomes.len() >= 1 && incoming.unify_codex_session_history
                == existing.unify_codex_session_history ==> save.run(outcomes).is_finished()
        }),
{
    let save = SaveSettingsView::start(incoming, existing);
    if outcomes.len() >= save.steps_left() {
        lemma_finishes(save, outcomes);
    }
}

proof fn lemma_finishes(save: SaveSettingsView, outcomes: Seq<Result<(), Seq<char>>>)
    requires
        outcomes.len() >= save.steps_left(),
    ensures
        save.run(outcomes).is_finished(),
    decreases outcomes.len(),
{
    if outcomes.len() > 0 {
        lemma_finishes(save.next(outcomes.first()), outcomes.drop_first());
    }
}

/// A save that has its reply keeps it, and nothing more is done.
pub proof fn law_reply_is_final(
    save: SaveSettingsView,
    outcomes: Seq<Result<(), Seq<char>>>,
    before: SaveEffects,
)
    requires
        save.is_finished(),
    ensures
        save.run(outcomes) == save,
        effects(save, outcomes, before) == before,
    decreases outcomes.len(),
{
    if outcomes.len() > 0 {
        law_reply_is_final(save, outcomes.drop_first(), before);
    }
}

/// A save takes effect as a whole or not at all. If it succeeds the store holds the merged
/// settings, less the traces of a migration that switching off has cleared. If it fails the store
/// holds the settings before, except where it would not take them back: there it still holds the
/// merged ones.
pub proof fn law_save_is_all_or_nothing(
    incoming: AppSettingsView,
    existing: AppSettingsView,
    before: Option<bool>,
    outcomes: Seq<Result<(), Seq<char>>>,
)
    ensures
        ({
            let save = SaveSettingsView::start(incoming, existing);
            let done = effects(save, outcomes, SaveEffects::none(existing, before));
            let switched_off = existing.unify_codex_session_history
                && !incoming.unify_codex_session_history;
            match save.run(outcomes).stage {
                SaveStageView::Finished(Ok(saved)) => {
                    &&& saved
                    &&& done.written == done.as_cleared(save.merged)
                    &&& !switched_off ==> done.written == save.merged
                    &&& !done.settings_restore_refused
                    &&& !done.live_restore_refused
                },
                SaveStageView::Finished(Err(_)) => done.written
                    == if done.settings_restore_refused {
                    save.merged
                } else {
                    existing
                },
                _ => true,
            }
        }),
{
    lemma_stage_explains(
        SaveSettingsView::start(incoming, existing),
        outcomes,
        before,
        SaveEffects::none(existing, before),
    );
}

/// The live configuration, whatever switch position it followed before the save, follows the new
/// one after a save that succeeds in flipping the switch, and the old one after a failed flip that
/// could be undone. It is as before if the switch is left alone or the settings are not written,
/// and unknown only where the undoing was refused. So, if it followed the switch before, it
/// follows the switch as the store holds it afterwards.
pub proof fn law_live_follows_the_switch(
    incoming: AppSettingsView,
    existing: AppSettingsView,
    before: Option<bool>,
    outcomes: Seq<Result<(), Seq<char>>>,
)
    ensures
        ({
            let save = SaveSettingsView::start(incoming, existing);
            let done = effects(save, outcomes, SaveEffects::none(existing, before));
            let flips = incoming.unify_codex_session_history
                != existing.unify_codex_session_history;
            let undone = !done.settings_restore_refused && !done.live_restore_refused;
            match save.run(outcomes).stage {
                SaveStageView::Finished(reply) => {
                    &&& reply is Ok ==> done.live == if flips {
                        Some(incoming.unify_codex_session_history)
                    } else {
                        before
                    }
                    &&& reply is Err ==> done.live == if done.write_refused {
                        before
                    } else if undone {
                        Some(existing.unify_codex_session_history)
                    } else {
                        None
                    }
                    &&& before == Some(existing.unify_codex_session_history) && undone ==> done.live
                        == Some(done.written.unify_codex_session_history)
                },
                _ => true,
            }
        }),
{
    lemma_stage_explains(
        SaveSettingsView::start(incoming, existing),
        outcomes,
        before,
        SaveEffects::none(existing, before),
    );
}

/// Existing sessions are migrated exactly by the saves that succeed in turning the switch on,
/// and clearing the traces of an earlier migration is tried exactly by those that succeed in
/// turning it off. Before the reply, either happens only while the store holds the merged
/// settings, less what has been cleared, and the live configuration follows them.
pub proof fn law_migration_follows_the_switch(
    incoming: AppSettingsView,
    existing: AppSettingsView,
    before: Option<bool>,
    outcomes: Seq<Result<(), Seq<char>>>,
)
    ensures
        ({
            let save = SaveSettingsView::start(incoming, existing);
            let end = save.run(outcomes);
            let done = effects(save, outcomes, SaveEffects::none(existing, before));
            let on = incoming.unify_codex_session_history;
            let flips = on != existing.unify_codex_session_history;
            &&& end.is_finished() ==> {
                &&& done.migration_started <==> end.stage->Finished_0 is Ok && flips && on
                &&& done.mark_cleared is Some <==> end.stage->Finished_0 is Ok && flips && !on
                &&& done.intent_cleared is Some <==> end.stage->Finished_0 is Ok && flips && !on
            }
            &&& done.migration_started || done.mark_cleared is Some || done.intent_cleared is Some
                || end.action() is StartMigration || end.action() is ClearMigrationMark
                || end.action() is ClearMigrationIntent ==> flips && done.written
                == done.as_cleared(save.merged) && done.live == Some(on)
        }),
{
    lemma_stage_explains(
        SaveSettingsView::start(incoming, existing),
        outcomes,
        before,
        SaveEffects::none(existing, before),
    );
}

/// After a save that succeeds in turning the switch off, with both clearings gone well, nothing in
/// the store speaks of a migration of the official sessions any more, so that turning the switch
/// on again can migrate anew. All else in the store is as the save merged it.
pub proof fn law_switching_off_forgets_the_migration(
    incoming: AppSettingsView,
    existing: AppSettingsView,
    before: Option<bool>,
    outcomes: Seq<Result<(), Seq<char>>>,
)
    requires
        existing.unify_codex_session_history,
        !incoming.unify_codex_session_history,
        outcomes.len() >= 4,
        forall|i: int| 0 <= i < 4 ==> #[trigger] outcomes[i] is Ok,
    ensures
        ({
            let save = SaveSettingsView::start(incoming, existing);
            let done = effects(save, outcomes, SaveEffects::none(existing, before));
            &&& save.run(outcomes).stage == SaveStageView::Finished(Ok(true))
            &&& done.written.unify_codex_migrate_existing is None
            &&& done.written.local_migrations matches Some(marks)
                ==> marks.codex_official_history_unify_v1 is None
            &&& done.written == without_migration_intent(without_migration_mark(save.merged))
        }),
{
    let save = SaveSettingsView::start(incoming, existing);
    let none = SaveEffects::none(existing, before);
    reveal_with_fuel(SaveSettingsView::run, 5);
    reveal_with_fuel(effects, 5);
    let after1 = outcomes.drop_first();
    let after2 = after1.drop_first();
    let after3 = after2.drop_first();
    let after4 = after3.drop_first();
    assert(after1.first() == outcomes[1]);
    assert(after2.first() == outcomes[2]);
    assert(after3.first() == outcomes[3]);
    let written = save.next(outcomes[0]);
    let rewritten = written.next(outcomes[1]);
    let unmarked = rewritten.next(outcomes[2]);
    let finished = unmarked.next(outcomes[3]);
    let done = none.after(save.action(), outcomes[0]).after(written.action(), outcomes[1]).after(
        rewritten.action(),
        outcomes[2],
    ).after(unmarked.action(), outcomes[3]);
    law_reply_is_final(finished, after4, done);
}

/// The reply of a finished save: the failure to write the settings as it is, the failure to
/// rewrite the live configuration behind its label, or success. How the undoing of a failed save
/// or the steps after a successful rewrite go makes no difference.
pub proof fn law_reply_names_the_cause(
    incoming: AppSettingsView,
    existing: AppSettingsView,
    outcomes: Seq<Result<(), Seq<char>>>,
)
    requires
        SaveSettingsView::start(incoming, existing).run(outcomes).is_finished(),
    ensures
        ({
            let save = SaveSettingsView::start(incoming, existing);
            &&& outcomes.len() >= 1
            &&& save.flips_switch() && outcomes[0] is Ok ==> outcomes.len() >= 2
            &&& save.run(outcomes).action() == SaveActionView::Reply(
                match outcomes[0] {
                    Err(cause) => Err(cause),
                    Ok(()) => if save.flips_switch() && outcomes[1] is Err {
                        Err(LIVE_REWRITE_FAILED@ + outcomes[1]->Err_0)
                    } else {
                        Ok(true)
                    },
                },
            )
        }),
{
    reveal_with_fuel(SaveSettingsView::run, 3);
    let save = SaveSettingsView::start(incoming, existing);
    let written = save.next(outcomes[0]);
    let rest = outcomes.drop_first();
    if written.is_finished() {
        law_reply_is_final(written, rest, SaveEffects::none(existing, None));
    } else {
        assert(rest.len() > 0);
        let rewritten = written.next(outcomes[1]);
        assert(rest.first() == outcomes[1]);
        lemma_reply_is_settled(rewritten, rest.drop_first());
    }
}

/// The reply that a save past its first two steps is bound to give.
spec fn settled_reply(save: SaveSettingsView) -> Result<bool, Seq<char>> {
    match save.stage {
        SaveStageView::RestoringSettings { cause } => Err(LIVE_REWRITE_FAILED@ + cause),
        SaveStageView::RestoringLive { cause } => Err(LIVE_REWRITE_FAILED@ + cause),
        SaveStageView::Finished(reply) => reply,
        _ => Ok(true),
    }
}

proof fn lemma_reply_is_settled(save: SaveSettingsView, outcomes: Seq<Result<(), Seq<char>>>)
    requires
        !(save.stage is WritingSettings),
        !(save.stage is RewritingLive),
        save.run(outcomes).is_finished(),
    ensures
        save.run(outcomes).action() == SaveActionView::Reply(settled_reply(save)),
    decreases outcomes.len(),
{
    if outcomes.len() > 0 {
        lemma_reply_is_settled(save.next(outcomes.first()), outcomes.drop_first());
    }
}

/// Saving back what the frontend was shown writes the settings that are in force already, and
/// nothing else is done.
pub proof fn law_saving_what_was_shown_is_a_plain_write(
    settings: AppSettingsView,
    outcome: Result<(), Seq<char>>,
)
    ensures
        ({
            let save = SaveSettingsView::start(frontend_settings(settings), settings);
            &&& save.action() == SaveActionView::WriteSettings(settings)
            &&& save.next(outcome).is_finished()
        }),
{
    law_get_and_save_change_nothing(settings);
}

/// A save that leaves the switch alone writes the settings and does nothing else; its reply is
/// that of the write.
pub proof fn law_switch_left_alone_is_a_plain_write(
    incoming: AppSettingsView,
    existing: AppSettingsView,
    outcome: Result<(), Seq<char>>,
)
    requires
        incoming.unify_codex_session_history == existing.unify_codex_session_history,
    ensures
        ({
            let save = SaveSettingsView::start(incoming, existing);
            &&& save.action() == SaveActionView::WriteSettings(save.merged)
            &&& save.next(outcome).action() == SaveActionView::Reply(
                match outcome {
                    Ok(()) => Ok(true),
                    Err(cause) => Err(cause),
                },
            )
        }),
{
}

} // verus!
