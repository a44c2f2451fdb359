//! What a save asks for, step by step, in terms of what comes in and how its steps go.
use vstd::prelude::*;

#[allow(unused_imports)]
use crate::merge::merge_settings_for_save;
#[allow(unused_imports)]
use crate::merge_laws::{
    law_models_hold_every_field, lemma_same_marks, same_marks, same_settings,
};
#[allow(unused_imports)]
use crate::save::{save_settings, SaveAction, SaveSettings, SaveStageView};
#[allow(unused_imports)]
use crate::settings::{option_view, AppSettings};

verus! {

/// Whether `saves` are the stages of a save of `settings` over `existing` whose steps go as
/// `outcomes` says, and `due` is what each stage asks for.
pub open spec fn is_save_run(
    settings: AppSettings,
    existing: AppSettings,
    saves: Seq<SaveSettings>,
    outcomes: Seq<Result<(), String>>,
    due: Seq<SaveAction>,
) -> bool {
    &&& saves.len() == outcomes.len() + 1
    &&& due.len() == saves.len()
    &&& call_ensures(save_settings, (settings, existing), saves[0])
    &&& forall|i: int|
        0 <= i < outcomes.len() ==> call_ensures(
            SaveSettings::next,
            (saves[i], #[trigger] outcomes[i]),
            saves[i + 1],
        )
    &&& forall|i: int|
        0 <= i < due.len() ==> call_ensures(SaveSettings::action, (&saves[i],), #[trigger] due[i])
}

/// A save begins by writing the WebDAV account as it comes in, with the stored secret only where the
/// incoming one is blank, or the stored one where none comes in.
pub proof fn law_save_writes_the_webdav_that_comes_in(
    settings: AppSettings,
    existing: AppSettings,
    save: SaveSettings,
    action: SaveAction,
)
    requires
        call_ensures(save_settings, (settings, existing), save),
        call_ensures(SaveSettings::action, (&save,), action),
    ensures
        action is WriteSettings,
        settings.webdav_sync is Some ==> {
            &&& action->WriteSettings_0.webdav_sync is Some
            &&& action->WriteSettings_0.webdav_sync->0.base_url@ == settings.webdav_sync->0.base_url@
            &&& action->WriteSettings_0.webdav_sync->0.username@ == settings.webdav_sync->0.username@
            &&& action->WriteSettings_0.webdav_sync->0.other@ == settings.webdav_sync->0.other@
            &&& settings.webdav_sync->0.password@.len() > 0 ==>
                    action->WriteSettings_0.webdav_sync->0.password@
                        == settings.webdav_sync->0.password@
            &&& settings.webdav_sync->0.password@.len() == 0 && existing.webdav_sync is Some ==>
                    action->WriteSettings_0.webdav_sync->0.password@
                        == existing.webdav_sync->0.password@
            &&& settings.webdav_sync->0.password@.len() == 0 && existing.webdav_sync is None ==>
                    action->WriteSettings_0.webdav_sync->0.password@.len() == 0
        },
        settings.webdav_sync is None ==> {
            &&& action->WriteSettings_0.webdav_sync is Some <==> existing.webdav_sync is Some
            &&& existing.webdav_sync is Some ==>
                    action->WriteSettings_0.webdav_sync->0.base_url@
                        == existing.webdav_sync->0.base_url@
            &&& existing.webdav_sync is Some ==>
                    action->WriteSettings_0.webdav_sync->0.username@
                        == existing.webdav_sync->0.username@
            &&& existing.webdav_sync is Some ==>
                    action->WriteSettings_0.webdav_sync->0.password@
                        == existing.webdav_sync->0.password@
            &&& existing.webdav_sync is Some ==>
                    action->WriteSettings_0.webdav_sync->0.other@ == existing.webdav_sync->0.other@
        },
{
    let written = action->WriteSettings_0;
    assert(action@ == save@.action());
    assert(written@.webdav_sync == option_view(written.webdav_sync));
}

/// A save begins by writing the S3 bucket as it comes in, with the stored secret only where the
/// incoming one is blank, or the stored one where none comes in.
pub proof fn law_save_writes_the_s3_that_comes_in(
    settings: AppSettings,
    existing: AppSettings,
    save: SaveSettings,
    action: SaveAction,
)
    requires
        call_ensures(save_settings, (settings, existing), save),
        call_ensures(SaveSettings::action, (&save,), action),
    ensures
        action is WriteSettings,
        settings.s3_sync is Some ==> {
            &&& action->WriteSettings_0.s3_sync is Some
            &&& action->WriteSettings_0.s3_sync->0.bucket@ == settings.s3_sync->0.bucket@
            &&& action->WriteSettings_0.s3_sync->0.access_key_id@ == settings.s3_sync->0.access_key_id@
            &&& action->WriteSettings_0.s3_sync->0.other@ == settings.s3_sync->0.other@
            &&& settings.s3_sync->0.secret_access_key@.len() > 0 ==>
                    action->WriteSettings_0.s3_sync->0.secret_access_key@
                        == settings.s3_sync->0.secret_access_key@
            &&& settings.s3_sync->0.secret_access_key@.len() == 0 && existing.s3_sync is Some ==>
                    action->WriteSettings_0.s3_sync->0.secret_access_key@
                        == existing.s3_sync->0.secret_access_key@
            &&& settings.s3_sync->0.secret_access_key@.len() == 0 && existing.s3_sync is None ==>
                    action->WriteSettings_0.s3_sync->0.secret_access_key@.len() == 0
        },
        settings.s3_sync is None ==> {
            &&& action->WriteSettings_0.s3_sync is Some <==> existing.s3_sync is Some
            &&& existing.s3_sync is Some ==>
                    action->WriteSettings_0.s3_sync->0.bucket@ == existing.s3_sync->0.bucket@
            &&& existing.s3_sync is Some ==>
                    action->WriteSettings_0.s3_sync->0.access_key_id@
                        == existing.s3_sync->0.access_key_id@
            &&& existing.s3_sync is Some ==>
                    action->WriteSettings_0.s3_sync->0.secret_access_key@
                        == existing.s3_sync->0.secret_access_key@
            &&& existing.s3_sync is Some ==>
                    action->WriteSettings_0.s3_sync->0.other@ == existing.s3_sync->0.other@
        },
{
    let written = action->WriteSettings_0;
    assert(action@ == save@.action());
    assert(written@.s3_sync == option_view(written.s3_sync));
}

/// A save begins by writing every other preference as it comes in, with the migration marks that
/// are stored.
pub proof fn law_save_writes_the_preferences_that_come_in(
    settings: AppSettings,
    existing: AppSettings,
    save: SaveSettings,
    action: SaveAction,
)
    requires
        call_ensures(save_settings, (settings, existing), save),
        call_ensures(SaveSettings::action, (&save,), action),
    ensures
        action is WriteSettings,
        action->WriteSettings_0.current_provider_codex is Some <==> settings.current_provider_codex is Some,
        settings.current_provider_codex is Some ==>
            action->WriteSettings_0.current_provider_codex->0@
                == settings.current_provider_codex->0@,
        action->WriteSettings_0.unify_codex_session_history == settings.unify_codex_session_history,
        action->WriteSettings_0.unify_codex_migrate_existing == settings.unify_codex_migrate_existing,
        action->WriteSettings_0.other@ == settings.other@,
        same_marks(action->WriteSettings_0.local_migrations, existing.local_migrations),
{
    let written = action->WriteSettings_0;
    assert(action@ == save@.action());
    assert(written@.current_provider_codex == settings@.current_provider_codex);
    lemma_same_marks(written.local_migrations, existing.local_migrations);
}

/// A save begins by writing what merging the settings gives.
pub proof fn law_save_writes_the_merged_settings(
    settings: AppSettings,
    existing: AppSettings,
    save: SaveSettings,
    action: SaveAction,
    merged: AppSettings,
)
    requires
        call_ensures(save_settings, (settings, existing), save),
        call_ensures(SaveSettings::action, (&save,), action),
        call_ensures(merge_settings_for_save, (settings, &existing), merged),
    ensures
        action is WriteSettings,
        same_settings(action->WriteSettings_0, merged),
{
    assert(action@ == save@.action());
    law_models_hold_every_field(action->WriteSettings_0, merged);
}

/// After the write: a write that fails is the reply. One that goes well is followed by a rewrite of
/// the live configuration if the switch is to change, and otherwise by the reply `true`.
pub proof fn law_what_follows_the_write(
    settings: AppSettings,
    existing: AppSettings,
    saves: Seq<SaveSettings>,
    outcomes: Seq<Result<(), String>>,
    due: Seq<SaveAction>,
)
    requires
        is_save_run(settings, existing, saves, outcomes, due),
        outcomes.len() >= 1,
    ensures
        outcomes[0] is Err ==> due[1] is Reply && due[1]->Reply_0 is Err && due[1]->Reply_0->Err_0@
            == outcomes[0]->Err_0@,
        outcomes[0] is Ok && settings.unify_codex_session_history
            != existing.unify_codex_session_history ==> due[1] is RewriteLive,
        outcomes[0] is Ok && settings.unify_codex_session_history
            == existing.unify_codex_session_history ==> due[1] is Reply && due[1]->Reply_0 == Ok::<
            bool,
            String,
        >(true),
{
    assert(call_ensures(SaveSettings::next, (saves[0], outcomes[0]), saves[1]));
    assert(call_ensures(SaveSettings::action, (&saves[1],), due[1]));
    assert(due[1]@ == saves[1]@.action());
}

/// After the rewrite of the live configuration: if it fails, the settings before the save are to
/// be written back. If it goes well, the migration starts where the switch is on now, and the
/// traces of an earlier one are cleared where it is off.
pub proof fn law_what_follows_the_rewrite(
    settings: AppSettings,
    existing: AppSettings,
    saves: Seq<SaveSettings>,
    outcomes: Seq<Result<(), String>>,
    due: Seq<SaveAction>,
)
    requires
        is_save_run(settings, existing, saves, outcomes, due),
        outcomes.len() >= 2,
        outcomes[0] is Ok,
        settings.unify_codex_session_history != existing.unify_codex_session_history,
    ensures
        outcomes[1] is Err ==> due[2] is RestoreSettings && same_settings(
            due[2]->RestoreSettings_0,
            existing,
        ),
        outcomes[1] is Ok && settings.unify_codex_session_history ==> due[2] is StartMigration,
        outcomes[1] is Ok && !settings.unify_codex_session_history ==> due[2] is ClearMigrationMark,
{
    assert(call_ensures(SaveSettings::next, (saves[0], outcomes[0]), saves[1]));
    assert(call_ensures(SaveSettings::action, (&saves[1],), due[1]));
    assert(call_ensures(SaveSettings::next, (saves[1], outcomes[1]), saves[2]));
    assert(call_ensures(SaveSettings::action, (&saves[2],), due[2]));
    assert(due[2]@ == saves[2]@.action());
    if outcomes[1] is Err {
        law_models_hold_every_field(due[2]->RestoreSettings_0, existing);
    }
}

/// A failed rewrite of the live configuration is the reply in the end, behind its label, however
/// the undoing goes; the live configuration is rewritten once more exactly if the settings before
/// the save could be written back.
pub proof fn law_how_a_failed_rewrite_ends(
    settings: AppSettings,
    existing: AppSettings,
    saves: Seq<SaveSettings>,
    outcomes: Seq<Result<(), String>>,
    due: Seq<SaveAction>,
    last: int,
)
    requires
        is_save_run(settings, existing, saves, outcomes, due),
        3 <= last <= outcomes.len(),
        outcomes[0] is Ok,
        outcomes[1] is Err,
        settings.unify_codex_session_history != existing.unify_codex_session_history,
    ensures
        last == 3 && outcomes[2] is Ok ==> due[last] is RestoreLive,
        last > 3 || outcomes[2] is Err ==> due[last] is Reply && due[last]->Reply_0 is Err
            && due[last]->Reply_0->Err_0@
            == "统一 Codex 会话历史开关未生效（live 配置重写失败）: "@ + outcomes[1]->Err_0@,
    decreases last,
{
    assert(call_ensures(SaveSettings::action, (&saves[last],), due[last]));
    if last == 3 {
        assert(call_ensures(SaveSettings::next, (saves[0], outcomes[0]), saves[1]));
        assert(call_ensures(SaveSettings::action, (&saves[1],), due[1]));
        assert(call_ensures(SaveSettings::next, (saves[1], outcomes[1]), saves[2]));
        assert(call_ensures(SaveSettings::action, (&saves[2],), due[2]));
        assert(call_ensures(SaveSettings::next, (saves[2], outcomes[2]), saves[3]));
        assert(call_ensures(SaveSettings::action, (&saves[3],), due[3]));
    } else {
        law_how_a_failed_rewrite_ends(settings, existing, saves, outcomes, due, last - 1);
        assert(call_ensures(SaveSettings::action, (&saves[last - 1],), due[last - 1]));
        assert(due[last - 1]@ == saves[last - 1]@.action());
        assert(call_ensures(
            SaveSettings::next,
            (saves[last - 1], outcomes[last - 1]),
            saves[last - 1 + 1],
        ));
    }
    assert(due[last]@ == saves[last]@.action());
}

/// A rewrite of the live configuration that goes well makes the reply `true` in the end, however
/// the steps after it go: the migration is started, or the mark and then the wish are cleared.
pub proof fn law_how_a_successful_rewrite_ends(
    settings: AppSettings,
    existing: AppSettings,
    saves: Seq<SaveSettings>,
    outcomes: Seq<Result<(), String>>,
    due: Seq<SaveAction>,
    last: int,
)
    requires
        is_save_run(settings, existing, saves, outcomes, due),
        3 <= last <= outcomes.len(),
        outcomes[0] is Ok,
        outcomes[1] is Ok,
        settings.unify_codex_session_history != existing.unify_codex_session_history,
    ensures
        last == 3 && !settings.unify_codex_session_history ==> due[last] is ClearMigrationIntent,
        last > 3 || settings.unify_codex_session_history ==> due[last] is Reply
            && due[last]->Reply_0 == Ok::<bool, String>(true),
    decreases last,
{
    assert(call_ensures(SaveSettings::action, (&saves[last],), due[last]));
    if last == 3 {
        assert(call_ensures(SaveSettings::next, (saves[0], outcomes[0]), saves[1]));
        assert(call_ensures(SaveSettings::action, (&saves[1],), due[1]));
        assert(call_ensures(SaveSettings::next, (saves[1], outcomes[1]), saves[2]));
        assert(call_ensures(SaveSettings::action, (&saves[2],), due[2]));
        assert(call_ensures(SaveSettings::next, (saves[2], outcomes[2]), saves[3]));
        assert(call_ensures(SaveSettings::action, (&saves[3],), due[3]));
    } else {
        law_how_a_successful_rewrite_ends(settings, existing, saves, outcomes, due, last - 1);
        assert(call_ensures(SaveSettings::action, (&saves[last - 1],), due[last - 1]));
        assert(due[last - 1]@ == saves[last - 1]@.action());
        assert(call_ensures(
            SaveSettings::next,
            (saves[last - 1], outcomes[last - 1]),
            saves[last - 1 + 1],
        ));
    }
    assert(due[last]@ == saves[last]@.action());
}

/// A reply that has been given is given again, whatever is reported afterwards.
pub proof fn law_a_given_reply_stays(
    save: SaveSettings,
    outcome: Result<(), String>,
    after: SaveSettings,
    before_action: SaveAction,
    after_action: SaveAction,
)
    requires
        call_ensures(SaveSettings::action, (&save,), before_action),
        call_ensures(SaveSettings::next, (save, outcome), after),
        call_ensures(SaveSettings::action, (&after,), after_action),
        before_action is Reply,
    ensures
        after_action is Reply,
        after_action->Reply_0 is Ok <==> before_action->Reply_0 is Ok,
        before_action->Reply_0 is Ok ==> after_action->Reply_0 == before_action->Reply_0,
        before_action->Reply_0 is Err ==> after_action->Reply_0->Err_0@
            == before_action->Reply_0->Err_0@,
{
    assert(before_action@ == save@.action());
    assert(after_action@ == after@.action());
}

} // verus!
