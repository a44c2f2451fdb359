//! What the results of getting, copying and merging the settings are, field by field.
use vstd::prelude::*;

#[allow(unused_imports)]
use crate::merge::{get_settings, law_get_and_save_change_nothing, merge_settings_for_save};
#[allow(unused_imports)]
use crate::settings::{
    option_view, AppSettings, CodexOfficialHistoryUnifyMigration, CodexProviderTemplateMigration,
    CodexThirdPartyHistoryProviderBucketMigration, LocalMigrations, S3SyncSettings,
    WebDavSyncSettings,
};

verus! {

/// Whether two texts that may be missing are the same.
pub open spec fn same_text(a: Option<String>, b: Option<String>) -> bool {
    match (a, b) {
        (Some(a), Some(b)) => a@ == b@,
        (None, None) => true,
        _ => false,
    }
}

/// Whether two lists of texts are the same.
pub open spec fn same_texts(a: Vec<String>, b: Vec<String>) -> bool {
    &&& a@.len() == b@.len()
    &&& forall|i: int| 0 <= i < a@.len() ==> #[trigger] a@[i]@ == b@[i]@
}

/// Whether two WebDAV accounts that may be missing are the same.
pub open spec fn same_webdav(a: Option<WebDavSyncSettings>, b: Option<WebDavSyncSettings>) -> bool {
    match (a, b) {
        (Some(a), Some(b)) => {
            &&& a.base_url@ == b.base_url@
            &&& a.username@ == b.username@
            &&& a.password@ == b.password@
            &&& a.other@ == b.other@
        },
        (None, None) => true,
        _ => false,
    }
}

/// Whether two S3 buckets that may be missing are the same.
pub open spec fn same_s3(a: Option<S3SyncSettings>, b: Option<S3SyncSettings>) -> bool {
    match (a, b) {
        (Some(a), Some(b)) => {
            &&& a.bucket@ == b.bucket@
            &&& a.access_key_id@ == b.access_key_id@
            &&& a.secret_access_key@ == b.secret_access_key@
            &&& a.other@ == b.other@
        },
        (None, None) => true,
        _ => false,
    }
}

/// Whether two marks of the third-party migration that may be missing are the same.
pub open spec fn same_third_party_mark(
    a: Option<CodexThirdPartyHistoryProviderBucketMigration>,
    b: Option<CodexThirdPartyHistoryProviderBucketMigration>,
) -> bool {
    match (a, b) {
        (Some(a), Some(b)) => {
            &&& a.completed_at@ == b.completed_at@
            &&& a.target_provider_id@ == b.target_provider_id@
            &&& same_texts(a.source_provider_ids, b.source_provider_ids)
            &&& a.migrated_jsonl_files == b.migrated_jsonl_files
            &&& a.migrated_state_rows == b.migrated_state_rows
            &&& a.scanned_history_files == b.scanned_history_files
        },
        (None, None) => true,
        _ => false,
    }
}

/// Whether two marks of the template migration that may be missing are the same.
pub open spec fn same_template_mark(
    a: Option<CodexProviderTemplateMigration>,
    b: Option<CodexProviderTemplateMigration>,
) -> bool {
    match (a, b) {
        (Some(a), Some(b)) => {
            &&& a.completed_at@ == b.completed_at@
            &&& same_texts(a.migrated_provider_ids, b.migrated_provider_ids)
        },
        (None, None) => true,
        _ => false,
    }
}

/// Whether two marks of the unification that may be missing are the same.
pub open spec fn same_unify_mark(
    a: Option<CodexOfficialHistoryUnifyMigration>,
    b: Option<CodexOfficialHistoryUnifyMigration>,
) -> bool {
    match (a, b) {
        (Some(a), Some(b)) => {
            &&& a.completed_at@ == b.completed_at@
            &&& a.target_provider_id@ == b.target_provider_id@
            &&& a.migrated_jsonl_files == b.migrated_jsonl_files
            &&& a.migrated_state_rows == b.migrated_state_rows
            &&& same_text(a.codex_config_dir, b.codex_config_dir)
        },
        (None, None) => true,
        _ => false,
    }
}

/// Whether two sets of marks that may be missing are the same.
pub open spec fn same_marks(a: Option<LocalMigrations>, b: Option<LocalMigrations>) -> bool {
    match (a, b) {
        (Some(a), Some(b)) => {
            &&& same_third_party_mark(
                a.codex_third_party_history_provider_bucket_v1,
                b.codex_third_party_history_provider_bucket_v1,
            )
            &&& same_template_mark(a.codex_provider_template_v1, b.codex_provider_template_v1)
            &&& same_unify_mark(a.codex_official_history_unify_v1, b.codex_official_history_unify_v1)
        },
        (None, None) => true,
        _ => false,
    }
}

/// Whether two settings are the same, field by field.
pub open spec fn same_settings(a: AppSettings, b: AppSettings) -> bool {
    &&& same_text(a.current_provider_codex, b.current_provider_codex)
    &&& a.unify_codex_session_history == b.unify_codex_session_history
    &&& a.unify_codex_migrate_existing == b.unify_codex_migrate_existing
    &&& same_webdav(a.webdav_sync, b.webdav_sync)
    &&& same_s3(a.s3_sync, b.s3_sync)
    &&& same_marks(a.local_migrations, b.local_migrations)
    &&& a.other@ == b.other@
}

proof fn lemma_same_texts(a: Vec<String>, b: Vec<String>)
    ensures
        a.deep_view() == b.deep_view() <==> same_texts(a, b),
{
    if a.deep_view() == b.deep_view() {
        assert(a.deep_view().len() == a@.len());
        assert(b.deep_view().len() == b@.len());
        assert forall|i: int| 0 <= i < a@.len() implies #[trigger] a@[i]@ == b@[i]@ by {
            assert(a.deep_view()[i] == a@[i]@);
            assert(b.deep_view()[i] == b@[i]@);
        }
    }
    if same_texts(a, b) {
        assert(a.deep_view() =~= b.deep_view());
    }
}

/// The models of two sets of marks are equal exactly if the marks are the same.
pub proof fn lemma_same_marks(a: Option<LocalMigrations>, b: Option<LocalMigrations>)
    ensures
        option_view(a) == option_view(b) <==> same_marks(a, b),
{
    if a is Some && b is Some {
        let x = a->0;
        let y = b->0;
        if x.codex_provider_template_v1 is Some && y.codex_provider_template_v1 is Some {
            lemma_same_texts(
                x.codex_provider_template_v1->0.migrated_provider_ids,
                y.codex_provider_template_v1->0.migrated_provider_ids,
            );
        }
        if x.codex_third_party_history_provider_bucket_v1 is Some
            && y.codex_third_party_history_provider_bucket_v1 is Some {
            lemma_same_texts(
                x.codex_third_party_history_provider_bucket_v1->0.source_provider_ids,
                y.codex_third_party_history_provider_bucket_v1->0.source_provider_ids,
            );
        }
        assert(x@.codex_third_party_history_provider_bucket_v1
            == y@.codex_third_party_history_provider_bucket_v1 <==> same_third_party_mark(
            x.codex_third_party_history_provider_bucket_v1,
            y.codex_third_party_history_provider_bucket_v1,
        ));
        assert(x@.codex_provider_template_v1 == y@.codex_provider_template_v1
            <==> same_template_mark(x.codex_provider_template_v1, y.codex_provider_template_v1));
        assert(x@.codex_official_history_unify_v1 == y@.codex_official_history_unify_v1
            <==> same_unify_mark(
            x.codex_official_history_unify_v1,
            y.codex_official_history_unify_v1,
        ));
    }
}

/// The models of two settings are equal exactly if the settings are the same, field by field:
/// no field is left out of the model.
pub proof fn law_models_hold_every_field(a: AppSettings, b: AppSettings)
    ensures
        a@ == b@ <==> same_settings(a, b),
{
    lemma_same_marks(a.local_migrations, b.local_migrations);
    assert(a@.webdav_sync == b@.webdav_sync <==> same_webdav(a.webdav_sync, b.webdav_sync));
    assert(a@.s3_sync == b@.s3_sync <==> same_s3(a.s3_sync, b.s3_sync));
    assert(a@.current_provider_codex == b@.current_provider_codex <==> same_text(
        a.current_provider_codex,
        b.current_provider_codex,
    ));
}

/// A copy of the settings is the same, field by field.
pub proof fn law_copies_are_the_same(settings: AppSettings, copy: AppSettings)
    requires
        call_ensures(AppSettings::clone, (&settings,), copy),
    ensures
        same_settings(copy, settings),
{
    law_models_hold_every_field(copy, settings);
}

/// The settings that nothing has been set in hold nothing.
pub proof fn law_default_settings_hold_nothing(settings: AppSettings)
    requires
        call_ensures(AppSettings::default, (), settings),
    ensures
        settings.current_provider_codex is None,
        !settings.unify_codex_session_history,
        settings.unify_codex_migrate_existing is None,
        settings.webdav_sync is None,
        settings.s3_sync is None,
        settings.local_migrations is None,
        settings.other@.len() == 0,
{
    assert(settings@.webdav_sync == option_view(settings.webdav_sync));
    assert(settings@.s3_sync == option_view(settings.s3_sync));
    assert(settings@.local_migrations == option_view(settings.local_migrations));
}

/// A WebDAV account that comes in is stored with its own address, user and remaining preferences,
/// whether or not its password is blank. Only a blank password is filled in, from what is stored.
pub proof fn law_incoming_webdav_is_stored(
    incoming: AppSettings,
    existing: AppSettings,
    merged: AppSettings,
)
    requires
        call_ensures(merge_settings_for_save, (incoming, &existing), merged),
        incoming.webdav_sync is Some,
    ensures
        merged.webdav_sync is Some,
        merged.webdav_sync->0.base_url@ == incoming.webdav_sync->0.base_url@,
        merged.webdav_sync->0.username@ == incoming.webdav_sync->0.username@,
        merged.webdav_sync->0.other@ == incoming.webdav_sync->0.other@,
        incoming.webdav_sync->0.password@.len() > 0 ==> merged.webdav_sync->0.password@
            == incoming.webdav_sync->0.password@,
        incoming.webdav_sync->0.password@.len() == 0 && existing.webdav_sync is Some ==>
            merged.webdav_sync->0.password@ == existing.webdav_sync->0.password@,
        incoming.webdav_sync->0.password@.len() == 0 && existing.webdav_sync is None ==>
            merged.webdav_sync->0.password@.len() == 0,
{
    assert(merged@.webdav_sync == option_view(merged.webdav_sync));
}

/// A WebDAV account that does not come in stays as it is stored.
pub proof fn law_omitted_webdav_stays(
    incoming: AppSettings,
    existing: AppSettings,
    merged: AppSettings,
)
    requires
        call_ensures(merge_settings_for_save, (incoming, &existing), merged),
        incoming.webdav_sync is None,
    ensures
        merged.webdav_sync is Some <==> existing.webdav_sync is Some,
        existing.webdav_sync is Some ==>
            merged.webdav_sync->0.base_url@ == existing.webdav_sync->0.base_url@,
        existing.webdav_sync is Some ==>
            merged.webdav_sync->0.username@ == existing.webdav_sync->0.username@,
        existing.webdav_sync is Some ==>
            merged.webdav_sync->0.password@ == existing.webdav_sync->0.password@,
        existing.webdav_sync is Some ==>
            merged.webdav_sync->0.other@ == existing.webdav_sync->0.other@,
{
    assert(merged@.webdav_sync == option_view(merged.webdav_sync));
}

/// An S3 bucket that comes in is stored with its own name, key and remaining preferences,
/// whether or not its secret is blank. Only a blank secret is filled in, from what is stored.
pub proof fn law_incoming_s3_is_stored(
    incoming: AppSettings,
    existing: AppSettings,
    merged: AppSettings,
)
    requires
        call_ensures(merge_settings_for_save, (incoming, &existing), merged),
        incoming.s3_sync is Some,
    ensures
        merged.s3_sync is Some,
        merged.s3_sync->0.bucket@ == incoming.s3_sync->0.bucket@,
        merged.s3_sync->0.access_key_id@ == incoming.s3_sync->0.access_key_id@,
        merged.s3_sync->0.other@ == incoming.s3_sync->0.other@,
        incoming.s3_sync->0.secret_access_key@.len() > 0 ==> merged.s3_sync->0.secret_access_key@
            == incoming.s3_sync->0.secret_access_key@,
        incoming.s3_sync->0.secret_access_key@.len() == 0 && existing.s3_sync is Some ==>
            merged.s3_sync->0.secret_access_key@ == existing.s3_sync->0.secret_access_key@,
        incoming.s3_sync->0.secret_access_key@.len() == 0 && existing.s3_sync is None ==>
            merged.s3_sync->0.secret_access_key@.len() == 0,
{
    assert(merged@.s3_sync == option_view(merged.s3_sync));
}

/// An S3 bucket that does not come in stays as it is stored.
pub proof fn law_omitted_s3_stays(
    incoming: AppSettings,
    existing: AppSettings,
    merged: AppSettings,
)
    requires
        call_ensures(merge_settings_for_save, (incoming, &existing), merged),
        incoming.s3_sync is None,
    ensures
        merged.s3_sync is Some <==> existing.s3_sync is Some,
        existing.s3_sync is Some ==> merged.s3_sync->0.bucket@ == existing.s3_sync->0.bucket@,
        existing.s3_sync is Some ==>
            merged.s3_sync->0.access_key_id@ == existing.s3_sync->0.access_key_id@,
        existing.s3_sync is Some ==>
            merged.s3_sync->0.secret_access_key@ == existing.s3_sync->0.secret_access_key@,
        existing.s3_sync is Some ==> merged.s3_sync->0.other@ == existing.s3_sync->0.other@,
{
    assert(merged@.s3_sync == option_view(merged.s3_sync));
}

/// Apart from the accounts and the migration marks, what is stored is what comes in; the marks are
/// those that are stored.
pub proof fn law_preferences_come_in_and_marks_stay(
    incoming: AppSettings,
    existing: AppSettings,
    merged: AppSettings,
)
    requires
        call_ensures(merge_settings_for_save, (incoming, &existing), merged),
    ensures
        merged.current_provider_codex is Some <==> incoming.current_provider_codex is Some,
        incoming.current_provider_codex is Some ==> merged.current_provider_codex->0@
            == incoming.current_provider_codex->0@,
        merged.unify_codex_session_history == incoming.unify_codex_session_history,
        merged.unify_codex_migrate_existing == incoming.unify_codex_migrate_existing,
        merged.other@ == incoming.other@,
        same_marks(merged.local_migrations, existing.local_migrations),
{
    lemma_same_marks(merged.local_migrations, existing.local_migrations);
    assert(merged@.current_provider_codex == incoming@.current_provider_codex);
}

/// The frontend is shown every account that is stored, and no other, with all of it but the
/// secret, and everything else as it is stored.
pub proof fn law_frontend_sees_all_but_the_secrets(
    settings: AppSettings,
    reply: Result<AppSettings, String>,
)
    requires
        call_ensures(get_settings, (settings,), reply),
    ensures
        reply is Ok,
        reply->Ok_0.webdav_sync is Some <==> settings.webdav_sync is Some,
        settings.webdav_sync is Some ==>
            reply->Ok_0.webdav_sync->0.base_url@ == settings.webdav_sync->0.base_url@,
        settings.webdav_sync is Some ==>
            reply->Ok_0.webdav_sync->0.username@ == settings.webdav_sync->0.username@,
        settings.webdav_sync is Some ==>
            reply->Ok_0.webdav_sync->0.other@ == settings.webdav_sync->0.other@,
        settings.webdav_sync is Some ==> reply->Ok_0.webdav_sync->0.password@.len() == 0,
        reply->Ok_0.s3_sync is Some <==> settings.s3_sync is Some,
        settings.s3_sync is Some ==> reply->Ok_0.s3_sync->0.bucket@ == settings.s3_sync->0.bucket@,
        settings.s3_sync is Some ==>
            reply->Ok_0.s3_sync->0.access_key_id@ == settings.s3_sync->0.access_key_id@,
        settings.s3_sync is Some ==> reply->Ok_0.s3_sync->0.other@ == settings.s3_sync->0.other@,
        settings.s3_sync is Some ==> reply->Ok_0.s3_sync->0.secret_access_key@.len() == 0,
        reply->Ok_0.current_provider_codex is Some <==> settings.current_provider_codex is Some,
        settings.current_provider_codex is Some ==> reply->Ok_0.current_provider_codex->0@
            == settings.current_provider_codex->0@,
        reply->Ok_0.unify_codex_session_history == settings.unify_codex_session_history,
        reply->Ok_0.unify_codex_migrate_existing == settings.unify_codex_migrate_existing,
        reply->Ok_0.other@ == settings.other@,
        same_marks(reply->Ok_0.local_migrations, settings.local_migrations),
{
    let shown = reply->Ok_0;
    lemma_same_marks(shown.local_migrations, settings.local_migrations);
    assert(shown@.webdav_sync == option_view(shown.webdav_sync));
    assert(shown@.s3_sync == option_view(shown.s3_sync));
    assert(shown@.current_provider_codex == settings@.current_provider_codex);
}

/// Getting the settings and saving them back unchanged gives the settings that are stored.
pub proof fn law_get_then_merge_is_the_same(
    settings: AppSettings,
    reply: Result<AppSettings, String>,
    merged: AppSettings,
)
    requires
        call_ensures(get_settings, (settings,), reply),
        reply matches Ok(shown) ==> call_ensures(
            merge_settings_for_save,
            (shown, &settings),
            merged,
        ),
    ensures
        same_settings(merged, settings),
{
    law_get_and_save_change_nothing(settings@);
    law_models_hold_every_field(merged, settings);
}

} // verus!
