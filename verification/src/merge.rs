//! What the frontend is shown of the settings, and how a save from the frontend is merged
//! into the settings in force.
//!
//! The frontend never sees a stored secret, so a blank secret in what it sends back means
//! "keep the one that is stored". An account that it leaves out altogether is kept as well.
//! The marks of completed migrations belong to the backend: whatever the frontend sends of
//! them is ignored, so a stale copy cannot bring back a mark that was cleared meanwhile.
use vstd::prelude::*;

use crate::settings::{AppSettings, S3SyncSettings, WebDavSyncSettings};
#[allow(unused_imports)]
use crate::settings::{
    option_view, AppSettingsView, LocalMigrationsView, S3SyncSettingsView, WebDavSyncSettingsView,
};

verus! {

/// The secret to keep: the incoming one, or the stored one where the incoming one is blank.
pub open spec fn merged_secret(incoming: Seq<char>, stored: Seq<char>) -> Seq<char> {
    if incoming.len() == 0 {
        stored
    } else {
        incoming
    }
}

/// The WebDAV account after a save.
pub open spec fn merged_webdav(
    incoming: Option<WebDavSyncSettingsView>,
    existing: Option<WebDavSyncSettingsView>,
) -> Option<WebDavSyncSettingsView> {
    match (incoming, existing) {
        (None, _) => existing,
        (Some(sync), None) => Some(sync),
        (Some(sync), Some(stored)) => Some(
            WebDavSyncSettingsView {
                password: merged_secret(sync.password, stored.password),
                ..sync
            },
        ),
    }
}

/// The S3 bucket after a save.
pub open spec fn merged_s3(
    incoming: Option<S3SyncSettingsView>,
    existing: Option<S3SyncSettingsView>,
) -> Option<S3SyncSettingsView> {
    match (incoming, existing) {
        (None, _) => existing,
        (Some(sync), None) => Some(sync),
        (Some(sync), Some(stored)) => Some(
            S3SyncSettingsView {
                secret_access_key: merged_secret(sync.secret_access_key, stored.secret_access_key),
                ..sync
            },
        ),
    }
}

/// The settings after a save of `incoming` over `existing`.
pub open spec fn merged_settings(
    incoming: AppSettingsView,
    existing: AppSettingsView,
) -> AppSettingsView {
    AppSettingsView {
        webdav_sync: merged_webdav(incoming.webdav_sync, existing.webdav_sync),
        s3_sync: merged_s3(incoming.s3_sync, existing.s3_sync),
        local_migrations: existing.local_migrations,
        ..incoming
    }
}

/// The settings as the frontend sees them: both secrets are blank, all else is unchanged.
pub open spec fn frontend_settings(settings: AppSettingsView) -> AppSettingsView {
    AppSettingsView {
        webdav_sync: match settings.webdav_sync {
            Some(sync) => Some(WebDavSyncSettingsView { password: Seq::empty(), ..sync }),
            None => None,
        },
        s3_sync: match settings.s3_sync {
            Some(sync) => Some(S3SyncSettingsView { secret_access_key: Seq::empty(), ..sync }),
            None => None,
        },
        ..settings
    }
}

/// The WebDAV account to store: `incoming` with a blank password replaced by the stored one,
/// or the stored account where none comes in.
fn merge_webdav(
    incoming: Option<WebDavSyncSettings>,
    existing: &Option<WebDavSyncSettings>,
) -> (merged: Option<WebDavSyncSettings>)
    ensures
        option_view(merged) == merged_webdav(option_view(incoming), option_view(*existing)),
{
    match incoming {
        None => existing.clone(),
        Some(mut sync) => {
            if let Some(stored) = existing {
                if sync.password.as_str().is_empty() && !stored.password.as_str().is_empty() {
                    sync.password = stored.password.clone();
                } else {
                    assert(sync.password@ =~= merged_secret(sync.password@, stored.password@));
                }
            }
            Some(sync)
        },
    }
}

/// The S3 bucket to store: `incoming` with a blank secret replaced by the stored one, or the
/// stored bucket where none comes in.
fn merge_s3(incoming: Option<S3SyncSettings>, existing: &Option<S3SyncSettings>) -> (merged: Option<
    S3SyncSettings,
>)
    ensures
        option_view(merged) == merged_s3(option_view(incoming), option_view(*existing)),
{
    match incoming {
        None => existing.clone(),
        Some(mut sync) => {
            if let Some(stored) = existing {
                if sync.secret_access_key.as_str().is_empty()
                    && !stored.secret_access_key.as_str().is_empty() {
                    sync.secret_access_key = stored.secret_access_key.clone();
                } else {
                    assert(sync.secret_access_key@ =~= merged_secret(
                        sync.secret_access_key@,
                        stored.secret_access_key@,
                    ));
                }
            }
            Some(sync)
        },
    }
}

/// Merges the settings that the frontend sends into those in force.
pub fn merge_settings_for_save(incoming: AppSettings, existing: &AppSettings) -> (merged:
    AppSettings)
    ensures
        merged@ == merged_settings(incoming@, existing@),
{
    AppSettings {
        current_provider_codex: incoming.current_provider_codex,
        unify_codex_session_history: incoming.unify_codex_session_history,
        unify_codex_migrate_existing: incoming.unify_codex_migrate_existing,
        webdav_sync: merge_webdav(incoming.webdav_sync, &existing.webdav_sync),
        s3_sync: merge_s3(incoming.s3_sync, &existing.s3_sync),
        local_migrations: existing.local_migrations.clone(),
        other: incoming.other,
    }
}

/// The settings to show in the frontend, made from those in force. Never fails.
pub fn get_settings(settings: AppSettings) -> (reply: Result<AppSettings, String>)
    ensures
        reply matches Ok(shown) && shown@ == frontend_settings(settings@),
{
    let webdav_sync = match settings.webdav_sync {
        Some(sync) => Some(WebDavSyncSettings { password: String::new(), ..sync }),
        None => None,
    };
    let s3_sync = match settings.s3_sync {
        Some(sync) => Some(S3SyncSettings { secret_access_key: String::new(), ..sync }),
        None => None,
    };
    Ok(AppSettings { webdav_sync, s3_sync, ..settings })
}

/// Whether the settings hold a non-blank WebDAV password.
pub open spec fn has_webdav_password(settings: AppSettingsView) -> bool {
    settings.webdav_sync matches Some(sync) && sync.password.len() > 0
}

/// Whether the settings hold a non-blank S3 secret.
pub open spec fn has_s3_secret(settings: AppSettingsView) -> bool {
    settings.s3_sync matches Some(sync) && sync.secret_access_key.len() > 0
}

/// Whether `incoming` asks for no change to `settings`: each account is there in full, without its
/// secret or not at all, the migration marks are anything, and all else is the same.
pub open spec fn asks_for_no_change(incoming: AppSettingsView, settings: AppSettingsView) -> bool {
    &&& {
        ||| incoming.webdav_sync is None
        ||| incoming.webdav_sync == settings.webdav_sync
        ||| incoming.webdav_sync == frontend_settings(settings).webdav_sync
    }
    &&& {
        ||| incoming.s3_sync is None
        ||| incoming.s3_sync == settings.s3_sync
        ||| incoming.s3_sync == frontend_settings(settings).s3_sync
    }
    &&& incoming == AppSettingsView {
        webdav_sync: incoming.webdav_sync,
        s3_sync: incoming.s3_sync,
        local_migrations: incoming.local_migrations,
        ..settings
    }
}

/// The frontend is shown no secret.
pub proof fn law_frontend_sees_no_secret(settings: AppSettingsView)
    ensures
        !has_webdav_password(frontend_settings(settings)),
        !has_s3_secret(frontend_settings(settings)),
{
}

/// Saving back what the frontend was shown leaves the settings as they are.
pub proof fn law_get_and_save_change_nothing(settings: AppSettingsView)
    ensures
        merged_settings(frontend_settings(settings), settings) == settings,
{
    law_asking_for_no_change_changes_nothing(frontend_settings(settings), settings);
}

/// Saving back what the frontend was shown leaves the settings as they are, whichever of the
/// secrets it has filled in again, whichever account it leaves out, and whatever it says of
/// migrations.
pub proof fn law_asking_for_no_change_changes_nothing(
    incoming: AppSettingsView,
    settings: AppSettingsView,
)
    requires
        asks_for_no_change(incoming, settings),
    ensures
        merged_settings(incoming, settings) == settings,
{
    assert(merged_settings(incoming, settings).webdav_sync =~= settings.webdav_sync);
    assert(merged_settings(incoming, settings).s3_sync =~= settings.s3_sync);
}

/// Saving back what the frontend was shown with the switch set to `on` sets the switch and
/// changes nothing else, so that setting it back gives the settings before.
pub proof fn law_saving_the_switch_changes_only_the_switch(
    incoming: AppSettingsView,
    settings: AppSettingsView,
    on: bool,
)
    requires
        asks_for_no_change(incoming, settings),
    ensures
        merged_settings(AppSettingsView { unify_codex_session_history: on, ..incoming }, settings)
            == (AppSettingsView { unify_codex_session_history: on, ..settings }),
{
    law_asking_for_no_change_changes_nothing(incoming, settings);
}

/// No save loses a stored secret: it is kept or replaced by another one, never blanked.
pub proof fn law_stored_secrets_survive(incoming: AppSettingsView, existing: AppSettingsView)
    ensures
        has_webdav_password(existing) ==> has_webdav_password(merged_settings(incoming, existing)),
        has_s3_secret(existing) ==> has_s3_secret(merged_settings(incoming, existing)),
{
}

/// A secret that comes in is the one that is stored, together with the rest of its account.
pub proof fn law_incoming_secrets_win(incoming: AppSettingsView, existing: AppSettingsView)
    ensures
        has_webdav_password(incoming) ==> merged_settings(incoming, existing).webdav_sync
            == incoming.webdav_sync,
        has_s3_secret(incoming) ==> merged_settings(incoming, existing).s3_sync == incoming.s3_sync,
{
}

/// What the frontend says of migrations has no effect: two saves that differ in nothing else
/// store the same settings, and these hold the marks that the backend keeps.
pub proof fn law_migration_marks_belong_to_the_backend(
    incoming: AppSettingsView,
    marks: Option<LocalMigrationsView>,
    existing: AppSettingsView,
)
    ensures
        merged_settings(AppSettingsView { local_migrations: marks, ..incoming }, existing)
            == merged_settings(incoming, existing),
        merged_settings(incoming, existing).local_migrations == existing.local_migrations,
{
}

/// Sending the same save again changes nothing, and merging the result once more does not
/// either.
pub proof fn law_merge_is_idempotent(incoming: AppSettingsView, existing: AppSettingsView)
    ensures
        merged_settings(incoming, merged_settings(incoming, existing)) == merged_settings(
            incoming,
            existing,
        ),
        merged_settings(merged_settings(incoming, existing), existing) == merged_settings(
            incoming,
            existing,
        ),
{
}

} // verus!
