//! Merging a save into the settings in force.
use cc_switch_settings::merge::{get_settings, merge_settings_for_save};
use cc_switch_settings::settings::{
    AppSettings, CodexOfficialHistoryUnifyMigration, CodexProviderTemplateMigration,
    CodexThirdPartyHistoryProviderBucketMigration, LocalMigrations, S3SyncSettings,
    WebDavSyncSettings,
};

#[test]
fn save_settings_should_preserve_existing_webdav_when_payload_omits_it() {
    let existing = AppSettings {
        webdav_sync: Some(WebDavSyncSettings {
            base_url: "https://dav.example.com".to_string(),
            username: "alice".to_string(),
            password: "secret".to_string(),
            ..WebDavSyncSettings::default()
        }),
        ..AppSettings::default()
    };

    let incoming = AppSettings::default();
    let merged = merge_settings_for_save(incoming, &existing);

    assert!(merged.webdav_sync.is_some());
    assert_eq!(
        merged.webdav_sync.as_ref().map(|v| v.base_url.as_str()),
        Some("https://dav.example.com")
    );
}

#[test]
fn save_settings_should_keep_incoming_webdav_when_present() {
    let existing = AppSettings {
        webdav_sync: Some(WebDavSyncSettings {
            base_url: "https://dav.old.example.com".to_string(),
            username: "old".to_string(),
            password: "old-pass".to_string(),
            ..WebDavSyncSettings::default()
        }),
        ..AppSettings::default()
    };

    let incoming = AppSettings {
        webdav_sync: Some(WebDavSyncSettings {
            base_url: "https://dav.new.example.com".to_string(),
            username: "new".to_string(),
            password: "new-pass".to_string(),
            ..WebDavSyncSettings::default()
        }),
        ..AppSettings::default()
    };

    let merged = merge_settings_for_save(incoming, &existing);

    assert_eq!(
        merged.webdav_sync.as_ref().map(|v| v.base_url.as_str()),
        Some("https://dav.new.example.com")
    );
}

/// The frontend always receives an empty password. If it sends the whole settings object back,
/// the empty password must not overwrite the stored one.
#[test]
fn save_settings_should_preserve_password_when_incoming_has_empty_password() {
    let existing = AppSettings {
        webdav_sync: Some(WebDavSyncSettings {
            base_url: "https://dav.example.com".to_string(),
            username: "alice".to_string(),
            password: "secret".to_string(),
            ..WebDavSyncSettings::default()
        }),
        ..AppSettings::default()
    };

    // Simulate frontend sending settings with cleared password
    let incoming = AppSettings {
        webdav_sync: Some(WebDavSyncSettings {
            base_url: "https://dav.example.com".to_string(),
            username: "alice".to_string(),
            password: "".to_string(),
            ..WebDavSyncSettings::default()
        }),
        ..AppSettings::default()
    };

    let merged = merge_settings_for_save(incoming, &existing);

    assert_eq!(
        merged.webdav_sync.as_ref().map(|v| v.password.as_str()),
        Some("secret"),
        "empty password from frontend must not overwrite existing password"
    );
}

/// When both incoming and existing have no password, merge should
/// work without panicking and keep the empty state.
#[test]
fn save_settings_should_handle_both_empty_passwords() {
    let existing = AppSettings {
        webdav_sync: Some(WebDavSyncSettings {
            base_url: "https://dav.example.com".to_string(),
            username: "alice".to_string(),
            password: "".to_string(),
            ..WebDavSyncSettings::default()
        }),
        ..AppSettings::default()
    };

    let incoming = AppSettings {
        webdav_sync: Some(WebDavSyncSettings {
            base_url: "https://dav.example.com".to_string(),
            username: "alice".to_string(),
            password: "".to_string(),
            ..WebDavSyncSettings::default()
        }),
        ..AppSettings::default()
    };

    let merged = merge_settings_for_save(incoming, &existing);

    assert_eq!(
        merged.webdav_sync.as_ref().map(|v| v.password.as_str()),
        Some("")
    );
}

#[test]
fn save_settings_should_preserve_existing_s3_when_payload_omits_it() {
    let existing = AppSettings {
        s3_sync: Some(S3SyncSettings {
            bucket: "bucket".to_string(),
            access_key_id: "ak".to_string(),
            secret_access_key: "secret".to_string(),
            ..S3SyncSettings::default()
        }),
        ..AppSettings::default()
    };

    let incoming = AppSettings::default();
    let merged = merge_settings_for_save(incoming, &existing);

    assert!(merged.s3_sync.is_some());
    assert_eq!(
        merged
            .s3_sync
            .as_ref()
            .map(|v| v.secret_access_key.as_str()),
        Some("secret")
    );
}

#[test]
fn save_settings_should_preserve_s3_secret_when_incoming_has_empty_secret() {
    let existing = AppSettings {
        s3_sync: Some(S3SyncSettings {
            bucket: "bucket".to_string(),
            access_key_id: "ak".to_string(),
            secret_access_key: "secret".to_string(),
            ..S3SyncSettings::default()
        }),
        ..AppSettings::default()
    };

    let incoming = AppSettings {
        s3_sync: Some(S3SyncSettings {
            bucket: "bucket".to_string(),
            access_key_id: "ak".to_string(),
            secret_access_key: "".to_string(),
            ..S3SyncSettings::default()
        }),
        ..AppSettings::default()
    };

    let merged = merge_settings_for_save(incoming, &existing);

    assert_eq!(
        merged
            .s3_sync
            .as_ref()
            .map(|v| v.secret_access_key.as_str()),
        Some("secret")
    );
}

#[test]
fn save_settings_should_preserve_local_migrations_when_payload_omits_it() {
    let existing = AppSettings {
        local_migrations: Some(LocalMigrations {
            codex_third_party_history_provider_bucket_v1: Some(
                CodexThirdPartyHistoryProviderBucketMigration {
                    completed_at: "2026-05-20T00:00:00Z".to_string(),
                    target_provider_id: "custom".to_string(),
                    source_provider_ids: vec!["rightcode".to_string()],
                    migrated_jsonl_files: 2,
                    migrated_state_rows: 3,
                    scanned_history_files: true,
                },
            ),
            codex_provider_template_v1: Some(CodexProviderTemplateMigration {
                completed_at: "2026-05-20T00:01:00Z".to_string(),
                migrated_provider_ids: vec!["legacy".to_string()],
            }),
            codex_official_history_unify_v1: Some(CodexOfficialHistoryUnifyMigration {
                completed_at: "2026-06-12T00:00:00Z".to_string(),
                target_provider_id: "custom".to_string(),
                migrated_jsonl_files: 5,
                migrated_state_rows: 7,
                codex_config_dir: None,
            }),
        }),
        ..AppSettings::default()
    };

    let incoming = AppSettings::default();
    let merged = merge_settings_for_save(incoming, &existing);

    let migration = merged
        .local_migrations
        .as_ref()
        .and_then(|migrations| {
            migrations
                .codex_third_party_history_provider_bucket_v1
                .as_ref()
        })
        .expect("local migration marker should be preserved");
    assert_eq!(migration.target_provider_id, "custom");
    assert_eq!(migration.migrated_jsonl_files, 2);
    assert_eq!(migration.migrated_state_rows, 3);

    let template_migration = merged
        .local_migrations
        .as_ref()
        .and_then(|migrations| migrations.codex_provider_template_v1.as_ref())
        .expect("template migration marker should be preserved");
    assert_eq!(
        template_migration.migrated_provider_ids,
        vec!["legacy".to_string()]
    );

    let unify_migration = merged
        .local_migrations
        .as_ref()
        .and_then(|migrations| migrations.codex_official_history_unify_v1.as_ref())
        .expect("official unify migration marker should be preserved");
    assert_eq!(unify_migration.migrated_jsonl_files, 5);
    assert_eq!(unify_migration.migrated_state_rows, 7);
}

/// Marks that come in, even empty ones, do not override those that the backend keeps.
#[test]
fn save_settings_should_keep_backend_migration_markers_over_incoming() {
    let existing = AppSettings {
        local_migrations: Some(LocalMigrations {
            codex_third_party_history_provider_bucket_v1: None,
            codex_provider_template_v1: None,
            codex_official_history_unify_v1: Some(CodexOfficialHistoryUnifyMigration {
                completed_at: "2026-06-12T00:00:00Z".to_string(),
                target_provider_id: "custom".to_string(),
                migrated_jsonl_files: 1,
                migrated_state_rows: 2,
                codex_config_dir: None,
            }),
        }),
        ..AppSettings::default()
    };

    let incoming = AppSettings {
        local_migrations: Some(LocalMigrations::default()),
        ..AppSettings::default()
    };
    let merged = merge_settings_for_save(incoming, &existing);

    assert!(merged
        .local_migrations
        .as_ref()
        .and_then(|migrations| migrations.codex_official_history_unify_v1.as_ref())
        .is_some());
}

/// After the backend has cleared a mark, a frontend that has not refreshed yet still sends the
/// old one: it must not come back to life.
#[test]
fn save_settings_should_ignore_stale_incoming_migration_markers() {
    let existing = AppSettings::default();

    let incoming = AppSettings {
        local_migrations: Some(LocalMigrations {
            codex_official_history_unify_v1: Some(CodexOfficialHistoryUnifyMigration {
                completed_at: "2026-06-12T00:00:00Z".to_string(),
                target_provider_id: "custom".to_string(),
                migrated_jsonl_files: 1,
                migrated_state_rows: 2,
                codex_config_dir: None,
            }),
            ..LocalMigrations::default()
        }),
        ..AppSettings::default()
    };
    let merged = merge_settings_for_save(incoming, &existing);

    assert!(merged.local_migrations.is_none());
}

fn full_settings() -> AppSettings {
    AppSettings {
        current_provider_codex: Some("codex-official".to_string()),
        unify_codex_session_history: true,
        unify_codex_migrate_existing: Some(false),
        webdav_sync: Some(WebDavSyncSettings {
            base_url: "https://dav.example.com".to_string(),
            username: "alice".to_string(),
            password: "secret".to_string(),
            other: "{\"enabled\":true}".to_string(),
        }),
        s3_sync: Some(S3SyncSettings {
            bucket: "bucket".to_string(),
            access_key_id: "ak".to_string(),
            secret_access_key: "sk".to_string(),
            other: "{\"region\":\"eu\"}".to_string(),
        }),
        local_migrations: Some(LocalMigrations {
            codex_provider_template_v1: Some(CodexProviderTemplateMigration {
                completed_at: "2026-05-20T00:01:00Z".to_string(),
                migrated_provider_ids: vec!["legacy".to_string(), "older".to_string()],
            }),
            codex_official_history_unify_v1: Some(CodexOfficialHistoryUnifyMigration {
                completed_at: "2026-06-12T00:00:00Z".to_string(),
                target_provider_id: "custom".to_string(),
                migrated_jsonl_files: 5,
                migrated_state_rows: 7,
                codex_config_dir: Some("/home/alice/.codex".to_string()),
            }),
            ..LocalMigrations::default()
        }),
        other: "{\"language\":\"zh\"}".to_string(),
    }
}

fn shown(settings: &AppSettings) -> String {
    format!("{settings:?}")
}

#[test]
fn frontend_sees_no_secret_and_everything_else() {
    let view = get_settings(full_settings()).expect("never fails");
    let webdav = view.webdav_sync.as_ref().expect("account is shown");
    assert_eq!(webdav.password, "");
    assert_eq!(webdav.username, "alice");
    assert_eq!(webdav.other, "{\"enabled\":true}");
    let s3 = view.s3_sync.as_ref().expect("bucket is shown");
    assert_eq!(s3.secret_access_key, "");
    assert_eq!(s3.access_key_id, "ak");
    assert_eq!(view.other, "{\"language\":\"zh\"}");
    assert!(view.local_migrations.is_some());

    let empty = get_settings(AppSettings::default()).expect("never fails");
    assert!(empty.webdav_sync.is_none());
    assert!(empty.s3_sync.is_none());
}

#[test]
fn saving_what_was_shown_changes_nothing() {
    let settings = full_settings();
    let view = get_settings(settings.clone()).expect("never fails");
    assert_eq!(shown(&merge_settings_for_save(view, &settings)), shown(&settings));
    let filled_in = settings.clone();
    assert_eq!(shown(&merge_settings_for_save(filled_in, &settings)), shown(&settings));
    let left_out = AppSettings {
        webdav_sync: None,
        s3_sync: None,
        local_migrations: Some(LocalMigrations::default()),
        ..settings.clone()
    };
    assert_eq!(shown(&merge_settings_for_save(left_out, &settings)), shown(&settings));
}

#[test]
fn setting_the_switch_changes_only_the_switch() {
    let settings = full_settings();
    let mut view = get_settings(settings.clone()).expect("never fails");
    view.unify_codex_session_history = false;
    let off = merge_settings_for_save(view, &settings);
    assert!(!off.unify_codex_session_history);
    let mut view = get_settings(off.clone()).expect("never fails");
    view.unify_codex_session_history = true;
    assert_eq!(shown(&merge_settings_for_save(view, &off)), shown(&settings));
}

#[test]
fn incoming_secrets_replace_stored_ones() {
    let settings = full_settings();
    let mut incoming = full_settings();
    incoming.webdav_sync.as_mut().expect("account").password = "changed".to_string();
    incoming.s3_sync.as_mut().expect("bucket").secret_access_key = "rotated".to_string();
    let merged = merge_settings_for_save(incoming, &settings);
    assert_eq!(merged.webdav_sync.expect("account").password, "changed");
    assert_eq!(merged.s3_sync.expect("bucket").secret_access_key, "rotated");
}

#[test]
fn blank_secret_keeps_the_rest_of_the_incoming_account() {
    let settings = full_settings();
    let mut incoming = get_settings(full_settings()).expect("never fails");
    incoming.webdav_sync.as_mut().expect("account").username = "bob".to_string();
    incoming.s3_sync.as_mut().expect("bucket").bucket = "other-bucket".to_string();
    incoming.current_provider_codex = None;
    incoming.other = "{}".to_string();
    let merged = merge_settings_for_save(incoming, &settings);
    let webdav = merged.webdav_sync.as_ref().expect("account");
    assert_eq!((webdav.username.as_str(), webdav.password.as_str()), ("bob", "secret"));
    let s3 = merged.s3_sync.as_ref().expect("bucket");
    assert_eq!((s3.bucket.as_str(), s3.secret_access_key.as_str()), ("other-bucket", "sk"));
    assert!(merged.current_provider_codex.is_none());
    assert_eq!(merged.other, "{}");
}

#[test]
fn first_account_is_stored_as_it_comes() {
    let merged = merge_settings_for_save(full_settings(), &AppSettings::default());
    assert_eq!(merged.webdav_sync.expect("account").password, "secret");
    assert_eq!(merged.s3_sync.expect("bucket").secret_access_key, "sk");
    assert!(merged.local_migrations.is_none());
}

#[test]
fn the_same_save_again_changes_nothing() {
    let settings = full_settings();
    let mut incoming = get_settings(full_settings()).expect("never fails");
    incoming.s3_sync = None;
    incoming.unify_codex_migrate_existing = None;
    let once = merge_settings_for_save(incoming.clone(), &settings);
    let twice = merge_settings_for_save(incoming, &once);
    assert_eq!(shown(&twice), shown(&once));
    let again = merge_settings_for_save(once.clone(), &settings);
    assert_eq!(shown(&again), shown(&once));
}

#[test]
fn copies_keep_every_mark() {
    let mut settings = full_settings();
    settings
        .local_migrations
        .as_mut()
        .expect("marks")
        .codex_third_party_history_provider_bucket_v1 =
        Some(CodexThirdPartyHistoryProviderBucketMigration {
            completed_at: "2026-05-20T00:00:00Z".to_string(),
            target_provider_id: "custom".to_string(),
            source_provider_ids: vec!["rightcode".to_string()],
            migrated_jsonl_files: 2,
            migrated_state_rows: 3,
            scanned_history_files: true,
        });
    assert_eq!(shown(&settings.clone()), shown(&settings));
}
