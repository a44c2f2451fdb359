//! The settings that the commands read and write, and their mathematical models.
use vstd::prelude::*;

verus! {

/// An optional value with what it holds taken by its view.
pub open spec fn option_view<T: View>(value: Option<T>) -> Option<T::V> {
    match value {
        Some(inner) => Some(inner@),
        None => None,
    }
}

/// Account of a WebDAV server that the configuration is synchronised with.
#[derive(Debug)]
pub struct WebDavSyncSettings {
    pub base_url: String,
    pub username: String,
    /// Never shown outside the backend; empty when none is stored.
    pub password: String,
    /// The account's remaining preferences in serialized form; carried, never read.
    pub other: String,
}

/// Model of [`WebDavSyncSettings`].
#[verifier::ext_equal]
pub struct WebDavSyncSettingsView {
    pub base_url: Seq<char>,
    pub username: Seq<char>,
    pub password: Seq<char>,
    pub other: Seq<char>,
}

impl View for WebDavSyncSettings {
    type V = WebDavSyncSettingsView;

    open spec fn view(&self) -> WebDavSyncSettingsView {
        WebDavSyncSettingsView {
            base_url: self.base_url@,
            username: self.username@,
            password: self.password@,
            other: self.other@,
        }
    }
}

impl Clone for WebDavSyncSettings {
    fn clone(&self) -> (copy: Self)
        ensures
            copy@ == self@,
    {
        WebDavSyncSettings {
            base_url: self.base_url.clone(),
            username: self.username.clone(),
            password: self.password.clone(),
            other: self.other.clone(),
        }
    }
}

impl WebDavSyncSettingsView {
    /// The value with nothing set.
    pub open spec fn empty() -> Self {
        WebDavSyncSettingsView {
            base_url: Seq::empty(),
            username: Seq::empty(),
            password: Seq::empty(),
            other: Seq::empty(),
        }
    }
}

impl Default for WebDavSyncSettings {
    fn default() -> (value: Self)
        ensures
            value@ == WebDavSyncSettingsView::empty(),
    {
        WebDavSyncSettings {
            base_url: String::new(),
            username: String::new(),
            password: String::new(),
            other: String::new(),
        }
    }
}

/// Bucket of an S3-compatible store that the configuration is synchronised with.
#[derive(Debug)]
pub struct S3SyncSettings {
    pub bucket: String,
    pub access_key_id: String,
    /// Never shown outside the backend; empty when none is stored.
    pub secret_access_key: String,
    /// The bucket's remaining preferences in serialized form; carried, never read.
    pub other: String,
}

/// Model of [`S3SyncSettings`].
#[verifier::ext_equal]
pub struct S3SyncSettingsView {
    pub bucket: Seq<char>,
    pub access_key_id: Seq<char>,
    pub secret_access_key: Seq<char>,
    pub other: Seq<char>,
}

impl View for S3SyncSettings {
    type V = S3SyncSettingsView;

    open spec fn view(&self) -> S3SyncSettingsView {
        S3SyncSettingsView {
            bucket: self.bucket@,
            access_key_id: self.access_key_id@,
            secret_access_key: self.secret_access_key@,
            other: self.other@,
        }
    }
}

impl Clone for S3SyncSettings {
    fn clone(&self) -> (copy: Self)
        ensures
            copy@ == self@,
    {
        S3SyncSettings {
            bucket: self.bucket.clone(),
            access_key_id: self.access_key_id.clone(),
            secret_access_key: self.secret_access_key.clone(),
            other: self.other.clone(),
        }
    }
}

impl S3SyncSettingsView {
    /// The value with nothing set.
    pub open spec fn empty() -> Self {
        S3SyncSettingsView {
            bucket: Seq::empty(),
            access_key_id: Seq::empty(),
            secret_access_key: Seq::empty(),
            other: Seq::empty(),
        }
    }
}

impl Default for S3SyncSettings {
    fn default() -> (value: Self)
        ensures
            value@ == S3SyncSettingsView::empty(),
    {
        S3SyncSettings {
            bucket: String::new(),
            access_key_id: String::new(),
            secret_access_key: String::new(),
            other: String::new(),
        }
    }
}

/// Mark left when the sessions of third-party Codex providers were moved into one bucket.
#[derive(Debug)]
pub struct CodexThirdPartyHistoryProviderBucketMigration {
    pub completed_at: String,
    pub target_provider_id: String,
    pub source_provider_ids: Vec<String>,
    pub migrated_jsonl_files: usize,
    pub migrated_state_rows: usize,
    pub scanned_history_files: bool,
}

/// Model of [`CodexThirdPartyHistoryProviderBucketMigration`].
#[verifier::ext_equal]
pub struct CodexThirdPartyHistoryProviderBucketMigrationView {
    pub completed_at: Seq<char>,
    pub target_provider_id: Seq<char>,
    pub source_provider_ids: Seq<Seq<char>>,
    pub migrated_jsonl_files: usize,
    pub migrated_state_rows: usize,
    pub scanned_history_files: bool,
}

impl View for CodexThirdPartyHistoryProviderBucketMigration {
    type V = CodexThirdPartyHistoryProviderBucketMigrationView;

    open spec fn view(&self) -> CodexThirdPartyHistoryProviderBucketMigrationView {
        CodexThirdPartyHistoryProviderBucketMigrationView {
            completed_at: self.completed_at@,
            target_provider_id: self.target_provider_id@,
            source_provider_ids: self.source_provider_ids.deep_view(),
            migrated_jsonl_files: self.migrated_jsonl_files,
            migrated_state_rows: self.migrated_state_rows,
            scanned_history_files: self.scanned_history_files,
        }
    }
}

impl Clone for CodexThirdPartyHistoryProviderBucketMigration {
    fn clone(&self) -> (copy: Self)
        ensures
            copy@ == self@,
    {
        let copy = CodexThirdPartyHistoryProviderBucketMigration {
            completed_at: self.completed_at.clone(),
            target_provider_id: self.target_provider_id.clone(),
            source_provider_ids: self.source_provider_ids.clone(),
            migrated_jsonl_files: self.migrated_jsonl_files,
            migrated_state_rows: self.migrated_state_rows,
            scanned_history_files: self.scanned_history_files,
        };
        assert(copy.source_provider_ids@ =~= self.source_provider_ids@);
        copy
    }
}

/// Mark left when the stored Codex providers were rewritten from their templates.
#[derive(Debug)]
pub struct CodexProviderTemplateMigration {
    pub completed_at: String,
    pub migrated_provider_ids: Vec<String>,
}

/// Model of [`CodexProviderTemplateMigration`].
#[verifier::ext_equal]
pub struct CodexProviderTemplateMigrationView {
    pub completed_at: Seq<char>,
    pub migrated_provider_ids: Seq<Seq<char>>,
}

impl View for CodexProviderTemplateMigration {
    type V = CodexProviderTemplateMigrationView;

    open spec fn view(&self) -> CodexProviderTemplateMigrationView {
        CodexProviderTemplateMigrationView {
            completed_at: self.completed_at@,
            migrated_provider_ids: self.migrated_provider_ids.deep_view(),
        }
    }
}

impl Clone for CodexProviderTemplateMigration {
    fn clone(&self) -> (copy: Self)
        ensures
            copy@ == self@,
    {
        let copy = CodexProviderTemplateMigration {
            completed_at: self.completed_at.clone(),
            migrated_provider_ids: self.migrated_provider_ids.clone(),
        };
        assert(copy.migrated_provider_ids@ =~= self.migrated_provider_ids@);
        copy
    }
}

/// Mark left when the official Codex sessions were moved into the shared bucket.
#[derive(Debug)]
pub struct CodexOfficialHistoryUnifyMigration {
    pub completed_at: String,
    pub target_provider_id: String,
    pub migrated_jsonl_files: usize,
    pub migrated_state_rows: usize,
    pub codex_config_dir: Option<String>,
}

/// Model of [`CodexOfficialHistoryUnifyMigration`].
#[verifier::ext_equal]
pub struct CodexOfficialHistoryUnifyMigrationView {
    pub completed_at: Seq<char>,
    pub target_provider_id: Seq<char>,
    pub migrated_jsonl_files: usize,
    pub migrated_state_rows: usize,
    pub codex_config_dir: Option<Seq<char>>,
}

impl View for CodexOfficialHistoryUnifyMigration {
    type V = CodexOfficialHistoryUnifyMigrationView;

    open spec fn view(&self) -> CodexOfficialHistoryUnifyMigrationView {
        CodexOfficialHistoryUnifyMigrationView {
            completed_at: self.completed_at@,
            target_provider_id: self.target_provider_id@,
            migrated_jsonl_files: self.migrated_jsonl_files,
            migrated_state_rows: self.migrated_state_rows,
            codex_config_dir: self.codex_config_dir.deep_view(),
        }
    }
}

impl Clone for CodexOfficialHistoryUnifyMigration {
    fn clone(&self) -> (copy: Self)
        ensures
            copy@ == self@,
    {
        CodexOfficialHistoryUnifyMigration {
            completed_at: self.completed_at.clone(),
            target_provider_id: self.target_provider_id.clone(),
            migrated_jsonl_files: self.migrated_jsonl_files,
            migrated_state_rows: self.migrated_state_rows,
            codex_config_dir: self.codex_config_dir.clone(),
        }
    }
}

/// Marks of the migrations that ran on this machine. Only the backend writes them.
#[derive(Debug)]
pub struct LocalMigrations {
    pub codex_third_party_history_provider_bucket_v1: Option<CodexThirdPartyHistoryProviderBucketMigration>,
    pub codex_provider_template_v1: Option<CodexProviderTemplateMigration>,
    pub codex_official_history_unify_v1: Option<CodexOfficialHistoryUnifyMigration>,
}

/// Model of [`LocalMigrations`].
#[verifier::ext_equal]
pub struct LocalMigrationsView {
    pub codex_third_party_history_provider_bucket_v1: Option<CodexThirdPartyHistoryProviderBucketMigrationView>,
    pub codex_provider_template_v1: Option<CodexProviderTemplateMigrationView>,
    pub codex_official_history_unify_v1: Option<CodexOfficialHistoryUnifyMigrationView>,
}

impl View for LocalMigrations {
    type V = LocalMigrationsView;

    open spec fn view(&self) -> LocalMigrationsView {
        LocalMigrationsView {
            codex_third_party_history_provider_bucket_v1: option_view(self.codex_third_party_history_provider_bucket_v1),
            codex_provider_template_v1: option_view(self.codex_provider_template_v1),
            codex_official_history_unify_v1: option_view(self.codex_official_history_unify_v1),
        }
    }
}

impl Clone for LocalMigrations {
    fn clone(&self) -> (copy: Self)
        ensures
            copy@ == self@,
    {
        LocalMigrations {
            codex_third_party_history_provider_bucket_v1: self.codex_third_party_history_provider_bucket_v1.clone(),
            codex_provider_template_v1: self.codex_provider_template_v1.clone(),
            codex_official_history_unify_v1: self.codex_official_history_unify_v1.clone(),
        }
    }
}

impl LocalMigrationsView {
    /// The value with nothing set.
    pub open spec fn empty() -> Self {
        LocalMigrationsView {
            codex_third_party_history_provider_bucket_v1: None,
            codex_provider_template_v1: None,
            codex_official_history_unify_v1: None,
        }
    }
}

impl Default for LocalMigrations {
    fn default() -> (value: Self)
        ensures
            value@ == LocalMigrationsView::empty(),
    {
        LocalMigrations {
            codex_third_party_history_provider_bucket_v1: None,
            codex_provider_template_v1: None,
            codex_official_history_unify_v1: None,
        }
    }
}

/// The application's settings.
#[derive(Debug)]
pub struct AppSettings {
    /// Identifier of the Codex provider in use.
    pub current_provider_codex: Option<String>,
    /// Whether official and third-party Codex sessions share one history.
    pub unify_codex_session_history: bool,
    /// Whether the user asked for existing official sessions to be moved as well.
    pub unify_codex_migrate_existing: Option<bool>,
    pub webdav_sync: Option<WebDavSyncSettings>,
    pub s3_sync: Option<S3SyncSettings>,
    pub local_migrations: Option<LocalMigrations>,
    /// All remaining preferences in serialized form; carried, never read.
    pub other: String,
}

/// Model of [`AppSettings`].
#[verifier::ext_equal]
pub struct AppSettingsView {
    pub current_provider_codex: Option<Seq<char>>,
    pub unify_codex_session_history: bool,
    pub unify_codex_migrate_existing: Option<bool>,
    pub webdav_sync: Option<WebDavSyncSettingsView>,
    pub s3_sync: Option<S3SyncSettingsView>,
    pub local_migrations: Option<LocalMigrationsView>,
    pub other: Seq<char>,
}

impl View for AppSettings {
    type V = AppSettingsView;

    open spec fn view(&self) -> AppSettingsView {
        AppSettingsView {
            current_provider_codex: self.current_provider_codex.deep_view(),
            unify_codex_session_history: self.unify_codex_session_history,
            unify_codex_migrate_existing: self.unify_codex_migrate_existing,
            webdav_sync: option_view(self.webdav_sync),
            s3_sync: option_view(self.s3_sync),
            local_migrations: option_view(self.local_migrations),
            other: self.other@,
        }
    }
}

impl Clone for AppSettings {
    fn clone(&self) -> (copy: Self)
        ensures
            copy@ == self@,
    {
        AppSettings {
            current_provider_codex: self.current_provider_codex.clone(),
            unify_codex_session_history: self.unify_codex_session_history,
            unify_codex_migrate_existing: self.unify_codex_migrate_existing,
            webdav_sync: self.webdav_sync.clone(),
            s3_sync: self.s3_sync.clone(),
            local_migrations: self.local_migrations.clone(),
            other: self.other.clone(),
        }
    }
}

impl AppSettingsView {
    /// The value with nothing set.
    pub open spec fn empty() -> Self {
        AppSettingsView {
            current_provider_codex: None,
            unify_codex_session_history: false,
            unify_codex_migrate_existing: None,
            webdav_sync: None,
            s3_sync: None,
            local_migrations: None,
            other: Seq::empty(),
        }
    }
}

impl Default for AppSettings {
    fn default() -> (value: Self)
        ensures
            value@ == AppSettingsView::empty(),
    {
        AppSettings {
            current_provider_codex: None,
            unify_codex_session_history: false,
            unify_codex_migrate_existing: None,
            webdav_sync: None,
            s3_sync: None,
            local_migrations: None,
            other: String::new(),
        }
    }
}

} // verus!
