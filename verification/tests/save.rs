//! Runs of a save, step by step.
use cc_switch_settings::merge::get_settings;
use cc_switch_settings::save::{save_settings, SaveAction, SaveSettings};
use cc_switch_settings::settings::{AppSettings, WebDavSyncSettings};

fn settings(unified: bool, marker: &str) -> AppSettings {
    AppSettings {
        unify_codex_session_history: unified,
        other: marker.to_string(),
        ..AppSettings::default()
    }
}

fn failed(cause: &str) -> Result<(), String> {
    Err(cause.to_string())
}

fn reply(save: &SaveSettings) -> Result<bool, String> {
    match save.action() {
        SaveAction::Reply(reply) => reply,
        action => panic!("the save is not over: {action:?}"),
    }
}

#[test]
fn unchanged_switch_is_a_plain_write() {
    let save = save_settings(settings(true, "new"), settings(true, "old"));
    assert!(matches!(save.action(), SaveAction::WriteSettings(written) if written.other == "new"));
    assert_eq!(reply(&save.next(Ok(()))), Ok(true));

    let save = save_settings(settings(false, "new"), settings(false, "old"));
    assert_eq!(reply(&save.next(failed("disk full"))), Err("disk full".to_string()));
}

#[test]
fn what_is_written_is_the_merged_settings() {
    let stored = AppSettings {
        webdav_sync: Some(WebDavSyncSettings {
            password: "secret".to_string(),
            ..WebDavSyncSettings::default()
        }),
        ..settings(false, "old")
    };
    let save = save_settings(settings(false, "new"), stored);
    match save.action() {
        SaveAction::WriteSettings(written) => {
            assert_eq!(written.webdav_sync.expect("kept").password, "secret");
            assert_eq!(written.other, "new");
        }
        action => panic!("unexpected step: {action:?}"),
    }
}

#[test]
fn saving_what_was_shown_writes_the_same_settings() {
    let stored = AppSettings {
        webdav_sync: Some(WebDavSyncSettings {
            password: "secret".to_string(),
            ..WebDavSyncSettings::default()
        }),
        ..settings(true, "old")
    };
    let shown = get_settings(stored.clone()).expect("never fails");
    let save = save_settings(shown, stored.clone());
    match save.action() {
        SaveAction::WriteSettings(written) => {
            assert_eq!(format!("{written:?}"), format!("{stored:?}"));
        }
        action => panic!("unexpected step: {action:?}"),
    }
    assert_eq!(reply(&save.next(Ok(()))), Ok(true));
}

#[test]
fn turning_the_switch_on_starts_the_migration() {
    let save = save_settings(settings(true, "new"), settings(false, "old"));
    let save = save.next(Ok(()));
    assert!(matches!(save.action(), SaveAction::RewriteLive));
    let save = save.next(Ok(()));
    assert!(matches!(save.action(), SaveAction::StartMigration));
    assert_eq!(reply(&save.next(Ok(()))), Ok(true));
}

#[test]
fn turning_the_switch_off_clears_the_traces() {
    let save = save_settings(settings(false, "new"), settings(true, "old"));
    let save = save.next(Ok(())).next(Ok(()));
    assert!(matches!(save.action(), SaveAction::ClearMigrationMark));
    let save = save.next(failed("locked"));
    assert!(matches!(save.action(), SaveAction::ClearMigrationIntent));
    assert_eq!(reply(&save.next(failed("locked"))), Ok(true));
}

#[test]
fn failed_rewrite_undoes_the_save() {
    let save = save_settings(settings(true, "new"), settings(false, "old"));
    let save = save.next(Ok(())).next(failed("custom provider is taken"));
    match save.action() {
        SaveAction::RestoreSettings(restored) => {
            assert_eq!(restored.other, "old");
            assert!(!restored.unify_codex_session_history);
        }
        action => panic!("unexpected step: {action:?}"),
    }
    let save = save.next(Ok(()));
    assert!(matches!(save.action(), SaveAction::RestoreLive));
    let message = "统一 Codex 会话历史开关未生效（live 配置重写失败）: custom provider is taken";
    assert_eq!(reply(&save.next(Ok(()))), Err(message.to_string()));
}

#[test]
fn failed_undoing_reports_the_first_cause() {
    let message = "统一 Codex 会话历史开关未生效（live 配置重写失败）: broken";
    let save = save_settings(settings(false, "new"), settings(true, "old"));
    let save = save.next(Ok(())).next(failed("broken")).next(failed("disk full"));
    assert_eq!(reply(&save), Err(message.to_string()));

    let save = save_settings(settings(false, "new"), settings(true, "old"));
    let save = save.next(Ok(())).next(failed("broken")).next(Ok(())).next(failed("again"));
    assert_eq!(reply(&save), Err(message.to_string()));
}

#[test]
fn reply_is_final() {
    let save = save_settings(settings(true, "new"), settings(false, "old"));
    let save = save.next(failed("read-only")).next(Ok(())).next(Ok(()));
    assert_eq!(reply(&save), Err("read-only".to_string()));
}

#[test]
fn every_save_is_over_after_four_steps() {
    for first in [true, false] {
        for second in [true, false] {
            for third in [true, false] {
                for on in [true, false] {
                    let mut save = save_settings(settings(on, "new"), settings(!on, "old"));
                    for went_well in [first, second, third, true] {
                        save = save.next(if went_well { Ok(()) } else { failed("no") });
                    }
                    assert_eq!(reply(&save).is_ok(), first && second);
                }
            }
        }
    }
}
