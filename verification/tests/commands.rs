//! The commands that report how one outside step went.
use cc_switch_settings::auto_launch::{
    auto_launch_change, get_auto_launch_status, set_auto_launch, AutoLaunchChange,
};
use cc_switch_settings::config::{
    log_config_stored, set_app_config_dir_override, set_copilot_optimizer_config, set_log_config,
    set_optimizer_config, set_rectifier_config,
};
use cc_switch_settings::history::{restore_codex_unified_history, HistoryRestoreOutcome};
use cc_switch_settings::logger::MaxLevel;
use cc_switch_settings::reply::{acknowledge, labelled};
use log::LevelFilter;

fn failed<T>(cause: &str) -> Result<T, String> {
    Err(cause.to_string())
}

#[test]
fn auto_launch_is_changed_as_wanted() {
    assert_eq!(auto_launch_change(true), AutoLaunchChange::Enable);
    assert_eq!(auto_launch_change(false), AutoLaunchChange::Disable);
    assert_eq!(set_auto_launch(true, Ok(())), Ok(true));
    assert_eq!(set_auto_launch(false, Ok(())), Ok(true));
    assert_eq!(set_auto_launch(true, failed("denied")), failed("启用开机自启失败: denied"));
    assert_eq!(set_auto_launch(false, failed("denied")), failed("禁用开机自启失败: denied"));
}

#[test]
fn auto_launch_status_is_reported() {
    assert_eq!(get_auto_launch_status(Ok(true)), Ok(true));
    assert_eq!(get_auto_launch_status(Ok(false)), Ok(false));
    assert_eq!(get_auto_launch_status(failed("denied")), failed("获取开机自启状态失败: denied"));
}

#[test]
fn stored_configurations_are_acknowledged() {
    let commands = [
        acknowledge,
        set_rectifier_config,
        set_optimizer_config,
        set_copilot_optimizer_config,
        set_app_config_dir_override,
    ];
    for command in commands {
        assert_eq!(command(Ok(())), Ok(true));
        assert_eq!(command(failed("database is locked")), failed("database is locked"));
    }
}

#[test]
fn log_level_changes_only_once_it_is_stored() {
    log::set_max_level(LevelFilter::Warn);
    let mut hold = MaxLevel::new();
    assert_eq!(
        set_log_config(&mut hold, failed("database is locked"), LevelFilter::Trace),
        failed("database is locked")
    );
    assert_eq!(log::max_level(), LevelFilter::Warn);
    assert_eq!(set_log_config(&mut hold, Ok(()), LevelFilter::Debug), Ok(true));
    assert_eq!(log::max_level(), LevelFilter::Debug);
    assert_eq!(set_log_config(&mut hold, Ok(()), LevelFilter::Off), Ok(true));
    assert_eq!(log::max_level(), LevelFilter::Off);
}

#[test]
fn log_level_decision() {
    let decision = log_config_stored(Ok(()), LevelFilter::Info);
    assert_eq!(decision.max_level, Some(LevelFilter::Info));
    assert_eq!(decision.reply, Ok(true));
    let decision = log_config_stored(failed("no"), LevelFilter::Info);
    assert_eq!(decision.max_level, None);
    assert_eq!(decision.reply, failed("no"));
}

#[test]
fn restored_history_is_reported() {
    let outcome = HistoryRestoreOutcome {
        restored_jsonl_files: 3,
        restored_state_rows: 4,
        skipped_reason: None,
    };
    let result = restore_codex_unified_history(Ok(Ok(outcome))).expect("restored");
    assert_eq!((result.restored_jsonl_files, result.restored_state_rows), (3, 4));
    assert_eq!(result.skipped_reason, None);
}

#[test]
fn skipped_restoration_says_why() {
    let outcome = HistoryRestoreOutcome {
        restored_jsonl_files: 0,
        restored_state_rows: 0,
        skipped_reason: Some("no ledger".to_string()),
    };
    let result = restore_codex_unified_history(Ok(Ok(outcome))).expect("skipped");
    assert_eq!(result.skipped_reason.as_deref(), Some("no ledger"));
}

#[test]
fn failed_restoration_says_why() {
    let reply = restore_codex_unified_history(Ok(failed("io")));
    assert_eq!(reply.err().as_deref(), Some("io"));
    let reply = restore_codex_unified_history(failed("task panicked"));
    assert_eq!(reply.err().as_deref(), Some("task panicked"));
}

#[test]
fn labels_precede_causes() {
    assert_eq!(labelled("失败: ", "原因"), "失败: 原因");
    assert_eq!(labelled("", ""), "");
}
