//! Runs of an update, the check for one and the progress of its download.
use cc_switch_settings::download::UpdateDownloadProgress;
use cc_switch_settings::exit::{restart_app, ExitStep};
use cc_switch_settings::update::{
    check_app_update_available, install_update_and_restart, InstallUpdate, Platform, UpdateAction,
    UpdateLookup, UpdateOutcome, UpdateStep,
};

fn failed(cause: &str) -> UpdateOutcome {
    UpdateOutcome::Failed(cause.to_string())
}

/// Runs an update to its end: every step goes well until as many are done as `good` says, then
/// `bad` comes.
fn run(
    platform: Platform,
    good: usize,
    bad: UpdateOutcome,
) -> (Vec<UpdateStep>, Result<bool, String>) {
    let mut bad = Some(bad);
    let mut steps = Vec::new();
    let mut update: InstallUpdate = install_update_and_restart(platform);
    loop {
        match update.action() {
            UpdateAction::Reply(reply) => return (steps, reply),
            UpdateAction::Perform(step) => {
                let outcome = if steps.len() == good { bad.take() } else { None };
                steps.push(step);
                update = update.next(outcome.unwrap_or(UpdateOutcome::Done));
            }
        }
    }
}

fn on_the_way_out(steps: &[UpdateStep]) -> bool {
    steps.iter().any(|step| matches!(step, UpdateStep::Exit(_)))
}

#[test]
fn installation_comes_first_outside_windows() {
    let (steps, reply) = run(Platform::Other, usize::MAX, UpdateOutcome::Done);
    assert_eq!(
        steps,
        vec![
            UpdateStep::BuildUpdater,
            UpdateStep::CheckForUpdate,
            UpdateStep::Download,
            UpdateStep::Install,
            UpdateStep::Exit(ExitStep::SaveWindowState),
            UpdateStep::Exit(ExitStep::CleanUp),
            UpdateStep::Exit(ExitStep::Wait { millis: 100 }),
            UpdateStep::Exit(ExitStep::Restart),
        ]
    );
    assert_eq!(reply, Ok(true));
}

#[test]
fn installation_comes_last_on_windows() {
    let (steps, reply) = run(Platform::Windows, usize::MAX, UpdateOutcome::Done);
    assert_eq!(
        steps,
        vec![
            UpdateStep::BuildUpdater,
            UpdateStep::CheckForUpdate,
            UpdateStep::Download,
            UpdateStep::Exit(ExitStep::SaveWindowState),
            UpdateStep::Exit(ExitStep::CleanUp),
            UpdateStep::Exit(ExitStep::RemoveTrayIcon),
            UpdateStep::Exit(ExitStep::ReleaseInstanceLock),
            UpdateStep::Exit(ExitStep::Wait { millis: 100 }),
            UpdateStep::Install,
        ]
    );
    assert_eq!(reply, Ok(true));
}

#[test]
fn nothing_newer_replies_false() {
    for platform in [Platform::Windows, Platform::Other] {
        let (steps, reply) = run(platform, 1, UpdateOutcome::NoUpdate);
        assert_eq!(steps, vec![UpdateStep::BuildUpdater, UpdateStep::CheckForUpdate]);
        assert_eq!(reply, Ok(false));
    }
}

#[test]
fn failures_are_labelled_by_their_step() {
    for platform in [Platform::Windows, Platform::Other] {
        assert_eq!(run(platform, 0, failed("a")).1, Err("初始化更新器失败: a".to_string()));
        assert_eq!(run(platform, 1, failed("b")).1, Err("检查更新失败: b".to_string()));
        assert_eq!(run(platform, 2, failed("c")).1, Err("下载更新失败: c".to_string()));
    }
    let (steps, reply) = run(Platform::Other, 3, failed("d"));
    assert_eq!(reply, Err("安装更新失败: d".to_string()));
    assert!(!on_the_way_out(&steps));
    let (steps, reply) = run(Platform::Windows, 8, failed("e"));
    let message = "Windows 更新安装失败: e。已执行退出前清理，代理或 Live 接管可能已暂停；\
                   请重启应用或重新开启代理后再试。";
    assert_eq!(reply, Err(message.to_string()));
    assert!(on_the_way_out(&steps));
}

#[test]
fn steps_on_the_way_out_do_not_end_the_update() {
    let (steps, reply) = run(Platform::Other, 5, failed("ignored"));
    assert_eq!(steps.len(), 8);
    assert_eq!(reply, Ok(true));
    let (steps, reply) = run(Platform::Windows, 2, UpdateOutcome::NoUpdate);
    assert_eq!(steps.len(), 9);
    assert_eq!(reply, Ok(true));
}

#[test]
fn update_keeps_its_reply() {
    let update = install_update_and_restart(Platform::Other);
    let update = update.next(failed("a")).next(UpdateOutcome::Done);
    assert!(
        matches!(update.action(), UpdateAction::Reply(Err(message)) if message == "初始化更新器失败: a")
    );
}

#[test]
fn check_reports_the_version_on_offer() {
    let found = UpdateLookup::Checked(Some("3.9.0".to_string()));
    assert_eq!(check_app_update_available(found), Ok(Some("3.9.0".to_string())));
    assert_eq!(check_app_update_available(UpdateLookup::Checked(None)), Ok(None));
    let lookup = UpdateLookup::BuildFailed("no endpoint".to_string());
    assert_eq!(
        check_app_update_available(lookup),
        Err("初始化更新器失败: no endpoint".to_string())
    );
    let lookup = UpdateLookup::CheckFailed("timeout".to_string());
    assert_eq!(check_app_update_available(lookup), Err("检查更新失败: timeout".to_string()));
}

#[test]
fn restart_cleans_up_after_the_reply() {
    let plan = restart_app();
    assert_eq!(plan.before_reply, vec![ExitStep::SaveWindowState]);
    assert_eq!(plan.reply, Ok(true));
    assert_eq!(
        plan.after_reply,
        vec![ExitStep::Wait { millis: 100 }, ExitStep::CleanUp, ExitStep::Restart]
    );
}

#[test]
fn progress_adds_up_the_chunks() {
    let mut progress = UpdateDownloadProgress::start();
    assert_eq!(progress, UpdateDownloadProgress { downloaded: 0, total: None });
    progress.advance(10, None);
    assert_eq!(progress, UpdateDownloadProgress { downloaded: 10, total: None });
    progress.advance(32, Some(50));
    assert_eq!(progress, UpdateDownloadProgress { downloaded: 42, total: Some(50) });
    progress.advance(0, None);
    assert_eq!(progress, UpdateDownloadProgress { downloaded: 42, total: None });
}

#[test]
fn progress_stops_at_the_largest_count() {
    let mut progress = UpdateDownloadProgress { downloaded: u64::MAX - 1, total: None };
    progress.advance(5, None);
    assert_eq!(progress.downloaded, u64::MAX);
    progress.advance(1, None);
    assert_eq!(progress.downloaded, u64::MAX);
}
