//! Looking for an update of the application, installing it and restarting.
//!
//! Everything from the check to the restart runs in the backend: an update replaces the
//! application's files in place, so the frontend of the old process cannot be relied on to go
//! on. On Windows the installer ends the process from within, so the way out is prepared before
//! it is started. Elsewhere the installation comes first, so that the proxy keeps running if it
//! fails.
//!
//! [`InstallUpdate`] says which step is due; the caller performs it and reports how it went.
use vstd::prelude::*;
use vstd::string::*;

use crate::exit::{ExitStep, EXIT_DELAY_MILLIS};
use crate::reply::labelled;
#[allow(unused_imports)]
use crate::reply::reply_view;

verus! {

/// Label of the failure to set the updater up.
pub const BUILD_FAILED: &'static str = "初始化更新器失败: ";

/// Label of the failure to check for an update.
pub const CHECK_FAILED: &'static str = "检查更新失败: ";

/// Label of the failure to download an update.
pub const DOWNLOAD_FAILED: &'static str = "下载更新失败: ";

/// Label of the failure to install an update, except on Windows.
pub const INSTALL_FAILED: &'static str = "安装更新失败: ";

/// Label of the failure to install an update on Windows.
pub const WINDOWS_INSTALL_FAILED: &'static str = "Windows 更新安装失败: ";

/// What the user has to know after a failed installation on Windows: the proxy has been stopped.
pub const WINDOWS_INSTALL_ADVICE: &'static str =
    "。已执行退出前清理，代理或 Live 接管可能已暂停；请重启应用或重新开启代理后再试。";

/// The systems that differ in how an update is installed.
#[derive(Debug, Clone, Copy, PartialEq, Eq, Structural)]
pub enum Platform {
    Windows,
    Other,
}

/// What a look at the update server brought.
#[derive(Debug)]
pub enum UpdateLookup {
    /// The updater could not be set up.
    BuildFailed(String),
    /// The server could not be asked.
    CheckFailed(String),
    /// The version of the update on offer, if there is one.
    Checked(Option<String>),
}

/// Model of [`UpdateLookup`].
pub enum UpdateLookupView {
    BuildFailed(Seq<char>),
    CheckFailed(Seq<char>),
    Checked(Option<Seq<char>>),
}

impl View for UpdateLookup {
    type V = UpdateLookupView;

    open spec fn view(&self) -> UpdateLookupView {
        match self {
            UpdateLookup::BuildFailed(cause) => UpdateLookupView::BuildFailed(cause@),
            UpdateLookup::CheckFailed(cause) => UpdateLookupView::CheckFailed(cause@),
            UpdateLookup::Checked(version) => UpdateLookupView::Checked(version.deep_view()),
        }
    }
}

/// The version on offer, or why it is not known.
pub open spec fn available_update(lookup: UpdateLookupView) -> Result<
    Option<Seq<char>>,
    Seq<char>,
> {
    match lookup {
        UpdateLookupView::BuildFailed(cause) => Err(BUILD_FAILED@ + cause),
        UpdateLookupView::CheckFailed(cause) => Err(CHECK_FAILED@ + cause),
        UpdateLookupView::Checked(version) => Ok(version),
    }
}

/// Reports which newer version is on offer; `None` says that the application is up to date.
pub fn check_app_update_available(lookup: UpdateLookup) -> (reply: Result<Option<String>, String>)
    ensures
        match reply {
            Ok(version) => available_update(lookup@) == Ok::<_, Seq<char>>(version.deep_view()),
            Err(message) => available_update(lookup@) == Err::<Option<Seq<char>>, _>(message@),
        },
{
    match lookup {
        UpdateLookup::BuildFailed(cause) => Err(labelled(BUILD_FAILED, cause.as_str())),
        UpdateLookup::CheckFailed(cause) => Err(labelled(CHECK_FAILED, cause.as_str())),
        UpdateLookup::Checked(version) => Ok(version),
    }
}

/// A step of an update.
#[derive(Debug, Clone, Copy, PartialEq, Eq, Structural)]
pub enum UpdateStep {
    BuildUpdater,
    CheckForUpdate,
    Download,
    Install,
    Exit(ExitStep),
}

/// How a step went.
#[derive(Debug)]
pub enum UpdateOutcome {
    Done,
    /// The check found nothing newer. Of any other step it says no more than `Done`.
    NoUpdate,
    /// The step failed. Of a step that cannot fail it says no more than `Done`.
    Failed(String),
}

/// Model of [`UpdateOutcome`].
pub enum UpdateOutcomeView {
    Done,
    NoUpdate,
    Failed(Seq<char>),
}

impl View for UpdateOutcome {
    type V = UpdateOutcomeView;

    open spec fn view(&self) -> UpdateOutcomeView {
        match self {
            UpdateOutcome::Done => UpdateOutcomeView::Done,
            UpdateOutcome::NoUpdate => UpdateOutcomeView::NoUpdate,
            UpdateOutcome::Failed(cause) => UpdateOutcomeView::Failed(cause@),
        }
    }
}

/// The steps of an update that meets no obstacle, in order.
pub open spec fn update_plan(platform: Platform) -> Seq<UpdateStep> {
    match platform {
        Platform::Windows => seq![
            UpdateStep::BuildUpdater,
            UpdateStep::CheckForUpdate,
            UpdateStep::Download,
            UpdateStep::Exit(ExitStep::SaveWindowState),
            UpdateStep::Exit(ExitStep::CleanUp),
            UpdateStep::Exit(ExitStep::RemoveTrayIcon),
            UpdateStep::Exit(ExitStep::ReleaseInstanceLock),
            UpdateStep::Exit(ExitStep::Wait { millis: EXIT_DELAY_MILLIS }),
            UpdateStep::Install,
        ],
        Platform::Other => seq![
            UpdateStep::BuildUpdater,
            UpdateStep::CheckForUpdate,
            UpdateStep::Download,
            UpdateStep::Install,
            UpdateStep::Exit(ExitStep::SaveWindowState),
            UpdateStep::Exit(ExitStep::CleanUp),
            UpdateStep::Exit(ExitStep::Wait { millis: EXIT_DELAY_MILLIS }),
            UpdateStep::Exit(ExitStep::Restart),
        ],
    }
}

/// The reply with which a step ends the update, if its outcome does.
pub open spec fn ending(
    platform: Platform,
    step: UpdateStep,
    outcome: UpdateOutcomeView,
) -> Option<Result<bool, Seq<char>>> {
    match (step, outcome) {
        (UpdateStep::CheckForUpdate, UpdateOutcomeView::NoUpdate) => Some(Ok(false)),
        (UpdateStep::BuildUpdater, UpdateOutcomeView::Failed(cause)) => Some(
            Err(BUILD_FAILED@ + cause),
        ),
        (UpdateStep::CheckForUpdate, UpdateOutcomeView::Failed(cause)) => Some(
            Err(CHECK_FAILED@ + cause),
        ),
        (UpdateStep::Download, UpdateOutcomeView::Failed(cause)) => Some(
            Err(DOWNLOAD_FAILED@ + cause),
        ),
        (UpdateStep::Install, UpdateOutcomeView::Failed(cause)) => Some(
            Err(
                if platform == Platform::Windows {
                    WINDOWS_INSTALL_FAILED@ + cause + WINDOWS_INSTALL_ADVICE@
                } else {
                    INSTALL_FAILED@ + cause
                },
            ),
        ),
        _ => None,
    }
}

/// The stage of an update: so many steps of its plan done, or its reply.
pub enum UpdateStageView {
    Performed(nat),
    Finished(Result<bool, Seq<char>>),
}

/// Model of [`InstallUpdate`].
pub struct InstallUpdateView {
    pub platform: Platform,
    pub stage: UpdateStageView,
}

impl InstallUpdateView {
    /// An update before its first step.
    pub open spec fn start(platform: Platform) -> Self {
        InstallUpdateView { platform, stage: UpdateStageView::Performed(0) }
    }

    /// Whether the stage is one of the plan's.
    pub open spec fn well_formed(self) -> bool {
        self.stage matches UpdateStageView::Performed(done) ==> done < update_plan(
            self.platform,
        ).len()
    }

    /// The step that is due, if the update is not over.
    pub open spec fn step(self) -> Option<UpdateStep> {
        match self.stage {
            UpdateStageView::Performed(done) => Some(update_plan(self.platform)[done as int]),
            UpdateStageView::Finished(_) => None,
        }
    }

    /// The update after the step that is due has gone as `outcome` says. With the last step of
    /// its plan it has succeeded.
    pub open spec fn next(self, outcome: UpdateOutcomeView) -> Self {
        let plan = update_plan(self.platform);
        let stage = match self.stage {
            UpdateStageView::Finished(reply) => UpdateStageView::Finished(reply),
            UpdateStageView::Performed(done) => match ending(
                self.platform,
                plan[done as int],
                outcome,
            ) {
                Some(reply) => UpdateStageView::Finished(reply),
                None => if done + 1 < plan.len() {
                    UpdateStageView::Performed(done + 1)
                } else {
                    UpdateStageView::Finished(Ok(true))
                },
            },
        };
        InstallUpdateView { stage, ..self }
    }

    /// The update after as many steps as there are outcomes.
    pub open spec fn run(self, outcomes: Seq<UpdateOutcomeView>) -> Self
        decreases outcomes.len(),
    {
        if outcomes.len() == 0 {
            self
        } else {
            self.next(outcomes.first()).run(outcomes.drop_first())
        }
    }

    /// The steps that are performed while `outcomes` come in.
    pub open spec fn performed(self, outcomes: Seq<UpdateOutcomeView>) -> Seq<UpdateStep>
        decreases outcomes.len(),
    {
        if outcomes.len() == 0 || self.step() is None {
            Seq::empty()
        } else {
            seq![self.step()->0] + self.next(outcomes.first()).performed(outcomes.drop_first())
        }
    }
}

/// What the caller of an update is to do.
#[derive(Debug)]
pub enum UpdateAction {
    Perform(UpdateStep),
    /// The update is over: answer the frontend.
    Reply(Result<bool, String>),
}

/// How far an update has come.
#[derive(Debug)]
enum UpdateStage {
    Performed(usize),
    Finished(Result<bool, String>),
}

/// An update under way.
#[derive(Debug)]
pub struct InstallUpdate {
    platform: Platform,
    stage: UpdateStage,
}

impl View for InstallUpdate {
    type V = InstallUpdateView;

    closed spec fn view(&self) -> InstallUpdateView {
        InstallUpdateView {
            platform: self.platform,
            stage: match self.stage {
                UpdateStage::Performed(done) => UpdateStageView::Performed(done as nat),
                UpdateStage::Finished(reply) => UpdateStageView::Finished(reply_view(reply)),
            },
        }
    }
}

/// The steps of an update that meets no obstacle, in order.
fn plan_steps(platform: Platform) -> (steps: Vec<UpdateStep>)
    ensures
        steps@ == update_plan(platform),
{
    let steps = match platform {
        Platform::Windows => vec![
            UpdateStep::BuildUpdater,
            UpdateStep::CheckForUpdate,
            UpdateStep::Download,
            UpdateStep::Exit(ExitStep::SaveWindowState),
            UpdateStep::Exit(ExitStep::CleanUp),
            UpdateStep::Exit(ExitStep::RemoveTrayIcon),
            UpdateStep::Exit(ExitStep::ReleaseInstanceLock),
            UpdateStep::Exit(ExitStep::Wait { millis: EXIT_DELAY_MILLIS }),
            UpdateStep::Install,
        ],
        Platform::Other => vec![
            UpdateStep::BuildUpdater,
            UpdateStep::CheckForUpdate,
            UpdateStep::Download,
            UpdateStep::Install,
            UpdateStep::Exit(ExitStep::SaveWindowState),
            UpdateStep::Exit(ExitStep::CleanUp),
            UpdateStep::Exit(ExitStep::Wait { millis: EXIT_DELAY_MILLIS }),
            UpdateStep::Exit(ExitStep::Restart),
        ],
    };
    assert(steps@ =~= update_plan(platform));
    steps
}

/// The reply with which a step ends the update, if its outcome does.
fn ending_reply(platform: Platform, step: UpdateStep, outcome: UpdateOutcome) -> (reply: Option<
    Result<bool, String>,
>)
    ensures
        match reply {
            Some(reply) => ending(platform, step, outcome@) == Some(reply_view(reply)),
            None => ending(platform, step, outcome@) is None,
        },
{
    match outcome {
        UpdateOutcome::Done => None,
        UpdateOutcome::NoUpdate => match step {
            UpdateStep::CheckForUpdate => Some(Ok(false)),
            _ => None,
        },
        UpdateOutcome::Failed(cause) => match step {
            UpdateStep::BuildUpdater => Some(Err(labelled(BUILD_FAILED, cause.as_str()))),
            UpdateStep::CheckForUpdate => Some(Err(labelled(CHECK_FAILED, cause.as_str()))),
            UpdateStep::Download => Some(Err(labelled(DOWNLOAD_FAILED, cause.as_str()))),
            UpdateStep::Install => match platform {
                Platform::Windows => {
                    let message = labelled(WINDOWS_INSTALL_FAILED, cause.as_str());
                    Some(Err(message.concat(WINDOWS_INSTALL_ADVICE)))
                },
                Platform::Other => Some(Err(labelled(INSTALL_FAILED, cause.as_str()))),
            },
            UpdateStep::Exit(_) => None,
        },
    }
}

/// Starts an update of the application.
pub fn install_update_and_restart(platform: Platform) -> (update: InstallUpdate)
    ensures
        update@ == InstallUpdateView::start(platform),
{
    InstallUpdate { platform, stage: UpdateStage::Performed(0) }
}

impl InstallUpdate {
    #[verifier::type_invariant]
    closed spec fn stage_is_of_the_plan(self) -> bool {
        self@.well_formed()
    }

    /// What is due: a step, or the reply of the update.
    pub fn action(&self) -> (action: UpdateAction)
        ensures
            self@.well_formed(),
            match action {
                UpdateAction::Perform(step) => self@.step() == Some(step),
                UpdateAction::Reply(reply) => self@.stage == UpdateStageView::Finished(
                    reply_view(reply),
                ),
            },
    {
        proof {
            use_type_invariant(self);
        }
        match &self.stage {
            UpdateStage::Performed(done) => UpdateAction::Perform(plan_steps(self.platform)[*done]),
            UpdateStage::Finished(reply) => UpdateAction::Reply(
                match reply {
                    Ok(installed) => Ok(*installed),
                    Err(message) => Err(message.clone()),
                },
            ),
        }
    }

    /// Goes on after the step that was due: `outcome` says how it went. A restart does not come
    /// back to report.
    pub fn next(self, outcome: UpdateOutcome) -> (update: InstallUpdate)
        ensures
            update@ == self@.next(outcome@),
    {
        proof {
            use_type_invariant(&self);
        }
        let plan = plan_steps(self.platform);
        let stage = match self.stage {
            UpdateStage::Finished(reply) => UpdateStage::Finished(reply),
            UpdateStage::Performed(done) => match ending_reply(self.platform, plan[done], outcome) {
                Some(reply) => UpdateStage::Finished(reply),
                None => if done + 1 < plan.len() {
                    UpdateStage::Performed(done + 1)
                } else {
                    UpdateStage::Finished(Ok(true))
                },
            },
        };
        InstallUpdate { platform: self.platform, stage }
    }
}

} // verus!
