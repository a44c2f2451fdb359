//! Saving the settings.
//!
//! A save writes the merged settings. Where it flips the switch that unifies the Codex session
//! history, the live Codex configuration is rewritten at once, so that it follows the switch.
//! If that rewrite fails, the whole save is undone and reported as failed: with the switch
//! flipped and the live configuration left behind, sessions would split over two histories.
//! After the switch has gone on, existing sessions are migrated in the background; after it
//! has gone off, the traces of an earlier migration are cleared, so that it can run again.
//!
//! [`SaveSettings`] says which step is due; the caller performs it and reports how it went.
use vstd::prelude::*;

#[allow(unused_imports)]
use crate::merge::merged_settings;
use crate::merge::merge_settings_for_save;
use crate::reply::labelled;
#[allow(unused_imports)]
use crate::reply::reply_view;
use crate::settings::AppSettings;
#[allow(unused_imports)]
use crate::settings::AppSettingsView;

verus! {

/// Label of the failure to rewrite the live configuration.
pub const LIVE_REWRITE_FAILED: &'static str = "统一 Codex 会话历史开关未生效（live 配置重写失败）: ";

/// How far a save has come.
#[derive(Debug)]
pub enum SaveStage {
    WritingSettings,
    RewritingLive,
    /// The rewrite of the live configuration failed; the settings before the save are due.
    RestoringSettings { cause: String },
    /// The settings before the save are back; the live configuration is due once more, since
    /// the failed rewrite may have changed a part of it.
    RestoringLive { cause: String },
    StartingMigration,
    ClearingMigrationMark,
    ClearingMigrationIntent,
    Finished(Result<bool, String>),
}

/// Model of [`SaveStage`].
pub enum SaveStageView {
    WritingSettings,
    RewritingLive,
    RestoringSettings { cause: Seq<char> },
    RestoringLive { cause: Seq<char> },
    StartingMigration,
    ClearingMigrationMark,
    ClearingMigrationIntent,
    Finished(Result<bool, Seq<char>>),
}

impl View for SaveStage {
    type V = SaveStageView;

    open spec fn view(&self) -> SaveStageView {
        match self {
            SaveStage::WritingSettings => SaveStageView::WritingSettings,
            SaveStage::RewritingLive => SaveStageView::RewritingLive,
            SaveStage::RestoringSettings { cause } => SaveStageView::RestoringSettings {
                cause: cause@,
            },
            SaveStage::RestoringLive { cause } => SaveStageView::RestoringLive { cause: cause@ },
            SaveStage::StartingMigration => SaveStageView::StartingMigration,
            SaveStage::ClearingMigrationMark => SaveStageView::ClearingMigrationMark,
            SaveStage::ClearingMigrationIntent => SaveStageView::ClearingMigrationIntent,
            SaveStage::Finished(reply) => SaveStageView::Finished(reply_view(*reply)),
        }
    }
}

/// A step that the caller is to perform.
#[derive(Debug)]
pub enum SaveAction {
    /// Store these settings.
    WriteSettings(AppSettings),
    /// Rewrite the live configuration of the official Codex provider, if it is the current one.
    RewriteLive,
    /// Store the settings that were in force before the save.
    RestoreSettings(AppSettings),
    /// Rewrite the live configuration again, now from the settings before the save.
    RestoreLive,
    /// Start the migration of existing sessions in the background, without waiting for it.
    StartMigration,
    /// Forget that a migration has been completed.
    ClearMigrationMark,
    /// Forget that the user asked for existing sessions to be migrated.
    ClearMigrationIntent,
    /// The save is over: answer the frontend.
    Reply(Result<bool, String>),
}

/// Model of [`SaveAction`].
pub enum SaveActionView {
    WriteSettings(AppSettingsView),
    RewriteLive,
    RestoreSettings(AppSettingsView),
    RestoreLive,
    StartMigration,
    ClearMigrationMark,
    ClearMigrationIntent,
    Reply(Result<bool, Seq<char>>),
}

impl View for SaveAction {
    type V = SaveActionView;

    open spec fn view(&self) -> SaveActionView {
        match self {
            SaveAction::WriteSettings(settings) => SaveActionView::WriteSettings(settings@),
            SaveAction::RewriteLive => SaveActionView::RewriteLive,
            SaveAction::RestoreSettings(settings) => SaveActionView::RestoreSettings(settings@),
            SaveAction::RestoreLive => SaveActionView::RestoreLive,
            SaveAction::StartMigration => SaveActionView::StartMigration,
            SaveAction::ClearMigrationMark => SaveActionView::ClearMigrationMark,
            SaveAction::ClearMigrationIntent => SaveActionView::ClearMigrationIntent,
            SaveAction::Reply(reply) => SaveActionView::Reply(reply_view(*reply)),
        }
    }
}

/// A save under way.
#[derive(Debug)]
pub struct SaveSettings {
    pub merged: AppSettings,
    pub existing: AppSettings,
    pub stage: SaveStage,
}

/// Model of [`SaveSettings`].
pub struct SaveSettingsView {
    pub merged: AppSettingsView,
    pub existing: AppSettingsView,
    pub stage: SaveStageView,
}

impl View for SaveSettings {
    type V = SaveSettingsView;

    open spec fn view(&self) -> SaveSettingsView {
        SaveSettingsView {
            merged: self.merged@,
            existing: self.existing@,
            stage: self.stage@,
        }
    }
}

impl SaveSettingsView {
    /// The save of `incoming` over `existing`, before its first step.
    pub open spec fn start(incoming: AppSettingsView, existing: AppSettingsView) -> Self {
        SaveSettingsView {
            merged: merged_settings(incoming, existing),
            existing,
            stage: SaveStageView::WritingSettings,
        }
    }

    /// Whether the save flips the switch that unifies the session history.
    pub open spec fn flips_switch(self) -> bool {
        self.merged.unify_codex_session_history != self.existing.unify_codex_session_history
    }

    /// The step that is due.
    pub open spec fn action(self) -> SaveActionView {
        match self.stage {
            SaveStageView::WritingSettings => SaveActionView::WriteSettings(self.merged),
            SaveStageView::RewritingLive => SaveActionView::RewriteLive,
            SaveStageView::RestoringSettings { .. } => SaveActionView::RestoreSettings(
                self.existing,
            ),
            SaveStageView::RestoringLive { .. } => SaveActionView::RestoreLive,
            SaveStageView::StartingMigration => SaveActionView::StartMigration,
            SaveStageView::ClearingMigrationMark => SaveActionView::ClearMigrationMark,
            SaveStageView::ClearingMigrationIntent => SaveActionView::ClearMigrationIntent,
            SaveStageView::Finished(reply) => SaveActionView::Reply(reply),
        }
    }

    /// The stage that follows once the step that is due has gone as `outcome` says.
    pub open spec fn next_stage(self, outcome: Result<(), Seq<char>>) -> SaveStageView {
        match self.stage {
            SaveStageView::WritingSettings => match outcome {
                Err(cause) => SaveStageView::Finished(Err(cause)),
                Ok(()) => if self.flips_switch() {
                    SaveStageView::RewritingLive
                } else {
                    SaveStageView::Finished(Ok(true))
                },
            },
            SaveStageView::RewritingLive => match outcome {
                Err(cause) => SaveStageView::RestoringSettings { cause },
                Ok(()) => if self.merged.unify_codex_session_history {
                    SaveStageView::StartingMigration
                } else {
                    SaveStageView::ClearingMigrationMark
                },
            },
            SaveStageView::RestoringSettings { cause } => match outcome {
                Err(_) => SaveStageView::Finished(Err(LIVE_REWRITE_FAILED@ + cause)),
                Ok(()) => SaveStageView::RestoringLive { cause },
            },
            SaveStageView::RestoringLive { cause } => SaveStageView::Finished(
                Err(LIVE_REWRITE_FAILED@ + cause),
            ),
            SaveStageView::StartingMigration => SaveStageView::Finished(Ok(true)),
            SaveStageView::ClearingMigrationMark => SaveStageView::ClearingMigrationIntent,
            SaveStageView::ClearingMigrationIntent => SaveStageView::Finished(Ok(true)),
            SaveStageView::Finished(reply) => SaveStageView::Finished(reply),
        }
    }

    /// The save after the step that is due has gone as `outcome` says.
    pub open spec fn next(self, outcome: Result<(), Seq<char>>) -> Self {
        SaveSettingsView { stage: self.next_stage(outcome), ..self }
    }

    /// The save after as many steps as there are outcomes.
    pub open spec fn run(self, outcomes: Seq<Result<(), Seq<char>>>) -> Self
        decreases outcomes.len(),
    {
        if outcomes.len() == 0 {
            self
        } else {
            self.next(outcomes.first()).run(outcomes.drop_first())
        }
    }

    /// Whether the save has its reply.
    pub open spec fn is_finished(self) -> bool {
        self.stage is Finished
    }

    /// The largest number of steps before the save has its reply.
    pub open spec fn steps_left(self) -> nat {
        match self.stage {
            SaveStageView::WritingSettings => if self.flips_switch() {
                4
            } else {
                1
            },
            SaveStageView::RewritingLive => 3,
            SaveStageView::RestoringSettings { .. } => 2,
            SaveStageView::RestoringLive { .. } => 1,
            SaveStageView::StartingMigration => 1,
            SaveStageView::ClearingMigrationMark => 2,
            SaveStageView::ClearingMigrationIntent => 1,
            SaveStageView::Finished(_) => 0,
        }
    }
}

/// Starts the save of the settings that the frontend sends over those in force.
pub fn save_settings(settings: AppSettings, existing: AppSettings) -> (save: SaveSettings)
    ensures
        save@ == SaveSettingsView::start(settings@, existing@),
{
    let merged = merge_settings_for_save(settings, &existing);
    SaveSettings { merged, existing, stage: SaveStage::WritingSettings }
}

impl SaveSettings {
    /// The step that is due.
    pub fn action(&self) -> (action: SaveAction)
        ensures
            action@ == self@.action(),
    {
        match &self.stage {
            SaveStage::WritingSettings => SaveAction::WriteSettings(self.merged.clone()),
            SaveStage::RewritingLive => SaveAction::RewriteLive,
            SaveStage::RestoringSettings { .. } => SaveAction::RestoreSettings(
                self.existing.clone(),
            ),
            SaveStage::RestoringLive { .. } => SaveAction::RestoreLive,
            SaveStage::StartingMigration => SaveAction::StartMigration,
            SaveStage::ClearingMigrationMark => SaveAction::ClearMigrationMark,
            SaveStage::ClearingMigrationIntent => SaveAction::ClearMigrationIntent,
            SaveStage::Finished(reply) => SaveAction::Reply(
                match reply {
                    Ok(saved) => Ok(*saved),
                    Err(message) => Err(message.clone()),
                },
            ),
        }
    }

    /// Goes on after the step that was due: `outcome` says how it went. A migration that was
    /// started, or a trace that could not be cleared, does not change the reply.
    pub fn next(self, outcome: Result<(), String>) -> (save: SaveSettings)
        ensures
            save@ == self@.next(reply_view(outcome)),
    {
        let flipped = self.merged.unify_codex_session_history
            != self.existing.unify_codex_session_history;
        let stage = match self.stage {
            SaveStage::WritingSettings => match outcome {
                Err(cause) => SaveStage::Finished(Err(cause)),
                Ok(()) => if flipped {
                    SaveStage::RewritingLive
                } else {
                    SaveStage::Finished(Ok(true))
                },
            },
            SaveStage::RewritingLive => match outcome {
                Err(cause) => SaveStage::RestoringSettings { cause },
                Ok(()) => if self.merged.unify_codex_session_history {
                    SaveStage::StartingMigration
                } else {
                    SaveStage::ClearingMigrationMark
                },
            },
            SaveStage::RestoringSettings { cause } => match outcome {
                Err(_) => SaveStage::Finished(Err(labelled(LIVE_REWRITE_FAILED, cause.as_str()))),
                Ok(()) => SaveStage::RestoringLive { cause },
            },
            SaveStage::RestoringLive { cause } => SaveStage::Finished(
                Err(labelled(LIVE_REWRITE_FAILED, cause.as_str())),
            ),
            SaveStage::StartingMigration => SaveStage::Finished(Ok(true)),
            SaveStage::ClearingMigrationMark => SaveStage::ClearingMigrationIntent,
            SaveStage::ClearingMigrationIntent => SaveStage::Finished(Ok(true)),
            SaveStage::Finished(reply) => SaveStage::Finished(reply),
        };
        SaveSettings { merged: self.merged, existing: self.existing, stage }
    }
}

} // verus!
