//! Leaving the running instance: the steps that have to precede a restart.
use vstd::prelude::*;

verus! {

/// Pause before the process goes away, so that replies and clean-up can get through.
pub const EXIT_DELAY_MILLIS: u64 = 100;

/// A step on the way out of the running instance. None of them can fail.
#[derive(Debug, Clone, Copy, PartialEq, Eq, Structural)]
pub enum ExitStep {
    /// Remember where the window stands.
    SaveWindowState,
    /// Stop the proxy and put back the live configurations that it has taken over.
    CleanUp,
    /// Take the tray icon away: a process that ends abruptly leaves a dead one behind.
    RemoveTrayIcon,
    /// Let go of the lock that keeps a second instance from starting.
    ReleaseInstanceLock,
    /// Wait for this many milliseconds.
    Wait { millis: u64 },
    /// Start the application anew in place of this process.
    Restart,
}

/// A restart on request: what is done before the frontend has its reply, the reply, and what is
/// done in the background afterwards.
#[derive(Debug)]
pub struct RestartPlan {
    pub before_reply: Vec<ExitStep>,
    pub reply: Result<bool, String>,
    pub after_reply: Vec<ExitStep>,
}

/// The plan of a restart after the configuration directory has changed.
///
/// The new instance opens another database and cannot find this one's backups of the live
/// configurations, so this instance puts them back itself before it restarts.
pub fn restart_app() -> (plan: RestartPlan)
    ensures
        plan.before_reply@ == seq![ExitStep::SaveWindowState],
        plan.reply == Ok::<bool, String>(true),
        plan.after_reply@ == seq![
            ExitStep::Wait { millis: EXIT_DELAY_MILLIS },
            ExitStep::CleanUp,
            ExitStep::Restart,
        ],
{
    let before_reply = vec![ExitStep::SaveWindowState];
    let after_reply = vec![
        ExitStep::Wait { millis: EXIT_DELAY_MILLIS },
        ExitStep::CleanUp,
        ExitStep::Restart,
    ];
    assert(before_reply@ =~= seq![ExitStep::SaveWindowState]);
    RestartPlan { before_reply, reply: Ok(true), after_reply }
}

} // verus!
