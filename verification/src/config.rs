//! Storing the configurations that the application keeps beside its settings.
use vstd::prelude::*;

use log::LevelFilter;

use crate::logger::MaxLevel;
use crate::reply::acknowledge;
#[allow(unused_imports)]
use crate::reply::{acknowledged, reply_view};

verus! {

/// What storing the configuration of the logs leads to.
pub struct LogConfigStored {
    /// The verbosity that the process is to log at from now on, if it is to change.
    pub max_level: Option<LevelFilter>,
    pub reply: Result<bool, String>,
}

/// Decides what follows once the configuration of the logs, of verbosity `level`, has been stored
/// or not: the process changes to it only if it has been stored.
pub fn log_config_stored(stored: Result<(), String>, level: LevelFilter) -> (decision:
    LogConfigStored)
    ensures
        reply_view(decision.reply) == acknowledged(reply_view(stored)),
        decision.max_level == if stored is Ok {
            Some(level)
        } else {
            None
        },
{
    let max_level = match &stored {
        Ok(()) => Some(level),
        Err(_) => None,
    };
    LogConfigStored { max_level, reply: acknowledge(stored) }
}

/// Puts the configuration of the logs, of verbosity `level`, in force once it has been stored, and
/// replies. If it has not been stored, nothing is handed to the logger.
///
/// The contract speaks of what goes through `hold`. The verbosity itself belongs to the whole
/// process and can be set by anyone, so it says nothing of levels that go another way.
pub fn set_log_config(
    hold: &mut MaxLevel,
    stored: Result<(), String>,
    level: LevelFilter,
) -> (reply: Result<bool, String>)
    ensures
        reply_view(reply) == acknowledged(reply_view(stored)),
        final(hold).handed() == if stored is Ok {
            old(hold).handed().push(level)
        } else {
            old(hold).handed()
        },
{
    let decision = log_config_stored(stored, level);
    match decision.max_level {
        Some(max_level) => hold.set(max_level),
        None => {},
    }
    decision.reply
}

/// Replies once the configuration of the rectifier has been stored or not.
pub fn set_rectifier_config(stored: Result<(), String>) -> (reply: Result<bool, String>)
    ensures
        reply_view(reply) == acknowledged(reply_view(stored)),
{
    acknowledge(stored)
}

/// Replies once the configuration of the optimizer has been stored or not.
pub fn set_optimizer_config(stored: Result<(), String>) -> (reply: Result<bool, String>)
    ensures
        reply_view(reply) == acknowledged(reply_view(stored)),
{
    acknowledge(stored)
}

/// Replies once the configuration of the Copilot optimizer has been stored or not.
pub fn set_copilot_optimizer_config(stored: Result<(), String>) -> (reply: Result<bool, String>)
    ensures
        reply_view(reply) == acknowledged(reply_view(stored)),
{
    acknowledge(stored)
}

/// Replies once the configuration directory to use instead of the usual one has been stored or
/// not.
pub fn set_app_config_dir_override(stored: Result<(), String>) -> (reply: Result<bool, String>)
    ensures
        reply_view(reply) == acknowledged(reply_view(stored)),
{
    acknowledge(stored)
}

} // verus!
