//! Starting the application when the user logs in.
use vstd::prelude::*;

use crate::reply::labelled;
#[allow(unused_imports)]
use crate::reply::reply_view;

verus! {

/// Label of the failure to register the application.
pub const ENABLE_FAILED: &'static str = "启用开机自启失败: ";

/// Label of the failure to take the registration back.
pub const DISABLE_FAILED: &'static str = "禁用开机自启失败: ";

/// Label of the failure to find out whether the application is registered.
pub const STATUS_FAILED: &'static str = "获取开机自启状态失败: ";

/// What is to be done to the registration.
#[derive(Debug, Clone, Copy, PartialEq, Eq, Structural)]
pub enum AutoLaunchChange {
    Enable,
    Disable,
}

/// The change that brings the registration to the wanted state.
pub fn auto_launch_change(enabled: bool) -> (change: AutoLaunchChange)
    ensures
        change == if enabled {
            AutoLaunchChange::Enable
        } else {
            AutoLaunchChange::Disable
        },
{
    if enabled {
        AutoLaunchChange::Enable
    } else {
        AutoLaunchChange::Disable
    }
}

/// Reports how the change to the wanted state went.
pub fn set_auto_launch(enabled: bool, changed: Result<(), String>) -> (reply: Result<bool, String>)
    ensures
        reply_view(reply) == match changed {
            Ok(()) => Ok(true),
            Err(cause) => if enabled {
                Err(ENABLE_FAILED@ + cause@)
            } else {
                Err(DISABLE_FAILED@ + cause@)
            },
        },
{
    match changed {
        Ok(()) => Ok(true),
        Err(cause) => match auto_launch_change(enabled) {
            AutoLaunchChange::Enable => Err(labelled(ENABLE_FAILED, cause.as_str())),
            AutoLaunchChange::Disable => Err(labelled(DISABLE_FAILED, cause.as_str())),
        },
    }
}

/// Reports whether the application is registered.
pub fn get_auto_launch_status(status: Result<bool, String>) -> (reply: Result<bool, String>)
    ensures
        reply_view(reply) == match status {
            Ok(enabled) => Ok(enabled),
            Err(cause) => Err(STATUS_FAILED@ + cause@),
        },
{
    match status {
        Ok(enabled) => Ok(enabled),
        Err(cause) => Err(labelled(STATUS_FAILED, cause.as_str())),
    }
}

} // verus!
