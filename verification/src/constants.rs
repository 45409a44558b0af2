//! The values that the greeter falls back to where nothing is configured.
use vstd::prelude::*;

verus! {

/// The greeting shown above the login controls.
pub const GREETING_MSG: &'static str = "Welcome back!";

/// The command line that reboots the system.
pub const REBOOT_CMD: &'static str = "reboot";

/// The command line that powers the system off.
pub const POWEROFF_CMD: &'static str = "poweroff";

/// The command line that is put before the command of an X11 session.
pub const X11_CMD_PREFIX: &'static str = "startx /usr/bin/env";

/// How many users the cache remembers.
pub const CACHE_LIMIT: usize = 100;

} // verus!
