//! The console window that accompanies debugging on platforms that have one.

use vstd::prelude::*;

verus! {

/// What to do with the process's console window.
#[derive(Debug, Clone, Copy, PartialEq, Eq, Structural)]
pub enum ConsoleAction {
    /// Open a console window for the process.
    Allocate,
    /// Close the process's console window.
    Release,
}

/// The console follows the debug switch: opened when debugging is switched on,
/// closed when it is switched off. Platforms without console windows ignore
/// the action.
pub fn set_debug_console(enabled: bool) -> (action: ConsoleAction)
    ensures
        action == (if enabled {
            ConsoleAction::Allocate
        } else {
            ConsoleAction::Release
        }),
{
    if enabled {
        ConsoleAction::Allocate
    } else {
        ConsoleAction::Release
    }
}

} // verus!
