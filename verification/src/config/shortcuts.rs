//! Keyboard shortcuts.

use vstd::prelude::*;

verus! {

/// The shortcut that opens the quick launcher: Ctrl+Shift+P, and
/// Cmd+Shift+P on macOS.
pub const QUICK_LAUNCHER: &'static str = "CommandOrControl+Shift+P";

} // verus!
