//! Material Icons glyphs (Private Use Area codepoints), used in place of emoji.

use vstd::prelude::*;

verus! {

pub const ADD: char = '\u{e145}';
pub const DELETE: char = '\u{e872}';
pub const EDIT: char = '\u{e3c9}';
pub const REFRESH: char = '\u{e5d5}';
pub const CLOSE: char = '\u{e5cd}';
/// Dashboard (the Tasks nav entry).
pub const DASHBOARD: char = '\u{e871}';
pub const SAVE: char = '\u{e161}';
pub const WARNING: char = '\u{e002}';
/// The six-dot drag handle.
pub const DRAG: char = '\u{e945}';
/// Jump to the parent ticket.
pub const PARENT: char = '\u{e5d8}';
/// A child ticket.
pub const CHILD: char = '\u{e5da}';
/// Detach from the parent.
pub const UNLINK: char = '\u{e16f}';
/// Expand a ticket to the full page.
pub const EXPAND: char = '\u{e5d0}';
/// Return from the full page.
pub const BACK: char = '\u{e5c4}';

} // verus!
