//! What each listing row shows.
//!
//! The screen work itself stays outside; here is only the per-row decision
//! of the render loop: which colouring a row gets and what text stands on
//! it.

use vstd::prelude::*;
use vstd::string::StringExecFns;

use crate::listing::is_dir_entry;
use crate::listing::entry_is_dir;

verus! {

/// How one row is coloured: the selected row, a directory row, or a plain
/// file row.
pub enum RowStyle {
    Selected,
    Directory,
    Plain,
}

/// The colouring of row `index` when row `selected` is highlighted: the
/// selection wins, then the directory marker decides.
pub fn row_style(index: usize, selected: usize, entry: &str) -> (r: RowStyle)
    ensures
        index == selected ==> r is Selected,
        index != selected && is_dir_entry(entry@) ==> r is Directory,
        index != selected && !is_dir_entry(entry@) ==> r is Plain,
{
    if index == selected {
        RowStyle::Selected
    } else if entry_is_dir(entry) {
        RowStyle::Directory
    } else {
        RowStyle::Plain
    }
}

/// The text of one row: a `> ` cursor before the selected entry, two spaces
/// before every other.
pub fn row_text(entry: &str, selected: bool) -> (r: String)
    ensures
        selected ==> r@ == "> "@ + entry@,
        !selected ==> r@ == "  "@ + entry@,
{
    let mut s = if selected {
        String::from_str("> ")
    } else {
        String::from_str("  ")
    };
    s.append(entry);
    s
}

} // verus!
