//! The one-line status bar pinned to the bottom of the screen.
//!
//! It names the current directory and always spans the terminal exactly:
//! text longer than the width is cut to the width, shorter text is padded
//! with spaces up to it.

use vstd::prelude::*;
use vstd::string::StrSliceExecFns;
use vstd::string::StringExecFns;

use crate::path::DirPath;
use crate::path::display_of;

verus! {

/// `n` spaces.
pub open spec fn spaces(n: nat) -> Seq<char> {
    Seq::new(n, |i: int| ' ')
}

/// The label the status bar opens with.
pub open spec fn bar_label() -> Seq<char> {
    "Current dir: "@
}

/// The status bar's full text before fitting: the label and the current
/// directory.
pub fn bar_content(dir: &DirPath) -> (r: String)
    ensures
        r@ == bar_label() + display_of(dir@),
{
    let mut s = String::from_str("Current dir: ");
    let d = dir.display();
    s.append(d.as_str());
    s
}

/// Fit a line of text to the terminal width: cut it to exactly `width`
/// characters when longer, pad it with spaces to exactly `width` when
/// shorter.
pub fn fit_to_width(text: &str, width: usize) -> (r: String)
    ensures
        r@.len() == width as int,
        text@.len() >= width as int ==> r@ == text@.subrange(0, width as int),
        text@.len() < width as int ==> r@ == text@ + spaces((width - text@.len()) as nat),
{
    let n = text.unicode_len();
    if n >= width {
        let t = text.substring_char(0, width);
        String::from_str(t)
    } else {
        let mut s = String::from_str(text);
        let mut i: usize = n;
        proof {
            reveal_strlit(" ");
            assert(s@ =~= text@ + spaces(0));
        }
        while i < width
            invariant
                n <= i <= width,
                n == text@.len(),
                s@ == text@ + spaces((i - n) as nat),
                " "@ =~= seq![' '],
            decreases width - i,
        {
            s.append(" ");
            proof {
                assert(s@ =~= text@ + spaces((i + 1 - n) as nat));
            }
            i = i + 1;
        }
        s
    }
}

} // verus!
