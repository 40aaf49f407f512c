//! Display entries of a directory listing.
//!
//! An entry is the base name of a child, with a trailing `/` marker when the
//! child is itself a directory. Listings keep the order in which the
//! filesystem enumeration handed the children out.

use vstd::prelude::*;
use vstd::string::StrSliceExecFns;
use vstd::string::StringExecFns;

verus! {

/// One child of a directory, as the filesystem reports it: its base name and
/// whether it is itself a directory.
pub struct RawEntry {
    pub name: String,
    pub is_dir: bool,
}

/// A base name never contains the path separator and is never empty.
pub open spec fn valid_name(s: Seq<char>) -> bool {
    s.len() > 0 && forall|i: int| 0 <= i < s.len() ==> s[i] != '/'
}

/// What a raw entry turns into on screen: the name, with a `/` appended when
/// it is a directory.
pub open spec fn entry_text(name: Seq<char>, is_dir: bool) -> Seq<char> {
    if is_dir {
        name.push('/')
    } else {
        name
    }
}

/// A display entry stands for a directory exactly when it ends in `/`.
pub open spec fn is_dir_entry(s: Seq<char>) -> bool {
    s.len() > 0 && s.last() == '/'
}

/// Build the display entry for one child.
pub fn make_entry(name: String, is_dir: bool) -> (r: String)
    ensures
        r@ == entry_text(name@, is_dir),
{
    if is_dir {
        let mut s = name;
        let ghost n0 = s@;
        s.append("/");
        proof {
            reveal_strlit("/");
            assert(s@ =~= n0.push('/'));
        }
        s
    } else {
        name
    }
}

/// Build the whole listing from what the filesystem enumeration reported,
/// keeping its order. Every child that is a directory gets the `/` marker and
/// no plain file does.
pub fn build_listing(raw: &Vec<RawEntry>) -> (r: Vec<String>)
    ensures
        r@.len() == raw@.len(),
        forall|i: int|
            0 <= i < raw@.len() ==> r@[i]@ == entry_text(raw@[i].name@, raw@[i].is_dir),
        forall|i: int|
            0 <= i < raw@.len() && raw@[i].is_dir ==> is_dir_entry(#[trigger] r@[i]@),
        forall|i: int|
            0 <= i < raw@.len() && !raw@[i].is_dir && valid_name(raw@[i].name@) ==> !is_dir_entry(
                #[trigger] r@[i]@,
            ),
{
    let mut out: Vec<String> = Vec::new();
    let mut i: usize = 0;
    while i < raw.len()
        invariant
            i == out@.len(),
            i <= raw@.len(),
            forall|j: int| 0 <= j < i ==> out@[j]@ == entry_text(raw@[j].name@, raw@[j].is_dir),
        decreases raw@.len() - i,
    {
        let name = raw[i].name.clone();
        let text = make_entry(name, raw[i].is_dir);
        out.push(text);
        i = i + 1;
    }
    out
}

/// Whether a display entry stands for a directory, by its trailing marker.
pub fn entry_is_dir(s: &str) -> (r: bool)
    ensures
        r == is_dir_entry(s@),
{
    let n = s.unicode_len();
    if n == 0 {
        false
    } else {
        s.get_char(n - 1) == '/'
    }
}

/// A display entry with every trailing `/` marker removed.
pub open spec fn strip_trailing_slashes(s: Seq<char>) -> Seq<char>
    decreases s.len(),
{
    if s.len() > 0 && s.last() == '/' {
        strip_trailing_slashes(s.drop_last())
    } else {
        s
    }
}

/// The base name behind a display entry: the entry without its trailing `/`
/// markers.
pub fn strip_dir_marker(s: &str) -> (r: String)
    ensures
        r@ == strip_trailing_slashes(s@),
{
    let n = s.unicode_len();
    let mut e: usize = n;
    proof {
        assert(s@.subrange(0, n as int) =~= s@);
    }
    while e > 0 && s.get_char(e - 1) == '/'
        invariant
            e <= n,
            n == s@.len(),
            strip_trailing_slashes(s@) == strip_trailing_slashes(s@.subrange(0, e as int)),
        decreases e,
    {
        proof {
            let p = s@.subrange(0, e as int);
            assert(p.last() == s@[e - 1]);
            assert(p.drop_last() =~= s@.subrange(0, e - 1));
        }
        e = e - 1;
    }
    let r = s.substring_char(0, e);
    proof {
        let p = s@.subrange(0, e as int);
        if e > 0 {
            assert(p.last() == s@[e - 1]);
        }
        assert(strip_trailing_slashes(p) == p);
    }
    String::from_str(r)
}

} // verus!
