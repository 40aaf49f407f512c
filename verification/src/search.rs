//! Case-insensitive substring search over a listing.
//!
//! A query matches an entry when the lowercase form of the entry contains the
//! lowercase form of the query. The lowercase form itself comes from the
//! standard library; containment is computed and proved here.

use vstd::prelude::*;
use vstd::string::StrSliceExecFns;

use crate::browser::Key;

verus! {

/// How the search mode goes on after one key: keep reading, confirm the
/// query, or abandon it.
pub enum SearchStep {
    Pending,
    Commit,
    Cancel,
}

/// The query the search mode accumulates while it is open.
pub struct SearchQuery {
    pub text: String,
}

impl SearchQuery {
    /// An empty query, as the search mode opens with.
    pub fn new() -> (r: SearchQuery)
        ensures
            r.text@.len() == 0,
    {
        SearchQuery { text: String::new() }
    }

    /// One step of the search mode: a printable character grows the query, a
    /// backspace shortens it (an empty query stays empty), enter confirms it
    /// and escape abandons it; every other key is ignored.
    pub fn handle_key(&mut self, key: Key) -> (step: SearchStep)
        ensures
            match key {
                Key::Char(c) => step is Pending && final(self).text@ == old(self).text@.push(c),
                Key::Backspace => step is Pending && final(self).text@ == if old(
                    self,
                ).text@.len() == 0 {
                    old(self).text@
                } else {
                    old(self).text@.drop_last()
                },
                Key::Enter => step is Commit && final(self).text == old(self).text,
                Key::Esc => step is Cancel && final(self).text == old(self).text,
                _ => step is Pending && final(self).text == old(self).text,
            },
    {
        match key {
            Key::Char(c) => {
                push_char(&mut self.text, c);
                SearchStep::Pending
            },
            Key::Backspace => {
                let _ = pop_char(&mut self.text);
                SearchStep::Pending
            },
            Key::Enter => SearchStep::Commit,
            Key::Esc => SearchStep::Cancel,
            _ => SearchStep::Pending,
        }
    }
}

/// Relies on String::push: appends the one character to the end of the
/// string.
#[verifier::external_body]
fn push_char(s: &mut String, c: char)
    ensures
        final(s)@ == old(s)@.push(c),
{
    s.push(c)
}

/// Relies on String::pop: removes and returns the last character, or returns
/// nothing and leaves an empty string as it is.
#[verifier::external_body]
fn pop_char(s: &mut String) -> (r: Option<char>)
    ensures
        old(s)@.len() == 0 ==> r is None && final(s)@ == old(s)@,
        old(s)@.len() > 0 ==> r == Some(old(s)@.last()) && final(s)@ == old(s)@.drop_last(),
{
    s.pop()
}

/// The Unicode lowercase form of a piece of text, as `str::to_lowercase`
/// computes it.
pub uninterp spec fn lower_of(s: Seq<char>) -> Seq<char>;

/// Relies on str::to_lowercase: the returned string is the lowercase form of
/// the input, and depends on the input characters alone.
#[verifier::external_body]
fn lowercase(s: &str) -> (r: String)
    ensures
        r@ == lower_of(s@),
{
    s.to_lowercase()
}

/// `needle` occurs in `hay` starting at position `i`.
pub open spec fn contains_at(hay: Seq<char>, needle: Seq<char>, i: int) -> bool {
    0 <= i && i + needle.len() <= hay.len() && hay.subrange(i, i + needle.len()) == needle
}

/// `needle` occurs somewhere in `hay`.
pub open spec fn contains_sub(hay: Seq<char>, needle: Seq<char>) -> bool {
    exists|i: int| contains_at(hay, needle, i)
}

/// Whether `needle` occurs in `hay` as a contiguous run of characters.
pub fn str_contains_sub(hay: &str, needle: &str) -> (r: bool)
    ensures
        r == contains_sub(hay@, needle@),
{
    let hlen = hay.unicode_len();
    let nlen = needle.unicode_len();
    if nlen > hlen {
        return false;
    }
    if nlen == 0 {
        proof {
            assert(hay@.subrange(0, 0) =~= needle@);
            assert(contains_at(hay@, needle@, 0));
        }
        return true;
    }
    let mut i: usize = 0;
    while i <= hlen - nlen
        invariant
            1 <= nlen <= hlen,
            hlen == hay@.len(),
            nlen == needle@.len(),
            i <= hlen - nlen + 1,
            forall|k: int| 0 <= k < i ==> !contains_at(hay@, needle@, k),
        decreases hlen - nlen - i + 1,
    {
        let mut j: usize = 0;
        let mut hit = true;
        while hit && j < nlen
            invariant
                j <= nlen,
                i + nlen <= hlen,
                hlen == hay@.len(),
                nlen == needle@.len(),
                hit ==> forall|k: int| 0 <= k < j ==> hay@[i + k] == needle@[k],
                !hit ==> !contains_at(hay@, needle@, i as int),
            decreases nlen - j + (if hit { 1int } else { 0int }),
        {
            let a = s_get(hay, i + j);
            let b = s_get(needle, j);
            if a != b {
                hit = false;
                proof {
                    assert(hay@.subrange(i as int, i + nlen) != needle@) by {
                        assert(hay@.subrange(i as int, i + nlen)[j as int] == hay@[i + j]);
                    }
                }
            } else {
                j = j + 1;
            }
        }
        if hit {
            proof {
                assert(hay@.subrange(i as int, i + nlen) =~= needle@);
                assert(contains_at(hay@, needle@, i as int));
            }
            return true;
        }
        i = i + 1;
    }
    proof {
        assert forall|k: int| !contains_at(hay@, needle@, k) by {
            if 0 <= k && k + needle@.len() <= hay@.len() {
                assert(k < i);
            }
        }
    }
    false
}

/// One character of a string, by character position.
fn s_get(s: &str, i: usize) -> (c: char)
    requires
        i < s@.len(),
    ensures
        c == s@[i as int],
{
    s.get_char(i)
}

/// A query matches an entry when the entry's lowercase form contains the
/// query's lowercase form.
pub open spec fn entry_matches(entry: Seq<char>, query: Seq<char>) -> bool {
    contains_sub(lower_of(entry), lower_of(query))
}

/// The position of the first entry the query matches, in listing order, or
/// nothing when no entry matches.
pub fn find_match(files: &Vec<String>, query: &str) -> (r: Option<usize>)
    ensures
        match r {
            Some(i) => (i as int) < files@.len() && entry_matches(files@[i as int]@, query@)
                && forall|j: int| 0 <= j < i ==> !entry_matches(files@[j]@, query@),
            None => forall|j: int| 0 <= j < files@.len() ==> !entry_matches(files@[j]@, query@),
        },
{
    let lq = lowercase(query);
    let mut i: usize = 0;
    while i < files.len()
        invariant
            i <= files@.len(),
            lq@ == lower_of(query@),
            forall|j: int| 0 <= j < i ==> !entry_matches(files@[j]@, query@),
        decreases files@.len() - i,
    {
        let le = lowercase(files[i].as_str());
        if str_contains_sub(le.as_str(), lq.as_str()) {
            return Some(i);
        }
        i = i + 1;
    }
    None
}

} // verus!
