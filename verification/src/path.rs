//! Absolute directory paths, modelled as the sequence of their components.
//!
//! The filesystem root is the empty sequence; `/home/user` is the two
//! components `home`, `user`. Going up drops the last component; going into a
//! child pushes its name.

use vstd::prelude::*;
use vstd::string::StringExecFns;

verus! {

/// An absolute directory path: its components from the root, in order.
pub struct DirPath {
    pub parts: Vec<String>,
}

impl View for DirPath {
    type V = Seq<Seq<char>>;

    open spec fn view(&self) -> Seq<Seq<char>> {
        Seq::new(self.parts@.len(), |i: int| self.parts@[i]@)
    }
}

/// The text a path shows as, components joined by `/`: empty for no
/// components here; `display_of` below adds the bare `/` of the root.
pub open spec fn joined(parts: Seq<Seq<char>>) -> Seq<char>
    decreases parts.len(),
{
    if parts.len() == 0 {
        Seq::empty()
    } else {
        joined(parts.drop_last()).push('/') + parts.last()
    }
}

/// The text a path shows as: `/` for the root, `/a/b` otherwise.
pub open spec fn display_of(parts: Seq<Seq<char>>) -> Seq<char> {
    if parts.len() == 0 {
        seq!['/']
    } else {
        joined(parts)
    }
}

impl DirPath {
    /// The filesystem root: no components.
    pub fn root() -> (r: DirPath)
        ensures
            r@ =~= Seq::<Seq<char>>::empty(),
    {
        DirPath { parts: Vec::new() }
    }

    /// Build a path from its components, in root-to-leaf order.
    pub fn from_parts(parts: Vec<String>) -> (r: DirPath)
        ensures
            r@.len() == parts@.len(),
            forall|i: int| 0 <= i < parts@.len() ==> r@[i] == parts@[i]@,
    {
        DirPath { parts }
    }

    /// Whether this is the filesystem root.
    pub fn is_root(&self) -> (r: bool)
        ensures
            r == (self@.len() == 0),
    {
        self.parts.len() == 0
    }

    /// Go into the child directory `name`.
    pub fn push_part(&mut self, name: String)
        ensures
            final(self)@ =~= old(self)@.push(name@),
    {
        self.parts.push(name);
    }

    /// Go up to the parent directory.
    pub fn pop_part(&mut self)
        requires
            old(self)@.len() > 0,
        ensures
            final(self)@ =~= old(self)@.drop_last(),
    {
        let _ = self.parts.pop();
    }

    /// A copy of this path with the same components.
    pub fn duplicate(&self) -> (r: DirPath)
        ensures
            r@ =~= self@,
    {
        let mut parts: Vec<String> = Vec::new();
        let mut i: usize = 0;
        while i < self.parts.len()
            invariant
                i == parts@.len(),
                i <= self.parts@.len(),
                forall|j: int| 0 <= j < i ==> parts@[j]@ == self.parts@[j]@,
            decreases self.parts@.len() - i,
        {
            parts.push(self.parts[i].clone());
            i = i + 1;
        }
        DirPath { parts }
    }

    /// The text of the path: `/` for the root, else the components each
    /// preceded by `/`.
    pub fn display(&self) -> (r: String)
        ensures
            r@ == display_of(self@),
    {
        proof {
            reveal_strlit("/");
        }
        if self.parts.len() == 0 {
            let r = String::from_str("/");
            proof {
                assert(r@ =~= display_of(self@));
            }
            return r;
        }
        let mut s = String::new();
        let mut i: usize = 0;
        while i < self.parts.len()
            invariant
                i <= self.parts@.len(),
                s@ == joined(self@.subrange(0, i as int)),
                "/"@ =~= seq!['/'],
                self@.len() == self.parts@.len(),
                forall|j: int| 0 <= j < self@.len() ==> self@[j] == self.parts@[j]@,
            decreases self.parts@.len() - i,
        {
            s.append("/");
            s.append(self.parts[i].as_str());
            proof {
                let p = self@.subrange(0, i + 1 as int);
                assert(p.drop_last() =~= self@.subrange(0, i as int));
                assert(p.last() == self@[i as int]);
                assert(s@ =~= joined(p.drop_last()).push('/') + p.last());
            }
            i = i + 1;
        }
        proof {
            assert(self@.subrange(0, self@.len() as int) =~= self@);
        }
        s
    }
}

} // verus!
