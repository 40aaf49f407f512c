//! The navigation state machine.
//!
//! A `Browser` owns the current directory, the listing on screen, the
//! selection index, and the back/redo stacks. Each key of the browsing mode
//! is one transition; whatever the terminal or the filesystem must then do
//! comes back to the caller as an [`Action`].

use vstd::prelude::*;

use crate::listing::is_dir_entry;
use crate::listing::entry_is_dir;
use crate::listing::strip_dir_marker;
use crate::listing::strip_trailing_slashes;
use crate::path::DirPath;
use crate::search::entry_matches;
use crate::search::find_match;

verus! {

/// One keyboard event, as the browsing and search modes read it.
#[derive(Clone, Copy)]
pub enum Key {
    Up,
    Down,
    Enter,
    Left,
    Right,
    Backspace,
    Esc,
    Char(char),
    Other,
}

/// What the caller must do after a transition: nothing, list the (changed)
/// current directory afresh, open a file in the editor, start the search
/// mode, or leave the loop.
pub enum Action {
    Stay,
    Relist,
    OpenFile(String),
    StartSearch,
    Quit,
}

/// The component sequences of a stack of paths, bottom first.
pub open spec fn paths_view(v: Seq<DirPath>) -> Seq<Seq<Seq<char>>> {
    v.map(|i: int, p: DirPath| p@)
}

/// The navigation state: where the session stands and what it shows.
pub struct Browser {
    /// The directory whose listing is on screen.
    pub current_dir: DirPath,
    /// The listing of `current_dir`, as display entries.
    pub files: Vec<String>,
    /// The highlighted row, an index into `files`.
    pub selected: usize,
    /// Previously visited directories, most recent last.
    pub history: Vec<DirPath>,
    /// Directories a redo step would revisit, next one last.
    pub redo_stack: Vec<DirPath>,
}

impl Browser {
    /// The selection stays inside the listing; an empty listing pins it at 0,
    /// where it is never dereferenced.
    pub open spec fn wf(&self) -> bool {
        if self.files@.len() == 0 {
            self.selected == 0
        } else {
            (self.selected as int) < self.files@.len()
        }
    }

    /// What going into the child `name` leaves behind: the path grew by
    /// `name`, the old path went onto the back history, the redo stack is
    /// clear, and the listing waits to be replaced.
    pub open spec fn descend_post(pre: Browser, name: Seq<char>, post: Browser) -> bool {
        &&& post.current_dir@ == pre.current_dir@.push(name)
        &&& paths_view(post.history@) == paths_view(pre.history@).push(pre.current_dir@)
        &&& post.redo_stack@.len() == 0
        &&& post.files == pre.files
        &&& post.selected == pre.selected
    }

    /// What going up one directory leaves behind, when there was a parent to
    /// go to: the redo paths gathered before are dropped, and the departed
    /// directory stands as the one path a redo step revisits.
    pub open spec fn ascend_post(pre: Browser, post: Browser) -> bool {
        &&& pre.current_dir@.len() > 0
        &&& post.current_dir@ == pre.current_dir@.drop_last()
        &&& paths_view(post.history@) == paths_view(pre.history@).push(pre.current_dir@)
        &&& paths_view(post.redo_stack@) == seq![pre.current_dir@]
        &&& post.files == pre.files
        &&& post.selected == pre.selected
    }

    /// What a redo step leaves behind, when the redo stack had a path.
    pub open spec fn forward_post(pre: Browser, post: Browser) -> bool {
        &&& pre.redo_stack@.len() > 0
        &&& post.current_dir@ == paths_view(pre.redo_stack@).last()
        &&& paths_view(post.history@) == paths_view(pre.history@).push(pre.current_dir@)
        &&& paths_view(post.redo_stack@) == paths_view(pre.redo_stack@).drop_last()
        &&& post.files == pre.files
        &&& post.selected == pre.selected
    }

    /// A fresh session at `dir`, showing `files`.
    pub fn new(dir: DirPath, files: Vec<String>) -> (r: Browser)
        ensures
            r.wf(),
            r.current_dir@ == dir@,
            r.files == files,
            r.selected == 0,
            r.history@.len() == 0,
            r.redo_stack@.len() == 0,
    {
        Browser { current_dir: dir, files, selected: 0, history: Vec::new(), redo_stack: Vec::new() }
    }

    /// Move the selection one row up; at the top row it stands still.
    pub fn move_up(&mut self)
        requires
            old(self).wf(),
        ensures
            final(self).wf(),
            final(self).selected == if old(self).selected > 0 {
                (old(self).selected - 1) as usize
            } else {
                0usize
            },
            final(self).current_dir == old(self).current_dir,
            final(self).files == old(self).files,
            final(self).history == old(self).history,
            final(self).redo_stack == old(self).redo_stack,
    {
        if self.selected > 0 {
            self.selected = self.selected - 1;
        }
    }

    /// Move the selection one row down; at the last row it stands still.
    pub fn move_down(&mut self)
        requires
            old(self).wf(),
        ensures
            final(self).wf(),
            final(self).selected as int == if old(self).files@.len() > 0 && (old(self).selected
                as int) < old(self).files@.len() - 1 {
                old(self).selected + 1
            } else {
                old(self).selected as int
            },
            final(self).current_dir == old(self).current_dir,
            final(self).files == old(self).files,
            final(self).history == old(self).history,
            final(self).redo_stack == old(self).redo_stack,
    {
        if self.files.len() > 0 && self.selected < self.files.len() - 1 {
            self.selected = self.selected + 1;
        }
    }

    /// Go into the child directory `name`: remember where we were, drop any
    /// redo paths, and change the path. The caller then lists the new
    /// directory and hands it to [`Browser::set_listing`].
    pub fn descend(&mut self, name: String)
        ensures
            Browser::descend_post(*old(self), name@, *final(self)),
    {
        let prev = self.current_dir.duplicate();
        proof {
            lemma_paths_view_push(self.history@, prev);
        }
        self.history.push(prev);
        self.redo_stack.clear();
        self.current_dir.push_part(name);
    }

    /// Go up to the parent directory, if there is one; at the filesystem
    /// root nothing changes at all. A move remembers where we were on the
    /// back history, drops the redo paths gathered before, and leaves the
    /// departed directory as the one redo step, so that going forward right
    /// after revisits it. Returns whether the path changed, so the caller
    /// knows to list the parent afresh.
    pub fn ascend(&mut self) -> (moved: bool)
        ensures
            moved == (old(self).current_dir@.len() > 0),
            !moved ==> *final(self) == *old(self),
            moved ==> Browser::ascend_post(*old(self), *final(self)),
    {
        if self.current_dir.is_root() {
            return false;
        }
        let prev = self.current_dir.duplicate();
        let departed = self.current_dir.duplicate();
        proof {
            lemma_paths_view_push(self.history@, prev);
        }
        self.history.push(prev);
        self.redo_stack.clear();
        proof {
            lemma_paths_view_push(self.redo_stack@, departed);
        }
        self.redo_stack.push(departed);
        proof {
            assert(paths_view(self.redo_stack@) =~= seq![old(self).current_dir@]);
        }
        self.current_dir.pop_part();
        true
    }

    /// Revisit the newest path on the redo stack, if any; with an empty redo
    /// stack nothing changes at all. Returns whether the path changed.
    pub fn go_forward(&mut self) -> (moved: bool)
        ensures
            moved == (old(self).redo_stack@.len() > 0),
            !moved ==> *final(self) == *old(self),
            moved ==> Browser::forward_post(*old(self), *final(self)),
    {
        if self.redo_stack.len() == 0 {
            return false;
        }
        let ghost r0 = self.redo_stack@;
        let next = self.redo_stack.pop().unwrap();
        proof {
            lemma_paths_view_drop_last(r0);
            assert(self.redo_stack@ =~= r0.drop_last());
        }
        let prev = self.current_dir.duplicate();
        proof {
            lemma_paths_view_push(self.history@, prev);
        }
        self.history.push(prev);
        self.current_dir = next;
        true
    }

    /// Show a fresh listing of the current directory, with the selection back
    /// at the top.
    pub fn set_listing(&mut self, files: Vec<String>)
        ensures
            final(self).wf(),
            final(self).files == files,
            final(self).selected == 0,
            final(self).current_dir == old(self).current_dir,
            final(self).history == old(self).history,
            final(self).redo_stack == old(self).redo_stack,
    {
        self.files = files;
        self.selected = 0;
    }

    /// Move the selection to the first entry the confirmed search query
    /// matches, case-insensitively; an empty query or one that matches
    /// nothing leaves the selection where it was.
    pub fn apply_search(&mut self, query: &str)
        requires
            old(self).wf(),
        ensures
            final(self).wf(),
            final(self).current_dir == old(self).current_dir,
            final(self).files == old(self).files,
            final(self).history == old(self).history,
            final(self).redo_stack == old(self).redo_stack,
            query@.len() == 0 ==> final(self).selected == old(self).selected,
            query@.len() > 0 ==> if exists|j: int|
                0 <= j < old(self).files@.len() && entry_matches(
                    #[trigger] old(self).files@[j]@,
                    query@,
                ) {
                (final(self).selected as int) < old(self).files@.len() && entry_matches(
                    old(self).files@[final(self).selected as int]@,
                    query@,
                ) && forall|j: int|
                    0 <= j < final(self).selected ==> !entry_matches(
                        #[trigger] old(self).files@[j]@,
                        query@,
                    )
            } else {
                final(self).selected == old(self).selected
            },
    {
        if query.is_empty() {
            return ;
        }
        match find_match(&self.files, query) {
            Option::Some(i) => {
                self.selected = i;
            },
            Option::None => {},
        }
    }

    /// One step of the browsing mode: read one key, mutate the state as the
    /// key asks, and say what outside work is now due.
    pub fn handle_key(&mut self, key: Key) -> (act: Action)
        requires
            old(self).wf(),
        ensures
            final(self).wf(),
            match key {
                Key::Up => act is Stay && final(self).selected == if old(self).selected > 0 {
                    (old(self).selected - 1) as usize
                } else {
                    0usize
                } && final(self).current_dir == old(self).current_dir && final(self).files == old(
                    self,
                ).files && final(self).history == old(self).history && final(self).redo_stack
                    == old(self).redo_stack,
                Key::Down => act is Stay && final(self).selected as int == if old(
                    self,
                ).files@.len() > 0 && (old(self).selected as int) < old(self).files@.len() - 1 {
                    old(self).selected + 1
                } else {
                    old(self).selected as int
                } && final(self).current_dir == old(self).current_dir && final(self).files == old(
                    self,
                ).files && final(self).history == old(self).history && final(self).redo_stack
                    == old(self).redo_stack,
                Key::Enter => if old(self).files@.len() == 0 {
                    act is Stay && *final(self) == *old(self)
                } else if is_dir_entry(old(self).files@[old(self).selected as int]@) {
                    act is Relist && Browser::descend_post(
                        *old(self),
                        strip_trailing_slashes(old(self).files@[old(self).selected as int]@),
                        *final(self),
                    )
                } else {
                    (act matches Action::OpenFile(f) && f@ == old(self).files@[old(self).selected
                        as int]@) && *final(self) == *old(self)
                },
                Key::Left => if old(self).current_dir@.len() == 0 {
                    act is Stay && *final(self) == *old(self)
                } else {
                    act is Relist && Browser::ascend_post(*old(self), *final(self))
                },
                Key::Right => if old(self).redo_stack@.len() == 0 {
                    act is Stay && *final(self) == *old(self)
                } else {
                    act is Relist && Browser::forward_post(*old(self), *final(self))
                },
                Key::Char(c) => *final(self) == *old(self) && if c == 'q' {
                    act is Quit
                } else if c == 's' {
                    act is StartSearch
                } else {
                    act is Stay
                },
                _ => act is Stay && *final(self) == *old(self),
            },
    {
        match key {
            Key::Up => {
                self.move_up();
                Action::Stay
            },
            Key::Down => {
                self.move_down();
                Action::Stay
            },
            Key::Enter => {
                if self.files.len() == 0 {
                    return Action::Stay;
                }
                let entry = self.files[self.selected].clone();
                if entry_is_dir(entry.as_str()) {
                    let name = strip_dir_marker(entry.as_str());
                    self.descend(name);
                    Action::Relist
                } else {
                    Action::OpenFile(entry)
                }
            },
            Key::Left => {
                if self.ascend() {
                    Action::Relist
                } else {
                    Action::Stay
                }
            },
            Key::Right => {
                if self.go_forward() {
                    Action::Relist
                } else {
                    Action::Stay
                }
            },
            Key::Char(c) => {
                if c == 'q' {
                    Action::Quit
                } else if c == 's' {
                    Action::StartSearch
                } else {
                    Action::Stay
                }
            },
            _ => Action::Stay,
        }
    }
}

/// Pushing a path onto a stack appends its components to the stack's view.
proof fn lemma_paths_view_push(v: Seq<DirPath>, p: DirPath)
    ensures
        paths_view(v.push(p)) =~= paths_view(v).push(p@),
{
}

/// Popping a path off a stack drops the last element of the stack's view.
proof fn lemma_paths_view_drop_last(v: Seq<DirPath>)
    requires
        v.len() > 0,
    ensures
        paths_view(v.drop_last()) =~= paths_view(v).drop_last(),
        paths_view(v).last() == v.last()@,
{
}

/// Going into a child directory and then straight up again stands navigation
/// at the starting path once more — the caller lists it afresh, so with an
/// unchanged filesystem the same entries come back — and the redo stack then
/// holds exactly the directory the ascent left: the one just descended to.
pub proof fn lemma_descend_then_ascend(b0: Browser, name: Seq<char>, b1: Browser, b2: Browser)
    requires
        Browser::descend_post(b0, name, b1),
        Browser::ascend_post(b1, b2),
    ensures
        b2.current_dir@ == b0.current_dir@,
        paths_view(b2.redo_stack@) == seq![b0.current_dir@.push(name)],
{
    assert(b1.current_dir@.drop_last() =~= b0.current_dir@);
}

/// After going into a child directory and straight up again, one redo step
/// restores navigation to that child directory, and uses the redo stack up.
pub proof fn lemma_ascend_then_forward(
    b0: Browser,
    name: Seq<char>,
    b1: Browser,
    b2: Browser,
    b3: Browser,
)
    requires
        Browser::descend_post(b0, name, b1),
        Browser::ascend_post(b1, b2),
        Browser::forward_post(b2, b3),
    ensures
        b3.current_dir@ == b0.current_dir@.push(name),
        paths_view(b3.redo_stack@).len() == 0,
{
    lemma_descend_then_ascend(b0, name, b1, b2);
}

} // verus!
