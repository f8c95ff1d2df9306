//! The walk over the files below a directory.
//!
//! The directory is walked by whoever makes the walk, and its entries are
//! handed in: each is the path of a file, or `None` for a path that is no
//! text. The first entry is the directory itself and is passed over. The walk
//! hands on the controls of the entries that follow, as long as their paths
//! start with its base. The first path that does not start with it, a path
//! that is no text and the end of the entries each end the walk.

use crate::ctl_error::{ErrorView, SysctlError};
use crate::linux::ctl::{spec_path, Ctl};
use crate::linux::funcs::spec_string_to_name;
use crate::text::{has_prefix, starts_with};
use vstd::prelude::*;
use vstd::string::*;

verus! {

/// A walk over the controls below a base.
#[derive(Debug, Clone, PartialEq, Eq)]
pub struct CtlIter {
    direntries: Vec<Option<String>>,
    base: String,
    cur_idx: usize,
}

/// The state of a walk: the entries, the base, and the place of the entry
/// that was reached last.
pub struct IterView {
    pub entries: Seq<Option<Seq<char>>>,
    pub base: Seq<char>,
    pub index: nat,
}

/// The entries of a directory, each path as a sequence of characters.
pub open spec fn entries_view(entries: Seq<Option<String>>) -> Seq<Option<Seq<char>>> {
    Seq::new(
        entries.len(),
        |i: int|
            match entries[i] {
                Some(path) => Some(path@),
                None => None,
            },
    )
}

/// What a walk hands on: a control, a failure, or nothing, which ends the
/// walk.
pub open spec fn item_view(item: Option<Result<Ctl, SysctlError>>) -> Option<
    Result<Seq<char>, ErrorView>,
> {
    match item {
        Some(Ok(ctl)) => Some(Ok(ctl@)),
        Some(Err(error)) => Some(Err(error@)),
        None => None,
    }
}

impl IterView {
    /// Whether the walk is over: no entry is left.
    pub open spec fn exhausted(self) -> bool {
        self.index + 1 >= self.entries.len()
    }

    /// This walk, over.
    pub open spec fn ended(self) -> IterView {
        IterView { entries: self.entries, base: self.base, index: self.entries.len() }
    }

    /// The step of a walk: the state that it is in afterwards, and what it
    /// hands on.
    pub open spec fn advance(self) -> (IterView, Option<Result<Seq<char>, ErrorView>>) {
        if self.exhausted() {
            (self.ended(), None)
        } else {
            match self.entries[self.index as int + 1] {
                None => (self.ended(), Some(Err(ErrorView::ParseError))),
                Some(path) => if has_prefix(path, self.base) {
                    (
                        IterView {
                            entries: self.entries,
                            base: self.base,
                            index: self.index + 1,
                        },
                        Some(Ok(spec_string_to_name(path))),
                    )
                } else {
                    (self.ended(), None)
                },
            }
        }
    }
}

impl View for CtlIter {
    type V = IterView;

    closed spec fn view(&self) -> IterView {
        IterView {
            entries: entries_view(self.direntries@),
            base: self.base@,
            index: self.cur_idx as nat,
        }
    }
}

impl CtlIter {
    /// The directory that holds all controls.
    pub fn root_dir() -> (res: String)
        ensures
            res@ == "/proc/sys"@,
    {
        "/proc/sys".to_owned()
    }

    /// The walk over all controls: `entries` are the entries of the directory
    /// that holds them, the directory itself first.
    pub fn root(entries: Vec<Option<String>>) -> (res: CtlIter)
        ensures
            res@ == (IterView {
                entries: entries_view(entries@),
                base: "/proc/sys"@,
                index: 0,
            }),
    {
        CtlIter { direntries: entries, base: "/proc/sys".to_owned(), cur_idx: 0 }
    }

    /// The walk over the controls below `node`: `entries` are the entries of
    /// the directory of `node`, the directory itself first.
    pub fn below(node: Ctl, entries: Vec<Option<String>>) -> (res: CtlIter)
        ensures
            res@ == (IterView {
                entries: entries_view(entries@),
                base: spec_path(node@),
                index: 0,
            }),
    {
        CtlIter { direntries: entries, base: node.path(), cur_idx: 0 }
    }

    /// Hands on the control of the next entry; `None` when the walk is over.
    pub fn next(&mut self) -> (res: Option<Result<Ctl, SysctlError>>)
        ensures
            (final(self)@, item_view(res)) == old(self)@.advance(),
    {
        let len: usize = self.direntries.len();
        if self.cur_idx >= len || self.cur_idx + 1 >= len {
            self.cur_idx = len;
            return None;
        }
        let at: usize = self.cur_idx + 1;
        assert(entries_view(self.direntries@)[at as int] == match self.direntries@[at as int] {
            Some(path) => Some(path@),
            None => None,
        });
        match &self.direntries[at] {
            None => {
                self.cur_idx = len;
                Some(Err(SysctlError::ParseError))
            },
            Some(path) => {
                if starts_with(path.as_str(), self.base.as_str()) {
                    let found = Ctl::new(path.as_str());
                    self.cur_idx = at;
                    Some(found)
                } else {
                    self.cur_idx = len;
                    None
                }
            },
        }
    }
}

/// A walk hands on only what lies below its base: the control of an entry
/// whose path starts with the base. With each control that it hands on it
/// moves one entry forward, so that no entry is visited twice, and what ends
/// it leaves it over for good.
pub proof fn lemma_advance(state: IterView)
    ensures
        state.advance().0.base == state.base,
        state.advance().0.entries == state.entries,
        state.advance().1 matches Some(Ok(name)) ==> {
            &&& state.advance().0.index == state.index + 1
            &&& state.entries[state.index as int + 1] matches Some(path) && has_prefix(path, state.base)
                && name == spec_string_to_name(path)
        },
        !(state.advance().1 matches Some(Ok(name))) ==> state.advance().0.exhausted(),
        state.exhausted() ==> state.advance().1 is None && state.advance().0.exhausted(),
{
}

/// The controls that a walk hands on from `state` until it is over.
pub open spec fn spec_walk(state: IterView) -> Seq<Seq<char>>
    decreases state.entries.len() - state.index,
{
    if state.exhausted() {
        Seq::<Seq<char>>::empty()
    } else {
        match state.advance().1 {
            Some(Ok(name)) => seq![name] + spec_walk(state.advance().0),
            _ => Seq::<Seq<char>>::empty(),
        }
    }
}

/// A walk is finite: it hands on fewer controls than it has entries left.
pub proof fn lemma_walk_is_finite(state: IterView)
    ensures
        state.exhausted() ==> spec_walk(state).len() == 0,
        !state.exhausted() ==> spec_walk(state).len() < state.entries.len() - state.index,
    decreases state.entries.len() - state.index,
{
    if !state.exhausted() {
        match state.advance().1 {
            Some(Ok(name)) => {
                lemma_walk_is_finite(state.advance().0);
            },
            _ => {},
        }
    }
}

} // verus!
