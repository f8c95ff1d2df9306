//! The walk over the tree.
//!
//! A walk is a machine with two states. While it is active it holds the path
//! below which it walks and the path that it has reached, and asks the kernel
//! for the path that follows. It hands on what the kernel names as long as
//! that lies below its base. The first path that does not, the end of the
//! tree and a failure each end the walk, and a walk that has ended hands on
//! nothing more.

use crate::ctl_error::{ErrorView, IoFailure, SysctlError};
use crate::unix::ctl::Ctl;
use crate::unix::funcs::{parse_next, spec_next};
use crate::unix::raw::{
    copy_path, reply_view, spec_tree_query, tree_query, Answer, AnswerView, Query, QueryView,
    CTL_SYSCTL_NEXT,
};
use vstd::prelude::*;

verus! {

/// A walk over the controls below a base.
#[derive(Debug, Clone, PartialEq)]
pub struct CtlIter {
    base: Ctl,
    current: Ctl,
    exhausted: bool,
}

/// The state of a walk.
pub enum IterView {
    /// The walk goes on below `base`, and has reached `current`.
    Active { base: Seq<i32>, current: Seq<i32> },
    /// The walk is over.
    Exhausted,
}

/// What a walk hands on for one reply: a control, a failure, or nothing,
/// which ends the walk.
pub open spec fn item_view(item: Option<Result<Ctl, SysctlError>>) -> Option<
    Result<Seq<i32>, ErrorView>,
> {
    match item {
        Some(Ok(ctl)) => Some(Ok(ctl@)),
        Some(Err(error)) => Some(Err(error@)),
        None => None,
    }
}

/// Whether `path` lies below `base`: its first elements are those of `base`.
pub open spec fn below(base: Seq<i32>, path: Seq<i32>) -> bool {
    base.len() <= path.len() && path.subrange(0, base.len() as int) == base
}

/// What a walk in `state` does with `reply`: the state that it is in
/// afterwards, and what it hands on.
pub open spec fn spec_advance(state: IterView, reply: Result<AnswerView, IoFailure>) -> (
    IterView,
    Option<Result<Seq<i32>, ErrorView>>,
) {
    match state {
        IterView::Exhausted => (IterView::Exhausted, None),
        IterView::Active { base, current } => match spec_next(reply) {
            Err(error) => (IterView::Exhausted, Some(Err(error))),
            Ok(None) => (IterView::Exhausted, None),
            Ok(Some(path)) => if below(base, path) {
                (IterView::Active { base, current: path }, Some(Ok(path)))
            } else {
                (IterView::Exhausted, None)
            },
        },
    }
}

/// The query that a walk in `state` puts next, if it puts one.
pub open spec fn spec_query(state: IterView) -> Option<QueryView> {
    match state {
        IterView::Exhausted => None,
        IterView::Active { base, current } => Some(spec_tree_query(CTL_SYSCTL_NEXT, current)),
    }
}

/// Whether `path` starts with `base`.
pub fn starts_with(path: &Vec<i32>, base: &Vec<i32>) -> (res: bool)
    ensures
        res == below(base@, path@),
{
    if base.len() > path.len() {
        return false;
    }
    let mut i: usize = 0;
    while i < base.len()
        invariant
            i <= base.len() <= path.len(),
            path@.subrange(0, i as int) == base@.subrange(0, i as int),
        decreases base.len() - i,
    {
        if path[i] != base[i] {
            proof {
                let cut = path@.subrange(0, base@.len() as int);
                assert(cut[i as int] != base@[i as int]);
            }
            return false;
        }
        i = i + 1;
        assert(path@.subrange(0, i as int) =~= path@.subrange(0, i - 1).push(path@[i - 1]));
        assert(base@.subrange(0, i as int) =~= base@.subrange(0, i - 1).push(base@[i - 1]));
    }
    assert(base@.subrange(0, i as int) =~= base@);
    true
}

impl View for CtlIter {
    type V = IterView;

    closed spec fn view(&self) -> IterView {
        if self.exhausted {
            IterView::Exhausted
        } else {
            IterView::Active { base: self.base@, current: self.current@ }
        }
    }
}

impl CtlIter {
    /// The walk over the whole tree: below the empty path, from the first
    /// entry at the top.
    pub fn root() -> (res: CtlIter)
        ensures
            res@ == (IterView::Active { base: Seq::<i32>::empty(), current: seq![1i32] }),
    {
        let base: Vec<i32> = Vec::new();
        let mut current: Vec<i32> = Vec::new();
        current.push(1);
        assert(current@ =~= seq![1i32]);
        assert(base@ =~= Seq::<i32>::empty());
        CtlIter { base: Ctl { oid: base }, current: Ctl { oid: current }, exhausted: false }
    }

    /// The walk over the controls below `node`.
    pub fn below(node: Ctl) -> (res: CtlIter)
        ensures
            res@ == (IterView::Active { base: node@, current: node@ }),
    {
        let base = Ctl { oid: copy_path(&node.oid) };
        CtlIter { base, current: node, exhausted: false }
    }

    /// The query to put to the kernel next: for the path that follows the one
    /// that the walk has reached. A walk that is over puts none.
    pub fn query(&self) -> (res: Option<Query>)
        ensures
            match res {
                Some(query) => spec_query(self@) == Some(query@),
                None => spec_query(self@) is None,
            },
    {
        if self.exhausted {
            None
        } else {
            Some(tree_query(CTL_SYSCTL_NEXT, &self.current.oid))
        }
    }

    /// Takes the kernel's reply to the query that was put last, and hands on
    /// the control that the walk has reached, or the failure; `None` when the
    /// walk is over.
    pub fn next(&mut self, reply: Result<Answer, IoFailure>) -> (res: Option<
        Result<Ctl, SysctlError>,
    >)
        ensures
            (final(self)@, item_view(res)) == spec_advance(old(self)@, reply_view(reply)),
    {
        if self.exhausted {
            return None;
        }
        match parse_next(reply) {
            Err(error) => {
                self.exhausted = true;
                Some(Err(error))
            },
            Ok(None) => {
                self.exhausted = true;
                None
            },
            Ok(Some(oid)) => {
                if starts_with(&oid, &self.base.oid) {
                    let found = Ctl { oid: copy_path(&oid) };
                    self.current = Ctl { oid };
                    Some(Ok(found))
                } else {
                    self.exhausted = true;
                    None
                }
            },
        }
    }
}

/// The controls that a walk hands on, one after the other, when the kernel
/// gives `replies` in turn.
pub open spec fn spec_walk(state: IterView, replies: Seq<Result<AnswerView, IoFailure>>) -> Seq<
    Seq<i32>,
>
    decreases replies.len(),
{
    if replies.len() == 0 {
        Seq::<Seq<i32>>::empty()
    } else {
        let (after, item) = spec_advance(state, replies[0]);
        let rest = spec_walk(after, replies.drop_first());
        match item {
            Some(Ok(path)) => seq![path] + rest,
            _ => rest,
        }
    }
}

/// Whether the kernel keeps its order in `replies`: each path that it names
/// to a walk comes later in `rank` than the path that the walk asked about.
pub open spec fn kernel_ascends(
    rank: spec_fn(Seq<i32>) -> int,
    state: IterView,
    replies: Seq<Result<AnswerView, IoFailure>>,
) -> bool
    decreases replies.len(),
{
    if replies.len() == 0 {
        true
    } else {
        match state {
            IterView::Exhausted => true,
            IterView::Active { base, current } => {
                &&& spec_next(replies[0]) matches Ok(Some(path)) ==> rank(current) < rank(path)
                &&& kernel_ascends(rank, spec_advance(state, replies[0]).0, replies.drop_first())
            },
        }
    }
}

/// A walk never leaves its base: while it is active the base stays, and every
/// control that it hands on lies below the base.
pub proof fn lemma_advance_below(
    base: Seq<i32>,
    current: Seq<i32>,
    reply: Result<AnswerView, IoFailure>,
)
    ensures
        spec_advance(IterView::Active { base, current }, reply).1 matches Some(Ok(path)) ==> below(
            base,
            path,
        ) && spec_advance(IterView::Active { base, current }, reply).0 == (IterView::Active {
            base,
            current: path,
        }),
        spec_advance(IterView::Active { base, current }, reply).1 matches Some(Ok(path))
            || spec_advance(IterView::Active { base, current }, reply).0 == IterView::Exhausted,
{
}

/// A walk that is over stays over: it hands on nothing, whatever the replies.
pub proof fn lemma_exhausted_is_final(replies: Seq<Result<AnswerView, IoFailure>>)
    ensures
        spec_walk(IterView::Exhausted, replies) == Seq::<Seq<i32>>::empty(),
    decreases replies.len(),
{
    if replies.len() > 0 {
        lemma_exhausted_is_final(replies.drop_first());
    }
}

/// Every control that a walk below `base` hands on lies below `base`,
/// whatever the kernel replies, and there are no more of them than replies.
pub proof fn lemma_walk_below(
    base: Seq<i32>,
    current: Seq<i32>,
    replies: Seq<Result<AnswerView, IoFailure>>,
)
    ensures
        spec_walk(IterView::Active { base, current }, replies).len() <= replies.len(),
        forall|i: int|
            0 <= i < spec_walk(IterView::Active { base, current }, replies).len() ==> below(
                base,
                #[trigger] spec_walk(IterView::Active { base, current }, replies)[i],
            ),
    decreases replies.len(),
{
    if replies.len() > 0 {
        let state = IterView::Active { base, current };
        let (after, item) = spec_advance(state, replies[0]);
        let rest = spec_walk(after, replies.drop_first());
        match after {
            IterView::Exhausted => {
                lemma_exhausted_is_final(replies.drop_first());
            },
            IterView::Active { base: same, current: reached } => {
                lemma_walk_below(base, reached, replies.drop_first());
            },
        }
    }
}

/// Where the kernel keeps its order, a walk goes forward only: every control
/// that it hands on comes later than the path it started from, and later than
/// every control handed on before. So no control is visited twice.
pub proof fn lemma_walk_ascends(
    rank: spec_fn(Seq<i32>) -> int,
    base: Seq<i32>,
    current: Seq<i32>,
    replies: Seq<Result<AnswerView, IoFailure>>,
)
    requires
        kernel_ascends(rank, IterView::Active { base, current }, replies),
    ensures
        forall|i: int|
            0 <= i < spec_walk(IterView::Active { base, current }, replies).len() ==> rank(current)
                < rank(#[trigger] spec_walk(IterView::Active { base, current }, replies)[i]),
        forall|i: int, j: int|
            0 <= i < j < spec_walk(IterView::Active { base, current }, replies).len() ==> rank(
                #[trigger] spec_walk(IterView::Active { base, current }, replies)[i],
            ) < rank(#[trigger] spec_walk(IterView::Active { base, current }, replies)[j]),
        forall|i: int, j: int|
            0 <= i < j < spec_walk(IterView::Active { base, current }, replies).len()
                ==> #[trigger] spec_walk(IterView::Active { base, current }, replies)[i]
                != #[trigger] spec_walk(IterView::Active { base, current }, replies)[j],
    decreases replies.len(),
{
    let state = IterView::Active { base, current };
    let walk = spec_walk(state, replies);
    if replies.len() > 0 {
        let (after, item) = spec_advance(state, replies[0]);
        let rest = spec_walk(after, replies.drop_first());
        match after {
            IterView::Exhausted => {
                lemma_exhausted_is_final(replies.drop_first());
                assert(walk.len() == 0);
            },
            IterView::Active { base: same, current: reached } => {
                lemma_walk_ascends(rank, base, reached, replies.drop_first());
                assert(walk =~= seq![reached] + rest);
                assert(rank(current) < rank(reached));
                assert forall|i: int| 0 <= i < walk.len() implies rank(current) < rank(
                    #[trigger] walk[i],
                ) by {
                    if i > 0 {
                        assert(walk[i] == rest[i - 1]);
                    }
                }
                assert forall|i: int, j: int| 0 <= i < j < walk.len() implies rank(
                    #[trigger] walk[i],
                ) < rank(#[trigger] walk[j]) by {
                    assert(walk[j] == rest[j - 1]);
                    if i > 0 {
                        assert(walk[i] == rest[i - 1]);
                    }
                }
            },
        }
    }
}

/// Where the kernel keeps its order and names no path that comes later than
/// `top`, a walk is finite: it hands on no more controls than there are ranks
/// between the path it started from and `top`, however many replies come.
pub proof fn lemma_walk_is_finite(
    rank: spec_fn(Seq<i32>) -> int,
    top: int,
    base: Seq<i32>,
    current: Seq<i32>,
    replies: Seq<Result<AnswerView, IoFailure>>,
)
    requires
        kernel_ascends(rank, IterView::Active { base, current }, replies),
        forall|i: int|
            0 <= i < spec_walk(IterView::Active { base, current }, replies).len() ==> rank(
                #[trigger] spec_walk(IterView::Active { base, current }, replies)[i],
            ) <= top,
    ensures
        rank(current) <= top ==> spec_walk(IterView::Active { base, current }, replies).len()
            <= top - rank(current),
        rank(current) > top ==> spec_walk(IterView::Active { base, current }, replies).len() == 0,
    decreases replies.len(),
{
    let state = IterView::Active { base, current };
    let walk = spec_walk(state, replies);
    lemma_walk_ascends(rank, base, current, replies);
    if replies.len() > 0 {
        let (after, item) = spec_advance(state, replies[0]);
        let rest = spec_walk(after, replies.drop_first());
        match after {
            IterView::Exhausted => {
                lemma_exhausted_is_final(replies.drop_first());
                assert(walk.len() == 0);
            },
            IterView::Active { base: same, current: reached } => {
                assert(walk =~= seq![reached] + rest);
                assert(walk[0] == reached);
                assert forall|i: int| 0 <= i < rest.len() implies rank(#[trigger] rest[i])
                    <= top by {
                    assert(walk[i + 1] == rest[i]);
                }
                lemma_walk_is_finite(rank, top, base, reached, replies.drop_first());
            },
        }
    }
}

} // verus!
