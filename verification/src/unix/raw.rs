//! Queries to the kernel and its answers, as plain values.

use crate::ctl_error::IoFailure;
use vstd::prelude::*;
use vstd::slice::*;
use vstd::string::*;

verus! {

/// The first element of every path that asks about the tree itself.
pub const CTL_SYSCTL: i32 = 0;

/// Asks for the name of a path.
pub const CTL_SYSCTL_NAME: i32 = 1;

/// Asks for the path that follows a path.
pub const CTL_SYSCTL_NEXT: i32 = 2;

/// Asks for the path of a name.
pub const CTL_SYSCTL_NAME2OID: i32 = 3;

/// Asks for the type, the flags and the format hint of a path.
pub const CTL_SYSCTL_OIDFMT: i32 = 4;

/// Asks for the description of a path.
pub const CTL_SYSCTL_OIDDESCR: i32 = 5;

/// The bytes that a path of the greatest length takes: four for each of its
/// elements.
pub const PATH_BYTES: usize = 96;

/// The room that a query offers the kernel for its answer.
#[derive(Debug, Copy, Clone, PartialEq, Eq, Hash, Structural)]
pub enum Room {
    /// No room: the query hands something in and expects nothing back.
    Nothing,
    /// No buffer: the kernel reports how long the value is.
    Probe,
    /// A buffer of the size that the platform uses for its standard streams.
    Block,
    /// A buffer of `size` zero bytes, of which the kernel is told to fill
    /// `ask` at most.
    Bytes { size: usize, ask: usize },
}

/// One question to the kernel.
#[derive(Debug, Clone, PartialEq, Eq)]
pub struct Query {
    /// The path that the question is about.
    pub mib: Vec<i32>,
    /// The room for the answer.
    pub room: Room,
    /// What is handed in: a name to look up, or a new value.
    pub input: Option<Vec<u8>>,
}

/// A query, with its path and its input as sequences.
pub struct QueryView {
    pub mib: Seq<i32>,
    pub room: Room,
    pub input: Option<Seq<u8>>,
}

impl View for Query {
    type V = QueryView;

    open spec fn view(&self) -> QueryView {
        QueryView {
            mib: self.mib@,
            room: self.room,
            input: match self.input {
                Some(bytes) => Some(bytes@),
                None => None,
            },
        }
    }
}

/// What the kernel gave back for a query that it accepted.
#[derive(Debug, Clone, PartialEq, Eq)]
pub struct Answer {
    /// The buffer that was offered, as the kernel left it.
    pub data: Vec<u8>,
    /// The length that the kernel reported.
    pub len: usize,
}

/// An answer, with its buffer as a sequence.
pub struct AnswerView {
    pub data: Seq<u8>,
    pub len: usize,
}

impl View for Answer {
    type V = AnswerView;

    open spec fn view(&self) -> AnswerView {
        AnswerView { data: self.data@, len: self.len }
    }
}

impl AnswerView {
    /// The bytes that the kernel wrote: as many of the buffer as it reported.
    pub open spec fn written(self) -> Seq<u8> {
        if self.len <= self.data.len() {
            self.data.subrange(0, self.len as int)
        } else {
            self.data
        }
    }
}

/// The kernel's reply to a query, seen through the view of the answer.
pub open spec fn reply_view(reply: Result<Answer, IoFailure>) -> Result<AnswerView, IoFailure> {
    match reply {
        Ok(answer) => Ok(answer@),
        Err(failure) => Err(failure),
    }
}

/// The query that asks for the path of `name`.
pub open spec fn spec_resolve_query(name: Seq<char>) -> QueryView {
    QueryView {
        mib: seq![CTL_SYSCTL, CTL_SYSCTL_NAME2OID],
        room: Room::Bytes { size: PATH_BYTES, ask: PATH_BYTES },
        input: Some(vstd::utf8::encode_utf8(name)),
    }
}

/// The query that asks about the path `oid` itself: `what` says for what.
pub open spec fn spec_tree_query(what: i32, oid: Seq<i32>) -> QueryView {
    QueryView {
        mib: seq![CTL_SYSCTL, what] + oid,
        room: if what == CTL_SYSCTL_NEXT {
            Room::Bytes { size: PATH_BYTES, ask: PATH_BYTES }
        } else {
            Room::Block
        },
        input: None,
    }
}

/// The query that asks how long the value at `oid` is.
pub open spec fn spec_size_query(oid: Seq<i32>) -> QueryView {
    QueryView { mib: oid, room: Room::Probe, input: None }
}

/// The query that fetches the value at `oid` into a buffer of `size` bytes,
/// `ask` of which the kernel may fill.
pub open spec fn spec_data_query(oid: Seq<i32>, size: usize, ask: usize) -> QueryView {
    QueryView { mib: oid, room: Room::Bytes { size, ask }, input: None }
}

/// The query that writes `bytes` to the value at `oid`.
pub open spec fn spec_write_query(oid: Seq<i32>, bytes: Seq<u8>) -> QueryView {
    QueryView { mib: oid, room: Room::Nothing, input: Some(bytes) }
}

/// A copy of the path `oid`.
pub fn copy_path(oid: &Vec<i32>) -> (res: Vec<i32>)
    ensures
        res@ == oid@,
{
    slice_to_vec(oid.as_slice())
}

/// The query that asks for the path of `name`.
pub fn resolve_query(name: &str) -> (res: Query)
    ensures
        res@ == spec_resolve_query(name@),
{
    let mut mib: Vec<i32> = Vec::new();
    mib.push(CTL_SYSCTL);
    mib.push(CTL_SYSCTL_NAME2OID);
    assert(mib@ =~= seq![CTL_SYSCTL, CTL_SYSCTL_NAME2OID]);
    Query {
        mib,
        room: Room::Bytes { size: PATH_BYTES, ask: PATH_BYTES },
        input: Some(name.as_bytes_vec()),
    }
}

/// The query that asks about the path `oid` itself: `what` says for what.
pub fn tree_query(what: i32, oid: &Vec<i32>) -> (res: Query)
    ensures
        res@ == spec_tree_query(what, oid@),
{
    let mut mib: Vec<i32> = Vec::new();
    mib.push(CTL_SYSCTL);
    mib.push(what);
    let mut i: usize = 0;
    while i < oid.len()
        invariant
            i <= oid.len(),
            mib@ == seq![CTL_SYSCTL, what] + oid@.subrange(0, i as int),
        decreases oid.len() - i,
    {
        mib.push(oid[i]);
        i = i + 1;
        assert(mib@ =~= seq![CTL_SYSCTL, what] + oid@.subrange(0, i as int));
    }
    assert(oid@.subrange(0, i as int) =~= oid@);
    let room = if what == CTL_SYSCTL_NEXT {
        Room::Bytes { size: PATH_BYTES, ask: PATH_BYTES }
    } else {
        Room::Block
    };
    Query { mib, room, input: None }
}

/// The query that asks how long the value at `oid` is.
pub fn size_query(oid: &Vec<i32>) -> (res: Query)
    ensures
        res@ == spec_size_query(oid@),
{
    Query { mib: copy_path(oid), room: Room::Probe, input: None }
}

/// The query that fetches the value at `oid` into a buffer of `size` bytes,
/// `ask` of which the kernel may fill.
pub fn data_query(oid: &Vec<i32>, size: usize, ask: usize) -> (res: Query)
    ensures
        res@ == spec_data_query(oid@, size, ask),
{
    Query { mib: copy_path(oid), room: Room::Bytes { size, ask }, input: None }
}

/// The query that writes `bytes` to the value at `oid`.
pub fn write_query(oid: &Vec<i32>, bytes: Vec<u8>) -> (res: Query)
    ensures
        res@ == spec_write_query(oid@, bytes@),
{
    Query { mib: copy_path(oid), room: Room::Nothing, input: Some(bytes) }
}

} // verus!
