//! Operations on the tree, each as a machine.
//!
//! An operation in progress is an [`Op`]: it waits for the kernel's reply to
//! the query that was put last. [`Op::step`] takes the reply and says what
//! comes next: another query, or the end of the operation with its result.
//! The machine makes no call itself, so that what it decides can be stated
//! for every reply.

use crate::consts::{CtlFlags, CTLFLAG_ALL};
use crate::ctl_error::{ErrorView, IoFailure, SysctlError};
use crate::ctl_info::{CtlInfo, InfoView};
use crate::ctl_type::CtlType;
use crate::ctl_value::{outcome, CtlValue, ValueView};
use crate::text::{parse_i32, parsed_i32};
use crate::unix::funcs::{
    decode, encode, parse_info, parse_next, parse_oid, parse_text, payload, spec_decode,
    spec_encode, spec_info, spec_next, spec_payload, spec_reply_text, spec_resolved,
};
use crate::unix::raw::{
    data_query, reply_view, size_query, spec_data_query, spec_size_query, spec_tree_query,
    spec_write_query, tree_query, write_query, Answer, AnswerView, Query, QueryView,
    CTL_SYSCTL_NAME, CTL_SYSCTL_NEXT, CTL_SYSCTL_OIDDESCR, CTL_SYSCTL_OIDFMT,
};
use vstd::prelude::*;

verus! {

/// What a read is to give.
#[derive(Debug, Copy, Clone, PartialEq, Eq, Structural)]
pub enum Fetch {
    /// The value.
    Value,
    /// The value as text.
    Text,
    /// The payload, for a record of `size` bytes.
    Payload { size: usize },
    /// Nothing yet: once the value has been read, it is read once more, as
    /// text.
    Reread,
}

/// What an operation that has asked for the descriptor wants it for.
#[derive(Debug, Clone, PartialEq)]
pub enum Want {
    /// For itself.
    Info,
    /// For the type in it.
    Type,
    /// For the flags in it.
    Flags,
    /// To read the value.
    Read(Fetch),
    /// To write `value`, and then to read as `then` says.
    Store { value: CtlValue, then: Fetch },
    /// To write the value that `text` spells in the control's type, and then
    /// to read the value as text.
    StoreText { text: String },
}

/// What the descriptor is wanted for, seen through views.
pub enum WantView {
    Info,
    Type,
    Flags,
    Read(Fetch),
    Store { value: ValueView, then: Fetch },
    StoreText { text: Seq<char> },
}

impl View for Want {
    type V = WantView;

    open spec fn view(&self) -> WantView {
        match self {
            Want::Info => WantView::Info,
            Want::Type => WantView::Type,
            Want::Flags => WantView::Flags,
            Want::Read(fetch) => WantView::Read(*fetch),
            Want::Store { value, then } => WantView::Store { value: value@, then: *then },
            Want::StoreText { text } => WantView::StoreText { text: text@ },
        }
    }
}

/// What an operation is to give in the end.
#[derive(Debug, Clone, PartialEq)]
pub enum Goal {
    /// The path itself.
    Oid,
    /// The name of the control.
    Name,
    /// The description of the control.
    Description,
    /// The path that follows in the kernel's order.
    Next,
    /// What takes the descriptor of the control first.
    Control(Want),
}

/// A goal, seen through views.
pub enum GoalView {
    Oid,
    Name,
    Description,
    Next,
    Control(WantView),
}

impl View for Goal {
    type V = GoalView;

    open spec fn view(&self) -> GoalView {
        match self {
            Goal::Oid => GoalView::Oid,
            Goal::Name => GoalView::Name,
            Goal::Description => GoalView::Description,
            Goal::Next => GoalView::Next,
            Goal::Control(want) => GoalView::Control(want@),
        }
    }
}

/// An operation that waits for a reply.
#[derive(Debug, Clone, PartialEq)]
pub enum Op {
    /// Asked for the path of `name`.
    Resolve { name: String, goal: Goal },
    /// Asked for a name or a description.
    Text,
    /// Asked for the next path.
    Next,
    /// Asked for the descriptor of `oid`.
    Meta { oid: Vec<i32>, want: Want },
    /// Asked how long the value of `oid` is.
    Size { oid: Vec<i32>, info: CtlInfo, fetch: Fetch },
    /// Asked for the value of `oid`, which the kernel had reported as `reported`
    /// bytes long.
    Data { oid: Vec<i32>, info: CtlInfo, reported: usize, fetch: Fetch },
    /// Handed a new value for `oid` in; `then` says how to read afterwards.
    Write { oid: Vec<i32>, then: Fetch },
}

/// An operation, seen through the views of what it holds.
pub enum OpView {
    Resolve { name: Seq<char>, goal: GoalView },
    Text,
    Next,
    Meta { oid: Seq<i32>, want: WantView },
    Size { oid: Seq<i32>, info: InfoView, fetch: Fetch },
    Data { oid: Seq<i32>, info: InfoView, reported: usize, fetch: Fetch },
    Write { oid: Seq<i32>, then: Fetch },
}

impl View for Op {
    type V = OpView;

    open spec fn view(&self) -> OpView {
        match self {
            Op::Resolve { name, goal } => OpView::Resolve { name: name@, goal: goal@ },
            Op::Text => OpView::Text,
            Op::Next => OpView::Next,
            Op::Meta { oid, want } => OpView::Meta { oid: oid@, want: want@ },
            Op::Size { oid, info, fetch } => OpView::Size {
                oid: oid@,
                info: info@,
                fetch: *fetch,
            },
            Op::Data { oid, info, reported, fetch } => OpView::Data {
                oid: oid@,
                info: info@,
                reported: *reported,
                fetch: *fetch,
            },
            Op::Write { oid, then } => OpView::Write { oid: oid@, then: *then },
        }
    }
}

/// What an operation gave.
#[derive(Debug, Clone, PartialEq)]
pub enum Outcome {
    Oid(Vec<i32>),
    Info(CtlInfo),
    Type(CtlType),
    Flags(CtlFlags),
    Text(String),
    Next(Option<Vec<i32>>),
    Value(CtlValue),
    Payload(Vec<u8>),
}

/// What an operation gave, seen through views.
pub enum OutcomeView {
    Oid(Seq<i32>),
    Info(InfoView),
    Type(CtlType),
    Flags(CtlFlags),
    Text(Seq<char>),
    Next(Option<Seq<i32>>),
    Value(ValueView),
    Payload(Seq<u8>),
}

impl View for Outcome {
    type V = OutcomeView;

    open spec fn view(&self) -> OutcomeView {
        match self {
            Outcome::Oid(path) => OutcomeView::Oid(path@),
            Outcome::Info(info) => OutcomeView::Info(info@),
            Outcome::Type(ctl_type) => OutcomeView::Type(*ctl_type),
            Outcome::Flags(flags) => OutcomeView::Flags(*flags),
            Outcome::Text(text) => OutcomeView::Text(text@),
            Outcome::Next(Some(path)) => OutcomeView::Next(Some(path@)),
            Outcome::Next(None) => OutcomeView::Next(None),
            Outcome::Value(value) => OutcomeView::Value(value@),
            Outcome::Payload(bytes) => OutcomeView::Payload(bytes@),
        }
    }
}

/// What comes next in an operation.
#[derive(Debug, PartialEq)]
pub enum Step {
    /// Put `query` to the kernel, and hand its reply to `op`.
    Ask { op: Op, query: Query },
    /// The operation is over.
    Done(Result<Outcome, SysctlError>),
}

/// A step, seen through views.
pub enum StepView {
    Ask { op: OpView, query: QueryView },
    Done(Result<OutcomeView, ErrorView>),
}

impl View for Step {
    type V = StepView;

    open spec fn view(&self) -> StepView {
        match self {
            Step::Ask { op, query } => StepView::Ask { op: op@, query: query@ },
            Step::Done(Ok(outcome)) => StepView::Done(Ok(outcome@)),
            Step::Done(Err(error)) => StepView::Done(Err(error@)),
        }
    }
}

/// The step that ends an operation with `error`.
pub open spec fn failed(error: ErrorView) -> StepView {
    StepView::Done(Err(error))
}

/// The step that ends an operation with `outcome`.
pub open spec fn gave(outcome: OutcomeView) -> StepView {
    StepView::Done(Ok(outcome))
}

/// The step that asks for the descriptor of `oid`.
pub open spec fn spec_ask_info(oid: Seq<i32>, want: WantView) -> StepView {
    StepView::Ask {
        op: OpView::Meta { oid, want },
        query: spec_tree_query(CTL_SYSCTL_OIDFMT, oid),
    }
}

/// The first step towards `goal` for the control at `oid`: the path itself
/// needs no query, and every other goal starts with one.
pub open spec fn spec_begin(goal: GoalView, oid: Seq<i32>) -> StepView {
    match goal {
        GoalView::Oid => gave(OutcomeView::Oid(oid)),
        GoalView::Name => StepView::Ask {
            op: OpView::Text,
            query: spec_tree_query(CTL_SYSCTL_NAME, oid),
        },
        GoalView::Description => StepView::Ask {
            op: OpView::Text,
            query: spec_tree_query(CTL_SYSCTL_OIDDESCR, oid),
        },
        GoalView::Next => StepView::Ask {
            op: OpView::Next,
            query: spec_tree_query(CTL_SYSCTL_NEXT, oid),
        },
        GoalView::Control(want) => spec_ask_info(oid, want),
    }
}

/// The step after the descriptor has come, on the way to reading the value: a
/// control that may not be read ends the operation, and no query follows.
/// Otherwise the kernel is asked how long the value is.
pub open spec fn spec_read(oid: Seq<i32>, info: InfoView, fetch: Fetch) -> StepView {
    if !info.readable() {
        failed(ErrorView::NoReadAccess)
    } else {
        StepView::Ask { op: OpView::Size { oid, info, fetch }, query: spec_size_query(oid) }
    }
}

/// The step after the descriptor has come, on the way to writing `value`: a
/// value that cannot be encoded for this control ends the operation, and no
/// query follows. Otherwise the payload is handed to the kernel.
pub open spec fn spec_write(oid: Seq<i32>, info: InfoView, value: ValueView, then: Fetch) -> StepView {
    match spec_encode(info, value) {
        Ok(bytes) => StepView::Ask {
            op: OpView::Write { oid, then },
            query: spec_write_query(oid, bytes),
        },
        Err(error) => failed(error),
    }
}

/// The value that `text` spells for a control of type `ctl_type`: text is its
/// own value, an `Int` is written in decimal, and the other types cannot be
/// written from text.
pub open spec fn spec_parse(ctl_type: CtlType, text: Seq<char>) -> Result<ValueView, ErrorView> {
    match ctl_type {
        CtlType::String => Ok(ValueView::String(text)),
        CtlType::Int => match parsed_i32(text) {
            Some(v) => Ok(ValueView::Int(v)),
            None => Err(ErrorView::ParseError),
        },
        _ => Err(ErrorView::MissingImplementation),
    }
}

/// How large the buffer for a value is: as long as the kernel reported the
/// value to be, and at least as wide as the type.
pub open spec fn buffer_size(info: InfoView, reported: usize) -> usize {
    if reported as nat >= info.ctl_type.spec_min_type_size() {
        reported
    } else {
        info.ctl_type.spec_min_type_size() as usize
    }
}

/// The end of a read: what the payload that has come gives.
pub open spec fn spec_finish(oid: Seq<i32>, info: InfoView, data: Seq<u8>, fetch: Fetch) -> StepView {
    match spec_decode(info, data) {
        Err(error) => failed(error),
        Ok(value) => match fetch {
            Fetch::Value => gave(OutcomeView::Value(value)),
            Fetch::Text => gave(OutcomeView::Text(value.text())),
            Fetch::Payload { size } => match spec_payload(value, size) {
                Ok(bytes) => gave(OutcomeView::Payload(bytes)),
                Err(error) => failed(error),
            },
            Fetch::Reread => spec_ask_info(oid, WantView::Read(Fetch::Text)),
        },
    }
}

/// What an operation that waits for the descriptor does with it.
pub open spec fn spec_described(oid: Seq<i32>, want: WantView, info: InfoView) -> StepView {
    match want {
        WantView::Info => gave(OutcomeView::Info(info)),
        WantView::Type => gave(OutcomeView::Type(info.ctl_type)),
        WantView::Flags => gave(OutcomeView::Flags(CtlFlags { bits: info.flags & CTLFLAG_ALL })),
        WantView::Read(fetch) => spec_read(oid, info, fetch),
        WantView::Store { value, then } => spec_write(oid, info, value, then),
        WantView::StoreText { text } => match spec_parse(info.ctl_type, text) {
            Ok(value) => spec_ask_info(oid, WantView::Store { value, then: Fetch::Reread }),
            Err(error) => failed(error),
        },
    }
}

/// What the operation `op` does with `reply`.
pub open spec fn spec_step(op: OpView, reply: Result<AnswerView, IoFailure>) -> StepView {
    match op {
        OpView::Resolve { name, goal } => match spec_resolved(name, reply) {
            Ok(oid) => spec_begin(goal, oid),
            Err(error) => failed(error),
        },
        OpView::Text => match spec_reply_text(reply) {
            Ok(text) => gave(OutcomeView::Text(text)),
            Err(error) => failed(error),
        },
        OpView::Next => match spec_next(reply) {
            Ok(next) => gave(OutcomeView::Next(next)),
            Err(error) => failed(error),
        },
        OpView::Meta { oid, want } => match spec_info(reply) {
            Ok(info) => spec_described(oid, want, info),
            Err(error) => failed(error),
        },
        OpView::Size { oid, info, fetch } => match reply {
            Err(failure) => failed(ErrorView::IoError(failure)),
            Ok(answer) => StepView::Ask {
                op: OpView::Data { oid, info, reported: answer.len, fetch },
                query: spec_data_query(oid, buffer_size(info, answer.len), answer.len),
            },
        },
        OpView::Data { oid, info, reported, fetch } => match reply {
            Err(failure) => failed(ErrorView::IoError(failure)),
            Ok(answer) => if answer.len < reported {
                failed(ErrorView::ShortRead { read: answer.len, reported })
            } else {
                spec_finish(oid, info, answer.data, fetch)
            },
        },
        OpView::Write { oid, then } => match reply {
            Err(failure) => failed(ErrorView::IoError(failure)),
            Ok(answer) => spec_ask_info(oid, WantView::Read(then)),
        },
    }
}

/// Asks for the descriptor of `oid`.
fn ask_info(oid: Vec<i32>, want: Want) -> (res: Step)
    ensures
        res@ == spec_ask_info(oid@, want@),
{
    let query = tree_query(CTL_SYSCTL_OIDFMT, &oid);
    Step::Ask { op: Op::Meta { oid, want }, query }
}

/// Takes the first step towards `goal` for the control at `oid`.
pub fn begin(goal: Goal, oid: Vec<i32>) -> (res: Step)
    ensures
        res@ == spec_begin(goal@, oid@),
{
    match goal {
        Goal::Oid => Step::Done(Ok(Outcome::Oid(oid))),
        Goal::Name => Step::Ask { op: Op::Text, query: tree_query(CTL_SYSCTL_NAME, &oid) },
        Goal::Description => Step::Ask {
            op: Op::Text,
            query: tree_query(CTL_SYSCTL_OIDDESCR, &oid),
        },
        Goal::Next => Step::Ask { op: Op::Next, query: tree_query(CTL_SYSCTL_NEXT, &oid) },
        Goal::Control(want) => ask_info(oid, want),
    }
}

/// Goes on to read the value, now that the descriptor is here.
fn read(oid: Vec<i32>, info: CtlInfo, fetch: Fetch) -> (res: Step)
    ensures
        res@ == spec_read(oid@, info@, fetch),
{
    if !info.is_readable() {
        Step::Done(Err(SysctlError::NoReadAccess))
    } else {
        let query = size_query(&oid);
        Step::Ask { op: Op::Size { oid, info, fetch }, query }
    }
}

/// Goes on to write `value`, now that the descriptor is here.
fn write(oid: Vec<i32>, info: CtlInfo, value: CtlValue, then: Fetch) -> (res: Step)
    ensures
        res@ == spec_write(oid@, info@, value@, then),
{
    match encode(&info, &value) {
        Ok(bytes) => {
            let query = write_query(&oid, bytes);
            Step::Ask { op: Op::Write { oid, then }, query }
        },
        Err(error) => Step::Done(Err(error)),
    }
}

/// Reads `text` as a value of the type `ctl_type`.
pub fn parse_value(ctl_type: CtlType, text: String) -> (res: Result<CtlValue, SysctlError>)
    ensures
        outcome(res) == spec_parse(ctl_type, text@),
{
    match ctl_type {
        CtlType::String => Ok(CtlValue::String(text)),
        CtlType::Int => match parse_i32(text.as_str()) {
            Some(v) => Ok(CtlValue::Int(v)),
            None => Err(SysctlError::ParseError),
        },
        _ => Err(SysctlError::MissingImplementation),
    }
}

/// Ends a read with the payload that has come.
fn finish(oid: Vec<i32>, info: CtlInfo, data: Vec<u8>, fetch: Fetch) -> (res: Step)
    ensures
        res@ == spec_finish(oid@, info@, data@, fetch),
{
    match decode(&info, data) {
        Err(error) => Step::Done(Err(error)),
        Ok(value) => match fetch {
            Fetch::Value => Step::Done(Ok(Outcome::Value(value))),
            Fetch::Text => Step::Done(Ok(Outcome::Text(value.to_string()))),
            Fetch::Payload { size } => match payload(value, size) {
                Ok(bytes) => Step::Done(Ok(Outcome::Payload(bytes))),
                Err(error) => Step::Done(Err(error)),
            },
            Fetch::Reread => ask_info(oid, Want::Read(Fetch::Text)),
        },
    }
}

/// Goes on with the descriptor that has come.
fn described(oid: Vec<i32>, want: Want, info: CtlInfo) -> (res: Step)
    ensures
        res@ == spec_described(oid@, want@, info@),
{
    match want {
        Want::Info => Step::Done(Ok(Outcome::Info(info))),
        Want::Type => Step::Done(Ok(Outcome::Type(info.ctl_type))),
        Want::Flags => Step::Done(Ok(Outcome::Flags(info.flags()))),
        Want::Read(fetch) => read(oid, info, fetch),
        Want::Store { value, then } => write(oid, info, value, then),
        Want::StoreText { text } => match parse_value(info.ctl_type, text) {
            Ok(value) => ask_info(oid, Want::Store { value, then: Fetch::Reread }),
            Err(error) => Step::Done(Err(error)),
        },
    }
}

impl Op {
    /// Takes the kernel's reply to the query that was put last, and says what
    /// comes next.
    pub fn step(self, reply: Result<Answer, IoFailure>) -> (res: Step)
        ensures
            res@ == spec_step(self@, reply_view(reply)),
    {
        match self {
            Op::Resolve { name, goal } => match parse_oid(name.as_str(), reply) {
                Ok(oid) => begin(goal, oid),
                Err(error) => Step::Done(Err(error)),
            },
            Op::Text => match parse_text(reply) {
                Ok(text) => Step::Done(Ok(Outcome::Text(text))),
                Err(error) => Step::Done(Err(error)),
            },
            Op::Next => match parse_next(reply) {
                Ok(next) => Step::Done(Ok(Outcome::Next(next))),
                Err(error) => Step::Done(Err(error)),
            },
            Op::Meta { oid, want } => match parse_info(reply) {
                Ok(info) => described(oid, want, info),
                Err(error) => Step::Done(Err(error)),
            },
            Op::Size { oid, info, fetch } => match reply {
                Err(failure) => Step::Done(Err(SysctlError::IoError(failure))),
                Ok(answer) => {
                    let reported: usize = answer.len;
                    let least: usize = info.ctl_type.min_type_size();
                    let size: usize = if reported >= least {
                        reported
                    } else {
                        least
                    };
                    let query = data_query(&oid, size, reported);
                    Step::Ask { op: Op::Data { oid, info, reported, fetch }, query }
                },
            },
            Op::Data { oid, info, reported, fetch } => match reply {
                Err(failure) => Step::Done(Err(SysctlError::IoError(failure))),
                Ok(answer) => {
                    if answer.len < reported {
                        Step::Done(Err(SysctlError::ShortRead { read: answer.len, reported }))
                    } else {
                        finish(oid, info, answer.data, fetch)
                    }
                },
            },
            Op::Write { oid, then } => match reply {
                Err(failure) => Step::Done(Err(SysctlError::IoError(failure))),
                Ok(_) => ask_info(oid, Want::Read(then)),
            },
        }
    }
}

/// The kinds of result that an operation can give.
#[derive(Debug, Copy, Clone, PartialEq, Eq, Structural)]
pub enum Kind {
    Oid,
    Info,
    Type,
    Flags,
    Text,
    Next,
    Value,
    Payload,
}

impl OutcomeView {
    /// The kind of this result.
    pub open spec fn kind(self) -> Kind {
        match self {
            OutcomeView::Oid(_) => Kind::Oid,
            OutcomeView::Info(_) => Kind::Info,
            OutcomeView::Type(_) => Kind::Type,
            OutcomeView::Flags(_) => Kind::Flags,
            OutcomeView::Text(_) => Kind::Text,
            OutcomeView::Next(_) => Kind::Next,
            OutcomeView::Value(_) => Kind::Value,
            OutcomeView::Payload(_) => Kind::Payload,
        }
    }
}

/// The kind of result that a read gives.
pub open spec fn fetch_gives(fetch: Fetch) -> Kind {
    match fetch {
        Fetch::Value => Kind::Value,
        Fetch::Text => Kind::Text,
        Fetch::Payload { size } => Kind::Payload,
        Fetch::Reread => Kind::Text,
    }
}

/// The most replies that a read takes, the one with the descriptor included.
pub open spec fn fetch_replies(fetch: Fetch) -> nat {
    match fetch {
        Fetch::Reread => 6,
        _ => 3,
    }
}

impl WantView {
    /// The kind of result that an operation gives that wants the descriptor
    /// for this.
    pub open spec fn gives(self) -> Kind {
        match self {
            WantView::Info => Kind::Info,
            WantView::Type => Kind::Type,
            WantView::Flags => Kind::Flags,
            WantView::Read(fetch) => fetch_gives(fetch),
            WantView::Store { value, then } => fetch_gives(then),
            WantView::StoreText { text } => Kind::Text,
        }
    }

    /// The most replies that such an operation takes, the one with the
    /// descriptor included.
    pub open spec fn replies(self) -> nat {
        match self {
            WantView::Info => 1,
            WantView::Type => 1,
            WantView::Flags => 1,
            WantView::Read(fetch) => fetch_replies(fetch),
            WantView::Store { value, then } => 2 + fetch_replies(then),
            WantView::StoreText { text } => 9,
        }
    }
}

impl GoalView {
    /// The kind of result that an operation with this goal gives.
    pub open spec fn gives(self) -> Kind {
        match self {
            GoalView::Oid => Kind::Oid,
            GoalView::Name => Kind::Text,
            GoalView::Description => Kind::Text,
            GoalView::Next => Kind::Next,
            GoalView::Control(want) => want.gives(),
        }
    }

    /// The most replies that an operation with this goal takes, once the path
    /// is known.
    pub open spec fn replies(self) -> nat {
        match self {
            GoalView::Oid => 0,
            GoalView::Name => 1,
            GoalView::Description => 1,
            GoalView::Next => 1,
            GoalView::Control(want) => want.replies(),
        }
    }
}

impl OpView {
    /// The kind of result that this operation gives, if it gives one.
    pub open spec fn gives(self) -> Kind {
        match self {
            OpView::Resolve { name, goal } => goal.gives(),
            OpView::Text => Kind::Text,
            OpView::Next => Kind::Next,
            OpView::Meta { oid, want } => want.gives(),
            OpView::Size { oid, info, fetch } => fetch_gives(fetch),
            OpView::Data { oid, info, reported, fetch } => fetch_gives(fetch),
            OpView::Write { oid, then } => fetch_gives(then),
        }
    }

    /// The most replies that this operation still takes.
    pub open spec fn replies(self) -> nat {
        match self {
            OpView::Resolve { name, goal } => 1 + goal.replies(),
            OpView::Text => 1,
            OpView::Next => 1,
            OpView::Meta { oid, want } => want.replies(),
            OpView::Size { oid, info, fetch } => (fetch_replies(fetch) - 1) as nat,
            OpView::Data { oid, info, reported, fetch } => (fetch_replies(fetch) - 2) as nat,
            OpView::Write { oid, then } => 1 + fetch_replies(then),
        }
    }
}

/// Every operation ends: with each reply the number of replies that it can
/// still take goes down, and it gives the kind of result that it was started
/// for.
pub proof fn lemma_step_progress(op: OpView, reply: Result<AnswerView, IoFailure>)
    ensures
        spec_step(op, reply) matches StepView::Ask { op: next, query } ==> next.replies()
            < op.replies() && next.gives() == op.gives(),
        spec_step(op, reply) matches StepView::Done(Ok(outcome)) ==> outcome.kind() == op.gives(),
{
}

/// The first step of an operation asks, unless the goal is the path itself,
/// and what it waits for gives the kind of result that the goal names.
pub proof fn lemma_begin_progress(goal: GoalView, oid: Seq<i32>)
    ensures
        spec_begin(goal, oid) matches StepView::Ask { op, query } ==> op.replies()
            == goal.replies() && op.gives() == goal.gives(),
        spec_begin(goal, oid) matches StepView::Done(res) ==> goal == GoalView::Oid && res == Ok::<
            OutcomeView,
            ErrorView,
        >(OutcomeView::Oid(oid)),
{
}

/// A control that may not be read is not fetched: when the descriptor that
/// has come lacks the read bit, the operation ends with `NoReadAccess` and
/// puts no further query.
pub proof fn lemma_no_fetch_without_read_access(
    oid: Seq<i32>,
    fetch: Fetch,
    reply: Result<AnswerView, IoFailure>,
)
    requires
        spec_info(reply) matches Ok(info) && !info.readable(),
    ensures
        spec_step(OpView::Meta { oid, want: WantView::Read(fetch) }, reply) == failed(
            ErrorView::NoReadAccess,
        ),
{
}

/// A control that may not be written is not written: when the descriptor that
/// has come lacks the write bit, the operation ends with `NoWriteAccess` and
/// puts no further query.
pub proof fn lemma_no_write_without_write_access(
    oid: Seq<i32>,
    value: ValueView,
    then: Fetch,
    reply: Result<AnswerView, IoFailure>,
)
    requires
        spec_info(reply) matches Ok(info) && !info.writable(),
    ensures
        spec_step(OpView::Meta { oid, want: WantView::Store { value, then } }, reply) == failed(
            ErrorView::NoWriteAccess,
        ),
{
}

/// The value that a write gives back is read from the kernel, not made from
/// what was written: after the kernel has taken the payload, the operation
/// asks for the descriptor again, as a read from the start does.
pub proof fn lemma_write_reads_back(oid: Seq<i32>, then: Fetch, answer: AnswerView)
    ensures
        spec_step(OpView::Write { oid, then }, Ok(answer)) == spec_begin(
            GoalView::Control(WantView::Read(then)),
            oid,
        ),
{
}

/// The kernel is told to fill no more than it reported, into a buffer that
/// is at least as wide as the type, and a reply that is shorter than reported
/// ends the operation with `ShortRead`.
pub proof fn lemma_two_phase_fetch(
    oid: Seq<i32>,
    info: InfoView,
    fetch: Fetch,
    sized: AnswerView,
    fetched: AnswerView,
)
    ensures
        spec_step(OpView::Size { oid, info, fetch }, Ok(sized)) == (StepView::Ask {
            op: OpView::Data { oid, info, reported: sized.len, fetch },
            query: spec_data_query(oid, buffer_size(info, sized.len), sized.len),
        }),
        buffer_size(info, sized.len) >= sized.len,
        buffer_size(info, sized.len) >= info.ctl_type.spec_min_type_size(),
        fetched.len < sized.len ==> spec_step(
            OpView::Data { oid, info, reported: sized.len, fetch },
            Ok(fetched),
        ) == failed(ErrorView::ShortRead { read: fetched.len, reported: sized.len }),
{
}

/// What an operation gives when the kernel answers its queries with
/// `replies`, one after the other: `None` as long as it still waits.
pub open spec fn spec_run(step: StepView, replies: Seq<Result<AnswerView, IoFailure>>) -> Option<
    Result<OutcomeView, ErrorView>,
>
    decreases replies.len(),
{
    match step {
        StepView::Done(res) => Some(res),
        StepView::Ask { op, query } => if replies.len() == 0 {
            None
        } else {
            spec_run(spec_step(op, replies[0]), replies.drop_first())
        },
    }
}

/// An operation is over once it has had as many replies as it can take, and
/// what it gives is of the kind that it was started for.
pub proof fn lemma_run_ends(
    op: OpView,
    query: QueryView,
    replies: Seq<Result<AnswerView, IoFailure>>,
)
    requires
        replies.len() >= op.replies(),
    ensures
        spec_run(StepView::Ask { op, query }, replies) is Some,
        spec_run(StepView::Ask { op, query }, replies) matches Some(Ok(outcome))
            ==> outcome.kind() == op.gives(),
    decreases replies.len(),
{
    assert(op.replies() >= 1);
    lemma_step_progress(op, replies[0]);
    let after = spec_step(op, replies[0]);
    assert(spec_run(StepView::Ask { op, query }, replies) == spec_run(
        after,
        replies.drop_first(),
    ));
    match after {
        StepView::Done(res) => {
            assert(spec_run(after, replies.drop_first()) == Some(res));
        },
        StepView::Ask { op: next, query: then } => {
            lemma_run_ends(next, then, replies.drop_first());
        },
    }
}

/// A read takes three replies, and gives what the payload of the third one
/// holds for the descriptor in the first one: the descriptor must allow the
/// read, and the kernel must hand over as many bytes as it reported.
pub proof fn lemma_read_in_three_replies(
    oid: Seq<i32>,
    described: AnswerView,
    sized: AnswerView,
    fetched: AnswerView,
)
    requires
        spec_info(Ok(described)) is Ok,
    ensures
        spec_run(
            spec_begin(GoalView::Control(WantView::Read(Fetch::Value)), oid),
            seq![Ok(described), Ok(sized), Ok(fetched)],
        ) == Some(
            if !spec_info(Ok(described))->Ok_0.readable() {
                Err(ErrorView::NoReadAccess)
            } else if fetched.len < sized.len {
                Err(ErrorView::ShortRead { read: fetched.len, reported: sized.len })
            } else {
                match spec_decode(spec_info(Ok(described))->Ok_0, fetched.data) {
                    Ok(value) => Ok(OutcomeView::Value(value)),
                    Err(error) => Err(error),
                }
            },
        ),
{
    reveal_with_fuel(spec_run, 5);
    let replies: Seq<Result<AnswerView, IoFailure>> = seq![Ok(described), Ok(sized), Ok(fetched)];
    let second = replies.drop_first();
    let third = second.drop_first();
    assert(replies[0] == Ok::<AnswerView, IoFailure>(described));
    assert(second[0] == Ok::<AnswerView, IoFailure>(sized));
    assert(third[0] == Ok::<AnswerView, IoFailure>(fetched));
}

/// A write takes two replies before it reads: the descriptor decides whether
/// and what is written, and after the kernel has taken the payload the value
/// is read as every value is. What the write gives is what that read gives.
pub proof fn lemma_write_in_two_replies_and_a_read(
    oid: Seq<i32>,
    value: ValueView,
    described: AnswerView,
    written: AnswerView,
    rest: Seq<Result<AnswerView, IoFailure>>,
)
    requires
        spec_info(Ok(described)) is Ok,
    ensures
        spec_run(
            spec_begin(GoalView::Control(WantView::Store { value, then: Fetch::Value }), oid),
            seq![Ok(described), Ok(written)] + rest,
        ) == match spec_encode(spec_info(Ok(described))->Ok_0, value) {
            Err(error) => Some(Err(error)),
            Ok(bytes) => spec_run(
                spec_begin(GoalView::Control(WantView::Read(Fetch::Value)), oid),
                rest,
            ),
        },
{
    reveal_with_fuel(spec_run, 4);
    let replies: Seq<Result<AnswerView, IoFailure>> = seq![Ok(described), Ok(written)] + rest;
    let second = replies.drop_first();
    assert(replies[0] == Ok::<AnswerView, IoFailure>(described));
    assert(second[0] == Ok::<AnswerView, IoFailure>(written));
    assert(second.drop_first() =~= rest);
}

} // verus!
