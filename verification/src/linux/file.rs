//! Operations on the files of controls, each as a machine.

use crate::consts::{CtlFlags, CTLFLAG_ALL, CTLFLAG_RD, CTLFLAG_RW};
use crate::ctl_error::{ErrorView, IoFailure, IoKind, SysctlError};
use crate::ctl_info::{CtlInfo, InfoView};
use crate::ctl_type::CtlType;
use crate::ctl_value::{CtlValue, ValueView};
use crate::text::{trim, trimmed};
use vstd::prelude::*;
use vstd::string::*;
use vstd::utf8::*;

verus! {

/// What is to be done with a file.
#[derive(Debug, Clone, PartialEq, Eq)]
pub enum Access {
    /// Read all of it as text.
    Read,
    /// Open it for writing and write these bytes.
    Write(Vec<u8>),
    /// Look at what it is.
    Stat,
}

/// What is to be done with a file, seen through views.
pub enum AccessView {
    Read,
    Write(Seq<u8>),
    Stat,
}

impl View for Access {
    type V = AccessView;

    open spec fn view(&self) -> AccessView {
        match self {
            Access::Read => AccessView::Read,
            Access::Write(bytes) => AccessView::Write(bytes@),
            Access::Stat => AccessView::Stat,
        }
    }
}

/// One request to the file system.
#[derive(Debug, Clone, PartialEq, Eq)]
pub struct Query {
    pub path: String,
    pub access: Access,
}

/// A request, seen through views.
pub struct QueryView {
    pub path: Seq<char>,
    pub access: AccessView,
}

impl View for Query {
    type V = QueryView;

    open spec fn view(&self) -> QueryView {
        QueryView { path: self.path@, access: self.access@ }
    }
}

/// What came of a request that the file system took.
#[derive(Debug, Clone, PartialEq, Eq)]
pub struct Answer {
    /// What was read; empty after another request.
    pub content: String,
    /// Whether the file is a directory.
    pub is_dir: bool,
    /// Whether the file cannot be written.
    pub readonly: bool,
}

/// An answer, seen through views.
pub struct AnswerView {
    pub content: Seq<char>,
    pub is_dir: bool,
    pub readonly: bool,
}

impl View for Answer {
    type V = AnswerView;

    open spec fn view(&self) -> AnswerView {
        AnswerView { content: self.content@, is_dir: self.is_dir, readonly: self.readonly }
    }
}

/// The file system's reply to a request, seen through the view of the answer.
pub open spec fn reply_view(reply: Result<Answer, IoFailure>) -> Result<AnswerView, IoFailure> {
    match reply {
        Ok(answer) => Ok(answer@),
        Err(failure) => Err(failure),
    }
}

/// What a read is to give.
#[derive(Debug, Copy, Clone, PartialEq, Eq, Structural)]
pub enum Fetch {
    /// The value.
    Value,
    /// The value as text.
    Text,
    /// Nothing yet: once the value has been read, it is read once more, as
    /// text.
    Reread,
}

/// What a look at a file is to give.
#[derive(Debug, Copy, Clone, PartialEq, Eq, Structural)]
pub enum Probe {
    /// The type of the control.
    Type,
    /// The descriptor of the control.
    Info,
    /// The access flags of the control.
    Flags,
}

/// An operation that waits for a reply.
#[derive(Debug, Clone, PartialEq, Eq)]
pub enum Op {
    /// Asked for the content of the file at `path`.
    Read { path: String, fetch: Fetch },
    /// Asked what a file is.
    Stat { probe: Probe },
    /// Opened the file at `path` for writing; `text` says whether a value
    /// was written.
    Write { path: String, text: bool, then: Fetch },
}

/// An operation, seen through views.
pub enum OpView {
    Read { path: Seq<char>, fetch: Fetch },
    Stat { probe: Probe },
    Write { path: Seq<char>, text: bool, then: Fetch },
}

impl View for Op {
    type V = OpView;

    open spec fn view(&self) -> OpView {
        match self {
            Op::Read { path, fetch } => OpView::Read { path: path@, fetch: *fetch },
            Op::Stat { probe } => OpView::Stat { probe: *probe },
            Op::Write { path, text, then } => OpView::Write {
                path: path@,
                text: *text,
                then: *then,
            },
        }
    }
}

/// What an operation gave.
#[derive(Debug, Clone, PartialEq)]
pub enum Outcome {
    Value(CtlValue),
    Text(String),
    Type(CtlType),
    Info(CtlInfo),
    Flags(CtlFlags),
}

/// What an operation gave, seen through views.
pub enum OutcomeView {
    Value(ValueView),
    Text(Seq<char>),
    Type(CtlType),
    Info(InfoView),
    Flags(CtlFlags),
}

impl View for Outcome {
    type V = OutcomeView;

    open spec fn view(&self) -> OutcomeView {
        match self {
            Outcome::Value(value) => OutcomeView::Value(value@),
            Outcome::Text(text) => OutcomeView::Text(text@),
            Outcome::Type(ctl_type) => OutcomeView::Type(*ctl_type),
            Outcome::Info(info) => OutcomeView::Info(info@),
            Outcome::Flags(flags) => OutcomeView::Flags(*flags),
        }
    }
}

/// What comes next in an operation.
#[derive(Debug, PartialEq)]
pub enum Step {
    /// Put `query` to the file system, and hand its reply to `op`.
    Ask { op: Op, query: Query },
    /// The operation is over.
    Done(Result<Outcome, SysctlError>),
}

/// A step, seen through views.
pub enum StepView {
    Ask { op: OpView, query: QueryView },
    Done(Result<OutcomeView, ErrorView>),
}

impl View for Step {
    type V = StepView;

    open spec fn view(&self) -> StepView {
        match self {
            Step::Ask { op, query } => StepView::Ask { op: op@, query: query@ },
            Step::Done(Ok(outcome)) => StepView::Done(Ok(outcome@)),
            Step::Done(Err(error)) => StepView::Done(Err(error@)),
        }
    }
}

/// The step that ends an operation with `error`.
pub open spec fn failed(error: ErrorView) -> StepView {
    StepView::Done(Err(error))
}

/// The step that ends an operation with `outcome`.
pub open spec fn gave(outcome: OutcomeView) -> StepView {
    StepView::Done(Ok(outcome))
}

/// The error for a file that could not be opened: that there is no such
/// control, where the file does not exist, and the failure itself otherwise.
pub open spec fn open_error(path: Seq<char>, failure: IoFailure) -> ErrorView {
    if failure.kind == IoKind::NotFound {
        ErrorView::NotFound(path)
    } else {
        ErrorView::IoError(failure)
    }
}

/// The failure that says that a value cannot be written as it is.
pub open spec fn invalid_data() -> IoFailure {
    IoFailure { kind: IoKind::InvalidData, code: None }
}

/// The step that asks for the content of the file at `path`.
pub open spec fn spec_read_file(path: Seq<char>, fetch: Fetch) -> StepView {
    StepView::Ask {
        op: OpView::Read { path, fetch },
        query: QueryView { path, access: AccessView::Read },
    }
}

/// The step that asks what the file at `path` is.
pub open spec fn spec_stat_file(path: Seq<char>, probe: Probe) -> StepView {
    StepView::Ask { op: OpView::Stat { probe }, query: QueryView { path, access: AccessView::Stat } }
}

/// The step that opens the file at `path` to write `value`. Text is written
/// as its bytes. For any other value the file is opened and nothing is
/// written to it.
pub open spec fn spec_write_file(path: Seq<char>, value: ValueView, then: Fetch) -> StepView {
    match value {
        ValueView::String(text) => StepView::Ask {
            op: OpView::Write { path, text: true, then },
            query: QueryView { path, access: AccessView::Write(encode_utf8(text)) },
        },
        _ => StepView::Ask {
            op: OpView::Write { path, text: false, then },
            query: QueryView { path, access: AccessView::Write(Seq::<u8>::empty()) },
        },
    }
}

/// The descriptor of a control that is a file: its value is text, it has no
/// format hint, and it can be read, and written unless the file is read-only.
pub open spec fn spec_file_info(readonly: bool) -> InfoView {
    InfoView {
        ctl_type: CtlType::String,
        fmt: Seq::<char>::empty(),
        flags: if readonly {
            CTLFLAG_RD
        } else {
            CTLFLAG_RW
        },
    }
}

/// What a look at a file gives.
pub open spec fn spec_probed(probe: Probe, answer: AnswerView) -> OutcomeView {
    match probe {
        Probe::Type => OutcomeView::Type(
            if answer.is_dir {
                CtlType::Node
            } else {
                CtlType::String
            },
        ),
        Probe::Info => OutcomeView::Info(spec_file_info(answer.readonly)),
        Probe::Flags => OutcomeView::Flags(
            CtlFlags { bits: spec_file_info(answer.readonly).flags & CTLFLAG_ALL },
        ),
    }
}

/// What the operation `op` does with `reply`.
pub open spec fn spec_step(op: OpView, reply: Result<AnswerView, IoFailure>) -> StepView {
    match op {
        OpView::Read { path, fetch } => match reply {
            Err(failure) => failed(open_error(path, failure)),
            Ok(answer) => match fetch {
                Fetch::Value => gave(OutcomeView::Value(ValueView::String(trimmed(answer.content)))),
                Fetch::Text => gave(OutcomeView::Text(trimmed(answer.content))),
                Fetch::Reread => spec_read_file(path, Fetch::Text),
            },
        },
        OpView::Stat { probe } => match reply {
            Err(failure) => failed(ErrorView::IoError(failure)),
            Ok(answer) => gave(spec_probed(probe, answer)),
        },
        OpView::Write { path, text, then } => match reply {
            Err(failure) => failed(open_error(path, failure)),
            Ok(answer) => if text {
                spec_read_file(path, then)
            } else {
                failed(ErrorView::IoError(invalid_data()))
            },
        },
    }
}

/// Starts to read the file at `path`.
pub fn read_file(path: String, fetch: Fetch) -> (res: Step)
    ensures
        res@ == spec_read_file(path@, fetch),
{
    let query = Query { path: path.clone(), access: Access::Read };
    Step::Ask { op: Op::Read { path, fetch }, query }
}

/// Starts to look at the file at `path`.
pub fn stat_file(path: String, probe: Probe) -> (res: Step)
    ensures
        res@ == spec_stat_file(path@, probe),
{
    Step::Ask { op: Op::Stat { probe }, query: Query { path, access: Access::Stat } }
}

/// Starts to write `value` to the file at `path`.
pub fn write_file(path: String, value: CtlValue, then: Fetch) -> (res: Step)
    ensures
        res@ == spec_write_file(path@, value@, then),
{
    match value {
        CtlValue::String(text) => {
            let query = Query {
                path: path.clone(),
                access: Access::Write(text.as_str().as_bytes_vec()),
            };
            Step::Ask { op: Op::Write { path, text: true, then }, query }
        },
        _ => {
            let query = Query { path: path.clone(), access: Access::Write(Vec::new()) };
            Step::Ask { op: Op::Write { path, text: false, then }, query }
        },
    }
}

/// The error for a file that could not be opened.
fn error_of_open(path: String, failure: IoFailure) -> (res: SysctlError)
    ensures
        res@ == open_error(path@, failure),
{
    match failure.kind {
        IoKind::NotFound => SysctlError::NotFound(path),
        _ => SysctlError::IoError(failure),
    }
}

/// The descriptor of a control that is a file.
pub fn file_info(readonly: bool) -> (res: CtlInfo)
    ensures
        res@ == spec_file_info(readonly),
{
    let flags: u32 = if readonly {
        CTLFLAG_RD
    } else {
        CTLFLAG_RW
    };
    CtlInfo { ctl_type: CtlType::String, fmt: String::new(), flags }
}

impl Op {
    /// Takes the file system's reply to the request that was put last, and
    /// says what comes next.
    pub fn step(self, reply: Result<Answer, IoFailure>) -> (res: Step)
        ensures
            res@ == spec_step(self@, reply_view(reply)),
    {
        match self {
            Op::Read { path, fetch } => match reply {
                Err(failure) => Step::Done(Err(error_of_open(path, failure))),
                Ok(answer) => match fetch {
                    Fetch::Value => Step::Done(
                        Ok(Outcome::Value(CtlValue::String(trim(answer.content.as_str())))),
                    ),
                    Fetch::Text => Step::Done(Ok(Outcome::Text(trim(answer.content.as_str())))),
                    Fetch::Reread => read_file(path, Fetch::Text),
                },
            },
            Op::Stat { probe } => match reply {
                Err(failure) => Step::Done(Err(SysctlError::IoError(failure))),
                Ok(answer) => match probe {
                    Probe::Type => Step::Done(
                        Ok(
                            Outcome::Type(
                                if answer.is_dir {
                                    CtlType::Node
                                } else {
                                    CtlType::String
                                },
                            ),
                        ),
                    ),
                    Probe::Info => Step::Done(Ok(Outcome::Info(file_info(answer.readonly)))),
                    Probe::Flags => Step::Done(
                        Ok(Outcome::Flags(file_info(answer.readonly).flags())),
                    ),
                },
            },
            Op::Write { path, text, then } => match reply {
                Err(failure) => Step::Done(Err(error_of_open(path, failure))),
                Ok(_) => if text {
                    read_file(path, then)
                } else {
                    Step::Done(
                        Err(
                            SysctlError::IoError(
                                IoFailure { kind: IoKind::InvalidData, code: None },
                            ),
                        ),
                    )
                },
            },
        }
    }
}

/// The most replies that a read takes.
pub open spec fn fetch_replies(fetch: Fetch) -> nat {
    match fetch {
        Fetch::Reread => 2,
        _ => 1,
    }
}

impl OpView {
    /// The most replies that this operation still takes.
    pub open spec fn replies(self) -> nat {
        match self {
            OpView::Read { path, fetch } => fetch_replies(fetch),
            OpView::Stat { probe } => 1,
            OpView::Write { path, text, then } => 1 + fetch_replies(then),
        }
    }
}

/// Every operation ends: with each reply the number of replies that it can
/// still take goes down.
pub proof fn lemma_step_progress(op: OpView, reply: Result<AnswerView, IoFailure>)
    ensures
        spec_step(op, reply) matches StepView::Ask { op: next, query } ==> next.replies()
            < op.replies(),
{
}

/// A value that is no text is never written: the operation ends with a
/// failure once the file has been opened, and reads nothing back.
pub proof fn lemma_only_text_is_written(
    path: Seq<char>,
    value: ValueView,
    then: Fetch,
    answer: AnswerView,
)
    requires
        !(value is String),
    ensures
        spec_write_file(path, value, then) matches StepView::Ask { op, query } && query.access
            == AccessView::Write(Seq::<u8>::empty()) && spec_step(op, Ok(answer)) == failed(
            ErrorView::IoError(invalid_data()),
        ),
{
}

} // verus!
