//! Reading the kernel's answers, and the codec between payloads and values.

use crate::bytes::{
    field, le_bytes, le_uint, lemma_le_bytes_len, lemma_le_uint_of_le_bytes, lemma_radix_values,
    lemma_signed_of_unsigned, put_i32, read_i32, signed, unsigned,
};
use crate::codec::{is_signed, is_unsigned, lemma_raw_number_range, raw_number, read_number};
use crate::consts::{CTLTYPE, CTL_MAXNAME};
use crate::ctl_error::{ErrorView, IoFailure, IoKind, SysctlError};
use crate::ctl_info::{CtlInfo, InfoView};
use crate::ctl_type::CtlType;
use crate::ctl_value::{outcome, CtlValue, ValueView};
use crate::temperature::{spec_temperature, temperature};
use crate::text::{
    spec_text_before_nul, spec_utf8, text_before_nul, text_outcome, utf8_text,
};
use crate::unix::op::{
    begin, spec_begin, Fetch, Goal, GoalView, Op, OpView, Step, StepView, Want, WantView,
};
use crate::unix::raw::{
    copy_path, reply_view, resolve_query, spec_resolve_query, Answer, AnswerView,
};
use vstd::layout::size_of;
use vstd::prelude::*;
use vstd::slice::*;
use vstd::string::*;
use vstd::utf8::*;

verus! {

/// The element of a path that stands at place `index` of a buffer of paths:
/// four bytes, least significant first, as a signed number.
pub open spec fn path_element(data: Seq<u8>, index: int) -> i32 {
    signed(le_uint(data.subrange(4 * index, 4 * index + 4)), 4) as i32
}

/// How many elements the path in a buffer has: as many as the kernel
/// reported, as the buffer holds, and as a path can have.
pub open spec fn path_len(data: Seq<u8>, len: usize) -> nat {
    let reported = len as nat / 4;
    let held = data.len() / 4;
    let most = CTL_MAXNAME as nat;
    if reported <= held && reported <= most {
        reported
    } else if held <= most {
        held
    } else {
        most
    }
}

/// The path that an answer holds.
pub open spec fn spec_path(answer: AnswerView) -> Seq<i32> {
    Seq::new(path_len(answer.data, answer.len), |i: int| path_element(answer.data, i))
}

/// What an operation that gives a path gave, seen through views.
pub open spec fn path_outcome(res: Result<Vec<i32>, SysctlError>) -> Result<Seq<i32>, ErrorView> {
    match res {
        Ok(path) => Ok(path@),
        Err(error) => Err(error@),
    }
}

/// What the reply to the question for the path of `name` means: the path, cut
/// to the length that the kernel reported; that there is no such name; or the
/// failure of the call.
pub open spec fn spec_resolved(name: Seq<char>, reply: Result<AnswerView, IoFailure>) -> Result<
    Seq<i32>,
    ErrorView,
> {
    match reply {
        Ok(answer) => Ok(spec_path(answer)),
        Err(failure) => if failure.kind == IoKind::NotFound {
            Err(ErrorView::NotFound(name))
        } else {
            Err(ErrorView::IoError(failure))
        },
    }
}

/// What the reply to the question for the next path means: the path; that
/// there is none, which is no error; or the failure of the call.
pub open spec fn spec_next(reply: Result<AnswerView, IoFailure>) -> Result<
    Option<Seq<i32>>,
    ErrorView,
> {
    match reply {
        Ok(answer) => Ok(Some(spec_path(answer))),
        Err(failure) => if failure.kind == IoKind::NotFound {
            Ok(None)
        } else {
            Err(ErrorView::IoError(failure))
        },
    }
}

/// What the reply to a question for a name or a description means: the text
/// before the closing NUL byte, or the failure of the call.
pub open spec fn spec_reply_text(reply: Result<AnswerView, IoFailure>) -> Result<
    Seq<char>,
    ErrorView,
> {
    match reply {
        Ok(answer) => spec_text_before_nul(answer.written()),
        Err(failure) => Err(ErrorView::IoError(failure)),
    }
}

/// Whether `place` is where the first NUL byte of `bytes` stands.
pub open spec fn is_first_nul(bytes: Seq<u8>, place: int) -> bool {
    &&& 0 <= place < bytes.len()
    &&& bytes[place] == 0
    &&& forall|j: int| 0 <= j < place ==> bytes[j] != 0
}

/// The place of the first NUL byte of `bytes`, if it has one.
pub open spec fn first_nul(bytes: Seq<u8>) -> Option<int> {
    if exists|place: int| is_first_nul(bytes, place) {
        Some(choose|place: int| is_first_nul(bytes, place))
    } else {
        None
    }
}

/// The part of a descriptor's buffer that holds the format hint: what follows
/// the kind word.
pub open spec fn hint_region(buf: Seq<u8>) -> Seq<u8> {
    if buf.len() >= 4 {
        buf.subrange(4, buf.len() as int)
    } else {
        Seq::<u8>::empty()
    }
}

/// The kind word of a descriptor's buffer: its first four bytes.
pub open spec fn kind_word(buf: Seq<u8>) -> u32 {
    le_uint(field(buf, 4)) as u32
}

/// The descriptor that a buffer holds: the kind word gives the flags, and the
/// type in its low four bits; the format hint follows as text that ends in
/// its only NUL byte.
pub open spec fn spec_descriptor(buf: Seq<u8>) -> Result<InfoView, ErrorView> {
    let region = hint_region(buf);
    match first_nul(region) {
        None => Err(ErrorView::InvalidCStr { interior_nul: None }),
        Some(place) => if place + 1 < region.len() {
            Err(ErrorView::InvalidCStr { interior_nul: Some(place as usize) })
        } else {
            match spec_utf8(region.drop_last()) {
                Ok(fmt) => Ok(
                    InfoView {
                        ctl_type: CtlType::of_number(kind_word(buf) & CTLTYPE),
                        fmt,
                        flags: kind_word(buf),
                    },
                ),
                Err(error) => Err(error),
            }
        },
    }
}

/// What the reply to the question for a descriptor means.
pub open spec fn spec_info(reply: Result<AnswerView, IoFailure>) -> Result<InfoView, ErrorView> {
    match reply {
        Ok(answer) => spec_descriptor(answer.written()),
        Err(failure) => Err(ErrorView::IoError(failure)),
    }
}

/// What an operation that gives a descriptor gave, seen through views.
pub open spec fn info_outcome(res: Result<CtlInfo, SysctlError>) -> Result<InfoView, ErrorView> {
    match res {
        Ok(info) => Ok(info@),
        Err(error) => Err(error@),
    }
}

/// The value of a numeric type that holds the number `raw`.
pub open spec fn number_value(ctl_type: CtlType, raw: int) -> ValueView {
    match ctl_type {
        CtlType::Int => ValueView::Int(raw as i32),
        CtlType::S64 => ValueView::S64(raw as u64),
        CtlType::Uint => ValueView::Uint(raw as u32),
        CtlType::Long => ValueView::Long(raw as i64),
        CtlType::Ulong => ValueView::Ulong(raw as u64),
        CtlType::U64 => ValueView::U64(raw as u64),
        CtlType::U8 => ValueView::U8(raw as u8),
        CtlType::U16 => ValueView::U16(raw as u16),
        CtlType::S8 => ValueView::S8(raw as i8),
        CtlType::S16 => ValueView::S16(raw as i16),
        CtlType::S32 => ValueView::S32(raw as i32),
        CtlType::U32 => ValueView::U32(raw as u32),
        _ => ValueView::Nil,
    }
}

/// The value that a payload holds for a control with the descriptor `info`.
///
/// A control that may not be read has no value. A format hint that names a
/// temperature decides before the type does. Otherwise the type decides: a
/// number is read least significant byte first, text is what stands before
/// the closing NUL byte, a node and a record are the payload as it is, and
/// the other types have no value.
pub open spec fn spec_decode(info: InfoView, bytes: Seq<u8>) -> Result<ValueView, ErrorView> {
    if !info.readable() {
        Err(ErrorView::NoReadAccess)
    } else if info.is_temperature() {
        spec_temperature(info, bytes)
    } else {
        match info.ctl_type {
            CtlType::Node => Ok(ValueView::Node(bytes)),
            CtlType::Struct => Ok(ValueView::Struct(bytes)),
            CtlType::String => match spec_text_before_nul(bytes) {
                Ok(text) => Ok(ValueView::String(text)),
                Err(error) => Err(error),
            },
            CtlType::Nil | CtlType::Temperature => Err(ErrorView::UnknownType),
            _ => match raw_number(info.ctl_type, bytes) {
                Some(raw) => Ok(number_value(info.ctl_type, raw)),
                None => Err(ErrorView::UnknownType),
            },
        }
    }
}

/// The payload that writes `value` to a control with the descriptor `info`.
///
/// A control that may not be written takes no value, and none of another
/// type than its own. An `Int` is written in four bytes, least significant
/// first, and text as its bytes, with no NUL byte behind it. Values of the
/// other types cannot be written.
pub open spec fn spec_encode(info: InfoView, value: ValueView) -> Result<Seq<u8>, ErrorView> {
    if !info.writable() {
        Err(ErrorView::NoWriteAccess)
    } else if value.ctl_type() != info.ctl_type {
        Err(ErrorView::TypeMismatch { given: value.ctl_type(), expected: info.ctl_type })
    } else {
        match value {
            ValueView::Int(v) => Ok(le_bytes(unsigned(v as int, 4), 4)),
            ValueView::String(text) => Ok(encode_utf8(text)),
            _ => Err(ErrorView::MissingImplementation),
        }
    }
}

/// The payload of `value` for a record of `size` bytes: the bytes of a record
/// or of a node, if there are exactly `size` of them.
pub open spec fn spec_payload(value: ValueView, size: usize) -> Result<Seq<u8>, ErrorView> {
    match value {
        ValueView::Struct(bytes) => if bytes.len() == size {
            Ok(bytes)
        } else {
            Err(ErrorView::ExtractionError)
        },
        ValueView::Node(bytes) => if bytes.len() == size {
            Ok(bytes)
        } else {
            Err(ErrorView::ExtractionError)
        },
        _ => Err(ErrorView::ExtractionError),
    }
}

/// What an operation that gives bytes gave, seen through views.
pub open spec fn bytes_outcome(res: Result<Vec<u8>, SysctlError>) -> Result<Seq<u8>, ErrorView> {
    match res {
        Ok(bytes) => Ok(bytes@),
        Err(error) => Err(error@),
    }
}

/// What an operation that may give a path gave, seen through views.
pub open spec fn next_outcome(res: Result<Option<Vec<i32>>, SysctlError>) -> Result<
    Option<Seq<i32>>,
    ErrorView,
> {
    match res {
        Ok(Some(path)) => Ok(Some(path@)),
        Ok(None) => Ok(None),
        Err(error) => Err(error@),
    }
}

/// The bytes of `answer` that the kernel wrote.
pub fn written(answer: &Answer) -> (res: Vec<u8>)
    ensures
        res@ == answer@.written(),
{
    if answer.len <= answer.data.len() {
        slice_to_vec(slice_subrange(answer.data.as_slice(), 0, answer.len))
    } else {
        slice_to_vec(answer.data.as_slice())
    }
}

/// Reads the path that an answer holds.
pub fn read_path(answer: &Answer) -> (res: Vec<i32>)
    ensures
        res@ == spec_path(answer@),
        res@.len() <= CTL_MAXNAME,
{
    let mut count: usize = answer.len / 4;
    if answer.data.len() / 4 < count {
        count = answer.data.len() / 4;
    }
    if count > CTL_MAXNAME as usize {
        count = CTL_MAXNAME as usize;
    }
    assert(count == path_len(answer@.data, answer@.len));
    let mut out: Vec<i32> = Vec::new();
    let mut i: usize = 0;
    while i < count
        invariant
            i <= count,
            count <= CTL_MAXNAME,
            count <= answer.data@.len() / 4,
            out@.len() == i,
            forall|k: int| 0 <= k < i ==> out@[k] == path_element(answer.data@, k),
        decreases count - i,
    {
        let word = slice_subrange(answer.data.as_slice(), 4 * i, 4 * i + 4);
        assert(word@.subrange(0, 4) =~= answer.data@.subrange(4 * i, 4 * i + 4));
        out.push(read_i32(word));
        i = i + 1;
    }
    assert(out@ =~= spec_path(answer@));
    out
}

/// Reads the reply to the question for the path of `name`.
pub fn parse_oid(name: &str, reply: Result<Answer, IoFailure>) -> (res: Result<
    Vec<i32>,
    SysctlError,
>)
    ensures
        path_outcome(res) == spec_resolved(name@, reply_view(reply)),
        res matches Ok(path) ==> path@.len() <= CTL_MAXNAME,
{
    match reply {
        Ok(answer) => Ok(read_path(&answer)),
        Err(failure) => match failure.kind {
            IoKind::NotFound => Err(SysctlError::NotFound(name.to_owned())),
            _ => Err(SysctlError::IoError(failure)),
        },
    }
}

/// Reads the reply to the question for the next path.
pub fn parse_next(reply: Result<Answer, IoFailure>) -> (res: Result<Option<Vec<i32>>, SysctlError>)
    ensures
        next_outcome(res) == spec_next(reply_view(reply)),
        res matches Ok(Some(path)) ==> path@.len() <= CTL_MAXNAME,
{
    match reply {
        Ok(answer) => Ok(Some(read_path(&answer))),
        Err(failure) => match failure.kind {
            IoKind::NotFound => Ok(None),
            _ => Err(SysctlError::IoError(failure)),
        },
    }
}

/// Reads the reply to a question for a name or a description.
pub fn parse_text(reply: Result<Answer, IoFailure>) -> (res: Result<String, SysctlError>)
    ensures
        text_outcome(res) == spec_reply_text(reply_view(reply)),
{
    match reply {
        Ok(answer) => {
            let bytes = written(&answer);
            text_before_nul(&bytes)
        },
        Err(failure) => Err(SysctlError::IoError(failure)),
    }
}

/// Looks for the first NUL byte of `bytes`.
pub fn find_nul(bytes: &[u8]) -> (res: Option<usize>)
    ensures
        match res {
            Some(place) => first_nul(bytes@) == Some(place as int),
            None => first_nul(bytes@) is None,
        },
{
    let mut i: usize = 0;
    while i < bytes.len()
        invariant
            i <= bytes@.len(),
            forall|j: int| 0 <= j < i ==> bytes@[j] != 0,
        decreases bytes@.len() - i,
    {
        if bytes[i] == 0 {
            proof {
                assert(is_first_nul(bytes@, i as int));
                let chosen = choose|place: int| is_first_nul(bytes@, place);
                assert(is_first_nul(bytes@, chosen));
                if chosen < i {
                    assert(bytes@[chosen] != 0);
                }
                if i < chosen {
                    assert(bytes@[i as int] != 0);
                }
            }
            return Some(i);
        }
        i = i + 1;
    }
    proof {
        assert forall|place: int| !is_first_nul(bytes@, place) by {
            if 0 <= place < bytes@.len() {
                assert(bytes@[place] != 0);
            }
        }
    }
    None
}

/// Reads the descriptor that a buffer holds.
pub fn parse_descriptor(buf: &Vec<u8>) -> (res: Result<CtlInfo, SysctlError>)
    ensures
        info_outcome(res) == spec_descriptor(buf@),
        res matches Ok(info) ==> info.ctl_type != CtlType::Temperature,
{
    let kind: u32 = crate::bytes::get_u32(buf);
    let start: usize = if buf.len() >= 4 {
        4
    } else {
        buf.len()
    };
    let region = slice_subrange(buf.as_slice(), start, buf.len());
    assert(region@ =~= hint_region(buf@));
    match find_nul(region) {
        None => Err(SysctlError::InvalidCStr { interior_nul: None }),
        Some(place) => {
            if place + 1 < region.len() {
                Err(SysctlError::InvalidCStr { interior_nul: Some(place) })
            } else {
                let body = slice_subrange(region, 0, region.len() - 1);
                assert(body@ =~= region@.drop_last());
                match utf8_text(body) {
                    Ok(fmt) => Ok(CtlInfo { ctl_type: CtlType::from_kind(kind), fmt, flags: kind }),
                    Err(error) => Err(error),
                }
            }
        },
    }
}

/// Reads the reply to the question for a descriptor.
pub fn parse_info(reply: Result<Answer, IoFailure>) -> (res: Result<CtlInfo, SysctlError>)
    ensures
        info_outcome(res) == spec_info(reply_view(reply)),
        res matches Ok(info) ==> info.ctl_type != CtlType::Temperature,
{
    match reply {
        Ok(answer) => {
            let buf = written(&answer);
            parse_descriptor(&buf)
        },
        Err(failure) => Err(SysctlError::IoError(failure)),
    }
}

/// The value of the numeric type `ctl_type` that holds the number `raw`.
fn number_to_value(ctl_type: CtlType, raw: i128, Ghost(bytes): Ghost<Seq<u8>>) -> (res: CtlValue)
    requires
        raw_number(ctl_type, bytes) == Some(raw as int),
    ensures
        res@ == number_value(ctl_type, raw as int),
{
    proof {
        lemma_raw_number_range(ctl_type, bytes);
        lemma_radix_values();
    }
    match ctl_type {
        CtlType::Int => CtlValue::Int(raw as i32),
        CtlType::S64 => CtlValue::S64(raw as u64),
        CtlType::Uint => CtlValue::Uint(raw as u32),
        CtlType::Long => CtlValue::Long(raw as i64),
        CtlType::Ulong => CtlValue::Ulong(raw as u64),
        CtlType::U64 => CtlValue::U64(raw as u64),
        CtlType::U8 => CtlValue::U8(raw as u8),
        CtlType::U16 => CtlValue::U16(raw as u16),
        CtlType::S8 => CtlValue::S8(raw as i8),
        CtlType::S16 => CtlValue::S16(raw as i16),
        CtlType::S32 => CtlValue::S32(raw as i32),
        CtlType::U32 => CtlValue::U32(raw as u32),
        _ => CtlValue::Nil,
    }
}

/// Decodes the payload `data` of a control with the descriptor `info`.
pub fn decode(info: &CtlInfo, data: Vec<u8>) -> (res: Result<CtlValue, SysctlError>)
    ensures
        outcome(res) == spec_decode(info@, data@),
{
    if !info.is_readable() {
        return Err(SysctlError::NoReadAccess);
    }
    if info.is_temperature() {
        return temperature(info, &data);
    }
    match info.ctl_type {
        CtlType::Node => Ok(CtlValue::Node(data)),
        CtlType::Struct => Ok(CtlValue::Struct(data)),
        CtlType::String => match text_before_nul(&data) {
            Ok(text) => Ok(CtlValue::String(text)),
            Err(error) => Err(error),
        },
        CtlType::Nil => Err(SysctlError::UnknownType),
        CtlType::Temperature => Err(SysctlError::UnknownType),
        _ => match read_number(info.ctl_type, &data) {
            Some(raw) => Ok(number_to_value(info.ctl_type, raw, Ghost(data@))),
            None => Err(SysctlError::UnknownType),
        },
    }
}

/// Encodes `value` as the payload that writes it to a control with the
/// descriptor `info`.
pub fn encode(info: &CtlInfo, value: &CtlValue) -> (res: Result<Vec<u8>, SysctlError>)
    ensures
        bytes_outcome(res) == spec_encode(info@, value@),
{
    if !info.is_writable() {
        return Err(SysctlError::NoWriteAccess);
    }
    let given = value.ctl_type();
    if given != info.ctl_type {
        return Err(SysctlError::TypeMismatch { given, expected: info.ctl_type });
    }
    match value {
        CtlValue::Int(v) => Ok(put_i32(*v)),
        CtlValue::String(text) => Ok(text.as_str().as_bytes_vec()),
        _ => Err(SysctlError::MissingImplementation),
    }
}

/// Takes the payload out of `value`, to be read as a record of `size` bytes.
/// Only the length is checked: that the bytes are laid out as the record is
/// remains for the caller to see to.
pub fn payload(value: CtlValue, size: usize) -> (res: Result<Vec<u8>, SysctlError>)
    ensures
        bytes_outcome(res) == spec_payload(value@, size),
{
    match value {
        CtlValue::Struct(bytes) => if bytes.len() == size {
            Ok(bytes)
        } else {
            Err(SysctlError::ExtractionError)
        },
        CtlValue::Node(bytes) => if bytes.len() == size {
            Ok(bytes)
        } else {
            Err(SysctlError::ExtractionError)
        },
        _ => Err(SysctlError::ExtractionError),
    }
}

/// Writing an `Int` and reading the payload back gives the number that was
/// written, for a control of that type that may be read and written and
/// whose format hint names no temperature.
pub proof fn lemma_round_trip_int(info: InfoView, v: i32)
    requires
        info.ctl_type == CtlType::Int,
        info.readable(),
        info.writable(),
        !info.is_temperature(),
    ensures
        spec_encode(info, ValueView::Int(v)) is Ok,
        spec_decode(info, spec_encode(info, ValueView::Int(v))->Ok_0) == Ok::<
            ValueView,
            ErrorView,
        >(ValueView::Int(v)),
{
    lemma_radix_values();
    let number = unsigned(v as int, 4);
    let bytes = le_bytes(number, 4);
    lemma_signed_of_unsigned(v as int, 4);
    lemma_le_bytes_len(number, 4);
    lemma_le_uint_of_le_bytes(number, 4);
    assert(field(bytes, 4) =~= bytes);
}

/// Text that was written is read back once the kernel has put its NUL byte
/// behind it: the payload of a text value holds no NUL byte of its own.
pub proof fn lemma_round_trip_text(info: InfoView, text: Seq<char>)
    requires
        info.ctl_type == CtlType::String,
        info.readable(),
        info.writable(),
        !info.is_temperature(),
    ensures
        spec_encode(info, ValueView::String(text)) == Ok::<Seq<u8>, ErrorView>(encode_utf8(text)),
        spec_decode(info, encode_utf8(text).push(0u8)) == Ok::<ValueView, ErrorView>(
            ValueView::String(text),
        ),
{
    let bytes = encode_utf8(text);
    assert(bytes.push(0u8).drop_last() =~= bytes);
    encode_utf8_valid_utf8(text);
    encode_utf8_decode_utf8(text);
}

/// A payload that is shorter than the control's type is wide is read as if
/// zero bytes followed it, and gives the number that its bytes spell.
pub proof fn lemma_decode_short_payload(info: InfoView, bytes: Seq<u8>)
    requires
        bytes.len() <= info.ctl_type.spec_min_type_size(),
    ensures
        spec_decode(info, bytes) == spec_decode(
            info,
            crate::bytes::padded(bytes, info.ctl_type.spec_min_type_size()),
        ),
        info.readable() && !info.is_temperature() && is_unsigned(info.ctl_type) ==> spec_decode(
            info,
            bytes,
        ) == Ok::<ValueView, ErrorView>(number_value(info.ctl_type, le_uint(bytes) as int)),
        info.readable() && !info.is_temperature() && is_signed(info.ctl_type) ==> spec_decode(
            info,
            bytes,
        ) == Ok::<ValueView, ErrorView>(
            number_value(
                info.ctl_type,
                signed(le_uint(bytes), info.ctl_type.spec_min_type_size()),
            ),
        ),
{
    crate::codec::lemma_short_payload(info.ctl_type, bytes);
    if info.ctl_type.spec_min_type_size() == 0 {
        assert(crate::bytes::padded(bytes, 0) =~= bytes);
    }
}

/// A control that may not be read is never decoded, whatever the payload, and
/// one that may not be written takes no value, whatever the value.
pub proof fn lemma_access_flags(info: InfoView, bytes: Seq<u8>, value: ValueView)
    ensures
        !info.readable() ==> spec_decode(info, bytes) == Err::<ValueView, ErrorView>(
            ErrorView::NoReadAccess,
        ),
        !info.writable() ==> spec_encode(info, value) == Err::<Seq<u8>, ErrorView>(
            ErrorView::NoWriteAccess,
        ),
{
}

/// A payload is handed out for a record only if it has the record's size:
/// with any other length, and for any value that is neither a record nor a
/// node, the answer is `ExtractionError`.
pub proof fn lemma_payload_size(value: ValueView, size: usize)
    ensures
        spec_payload(value, size) matches Ok(bytes) ==> bytes.len() == size && (value
            == ValueView::Struct(bytes) || value == ValueView::Node(bytes)),
        spec_payload(value, size) matches Err(error) ==> error == ErrorView::ExtractionError,
        (value matches ValueView::Struct(bytes) && bytes.len() != size) ==> spec_payload(
            value,
            size,
        ) is Err,
        (value matches ValueView::Node(bytes) && bytes.len() != size) ==> spec_payload(
            value,
            size,
        ) is Err,
{
}

/// The first step of an operation that starts from a name: the kernel is
/// asked for the path of `name`, and the operation goes on towards `goal` once
/// the path is here.
pub open spec fn spec_by_name(name: Seq<char>, goal: GoalView) -> StepView {
    StepView::Ask { op: OpView::Resolve { name, goal }, query: spec_resolve_query(name) }
}

/// Starts an operation from a name.
fn by_name(name: &str, goal: Goal) -> (res: Step)
    ensures
        res@ == spec_by_name(name@, goal@),
{
    Step::Ask { op: Op::Resolve { name: name.to_owned(), goal }, query: resolve_query(name) }
}

/// Starts to look up the path of the control named `name`.
pub fn name2oid(name: &str) -> (res: Step)
    ensures
        res@ == spec_by_name(name@, GoalView::Oid),
{
    by_name(name, Goal::Oid)
}

/// Starts to fetch the descriptor of the control at `oid`.
pub fn oidfmt(oid: &Vec<i32>) -> (res: Step)
    ensures
        res@ == spec_begin(GoalView::Control(WantView::Info), oid@),
{
    begin(Goal::Control(Want::Info), copy_path(oid))
}

/// Starts to read the value of the control named `name`.
pub fn value(name: &str) -> (res: Step)
    ensures
        res@ == spec_by_name(name@, GoalView::Control(WantView::Read(Fetch::Value))),
{
    by_name(name, Goal::Control(Want::Read(Fetch::Value)))
}

/// Starts to read the value of the control at `oid`.
pub fn value_oid(oid: &Vec<i32>) -> (res: Step)
    ensures
        res@ == spec_begin(GoalView::Control(WantView::Read(Fetch::Value)), oid@),
{
    begin(Goal::Control(Want::Read(Fetch::Value)), copy_path(oid))
}

/// Starts to read the control named `name` as a record of type `T`. The
/// operation gives the payload, if it is as long as a `T`; to take the bytes
/// for a `T` is left to the caller.
pub fn value_as<T>(name: &str) -> (res: Step)
    ensures
        res@ == spec_by_name(
            name@,
            GoalView::Control(WantView::Read(Fetch::Payload { size: size_of::<T>() as usize })),
        ),
{
    by_name(name, Goal::Control(Want::Read(Fetch::Payload { size: core::mem::size_of::<T>() })))
}

/// Starts to read the control at `oid` as a record of type `T`. The
/// operation gives the payload, if it is as long as a `T`; to take the bytes
/// for a `T` is left to the caller.
pub fn value_oid_as<T>(oid: &Vec<i32>) -> (res: Step)
    ensures
        res@ == spec_begin(
            GoalView::Control(WantView::Read(Fetch::Payload { size: size_of::<T>() as usize })),
            oid@,
        ),
{
    begin(
        Goal::Control(Want::Read(Fetch::Payload { size: core::mem::size_of::<T>() })),
        copy_path(oid),
    )
}

/// Starts to write `value` to the control named `name`. The operation gives
/// the value that the control holds afterwards.
pub fn set_value(name: &str, value: CtlValue) -> (res: Step)
    ensures
        res@ == spec_by_name(
            name@,
            GoalView::Control(WantView::Store { value: value@, then: Fetch::Value }),
        ),
{
    by_name(name, Goal::Control(Want::Store { value, then: Fetch::Value }))
}

/// Starts to write `value` to the control at `oid`. The operation gives the
/// value that the control holds afterwards.
pub fn set_oid_value(oid: &Vec<i32>, value: CtlValue) -> (res: Step)
    ensures
        res@ == spec_begin(
            GoalView::Control(WantView::Store { value: value@, then: Fetch::Value }),
            oid@,
        ),
{
    begin(Goal::Control(Want::Store { value, then: Fetch::Value }), copy_path(oid))
}

/// Starts to fetch the description of the control named `name`.
pub fn description(name: &str) -> (res: Step)
    ensures
        res@ == spec_by_name(name@, GoalView::Description),
{
    by_name(name, Goal::Description)
}

/// Starts to fetch the description of the control at `oid`.
pub fn oid2description(oid: &Vec<i32>) -> (res: Step)
    ensures
        res@ == spec_begin(GoalView::Description, oid@),
{
    begin(Goal::Description, copy_path(oid))
}

/// Starts to fetch the name of the control at `oid`.
pub fn oid2name(oid: &Vec<i32>) -> (res: Step)
    ensures
        res@ == spec_begin(GoalView::Name, oid@),
{
    begin(Goal::Name, copy_path(oid))
}

/// Starts to ask for the path that follows `oid` in the kernel's order.
pub fn next_oid(oid: &Vec<i32>) -> (res: Step)
    ensures
        res@ == spec_begin(GoalView::Next, oid@),
{
    begin(Goal::Next, copy_path(oid))
}

} // verus!
