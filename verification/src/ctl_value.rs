//! The value of a control.

use crate::ctl_error::{ErrorView, SysctlError};
use crate::ctl_type::CtlType;
use crate::temperature::{degrees_text, Temperature};
use crate::text::{decimal, format_int};
use vstd::prelude::*;
use vstd::string::*;

verus! {

/// A value that a control holds, by its type.
#[derive(Debug, Clone, PartialEq, PartialOrd)]
pub enum CtlValue {
    Nil,
    Node(Vec<u8>),
    Int(i32),
    String(String),
    S64(u64),
    Struct(Vec<u8>),
    Uint(u32),
    Long(i64),
    Ulong(u64),
    U64(u64),
    U8(u8),
    U16(u16),
    S8(i8),
    S16(i16),
    S32(i32),
    U32(u32),
    Temperature(Temperature),
}

/// A value, with its bytes and its text as sequences.
pub enum ValueView {
    Nil,
    Node(Seq<u8>),
    Int(i32),
    String(Seq<char>),
    S64(u64),
    Struct(Seq<u8>),
    Uint(u32),
    Long(i64),
    Ulong(u64),
    U64(u64),
    U8(u8),
    U16(u16),
    S8(i8),
    S16(i16),
    S32(i32),
    U32(u32),
    Temperature(Temperature),
}

impl View for CtlValue {
    type V = ValueView;

    open spec fn view(&self) -> ValueView {
        match self {
            CtlValue::Nil => ValueView::Nil,
            CtlValue::Node(bytes) => ValueView::Node(bytes@),
            CtlValue::Int(v) => ValueView::Int(*v),
            CtlValue::String(text) => ValueView::String(text@),
            CtlValue::S64(v) => ValueView::S64(*v),
            CtlValue::Struct(bytes) => ValueView::Struct(bytes@),
            CtlValue::Uint(v) => ValueView::Uint(*v),
            CtlValue::Long(v) => ValueView::Long(*v),
            CtlValue::Ulong(v) => ValueView::Ulong(*v),
            CtlValue::U64(v) => ValueView::U64(*v),
            CtlValue::U8(v) => ValueView::U8(*v),
            CtlValue::U16(v) => ValueView::U16(*v),
            CtlValue::S8(v) => ValueView::S8(*v),
            CtlValue::S16(v) => ValueView::S16(*v),
            CtlValue::S32(v) => ValueView::S32(*v),
            CtlValue::U32(v) => ValueView::U32(*v),
            CtlValue::Temperature(t) => ValueView::Temperature(*t),
        }
    }
}

/// What an operation gave, seen through the views of the value and the error.
pub open spec fn outcome(res: Result<CtlValue, SysctlError>) -> Result<ValueView, ErrorView> {
    match res {
        Ok(value) => Ok(value@),
        Err(error) => Err(error@),
    }
}

impl ValueView {
    /// The type of this value.
    pub open spec fn ctl_type(self) -> CtlType {
        match self {
            ValueView::Nil => CtlType::Nil,
            ValueView::Node(_) => CtlType::Node,
            ValueView::Int(_) => CtlType::Int,
            ValueView::String(_) => CtlType::String,
            ValueView::S64(_) => CtlType::S64,
            ValueView::Struct(_) => CtlType::Struct,
            ValueView::Uint(_) => CtlType::Uint,
            ValueView::Long(_) => CtlType::Long,
            ValueView::Ulong(_) => CtlType::Ulong,
            ValueView::U64(_) => CtlType::U64,
            ValueView::U8(_) => CtlType::U8,
            ValueView::U16(_) => CtlType::U16,
            ValueView::S8(_) => CtlType::S8,
            ValueView::S16(_) => CtlType::S16,
            ValueView::S32(_) => CtlType::S32,
            ValueView::U32(_) => CtlType::U32,
            ValueView::Temperature(_) => CtlType::Temperature,
        }
    }

    /// This value as text: a number in decimal, text as it is, a temperature
    /// in Kelvin, and a fixed word for what has no text.
    pub open spec fn text(self) -> Seq<char> {
        match self {
            ValueView::Nil => "[None]"@,
            ValueView::Node(_) => "[Node]"@,
            ValueView::Struct(_) => "[Opaque Struct]"@,
            ValueView::String(text) => text,
            ValueView::Int(v) => decimal(v as int),
            ValueView::S64(v) => decimal(v as int),
            ValueView::Uint(v) => decimal(v as int),
            ValueView::Long(v) => decimal(v as int),
            ValueView::Ulong(v) => decimal(v as int),
            ValueView::U64(v) => decimal(v as int),
            ValueView::U8(v) => decimal(v as int),
            ValueView::U16(v) => decimal(v as int),
            ValueView::S8(v) => decimal(v as int),
            ValueView::S16(v) => decimal(v as int),
            ValueView::S32(v) => decimal(v as int),
            ValueView::U32(v) => decimal(v as int),
            ValueView::Temperature(t) => degrees_text(t.spec_kelvin()),
        }
    }
}

impl CtlValue {
    /// The type of this value.
    pub fn ctl_type(&self) -> (res: CtlType)
        ensures
            res == self@.ctl_type(),
    {
        match self {
            CtlValue::Nil => CtlType::Nil,
            CtlValue::Node(_) => CtlType::Node,
            CtlValue::Int(_) => CtlType::Int,
            CtlValue::String(_) => CtlType::String,
            CtlValue::S64(_) => CtlType::S64,
            CtlValue::Struct(_) => CtlType::Struct,
            CtlValue::Uint(_) => CtlType::Uint,
            CtlValue::Long(_) => CtlType::Long,
            CtlValue::Ulong(_) => CtlType::Ulong,
            CtlValue::U64(_) => CtlType::U64,
            CtlValue::U8(_) => CtlType::U8,
            CtlValue::U16(_) => CtlType::U16,
            CtlValue::S8(_) => CtlType::S8,
            CtlValue::S16(_) => CtlType::S16,
            CtlValue::S32(_) => CtlType::S32,
            CtlValue::U32(_) => CtlType::U32,
            CtlValue::Temperature(_) => CtlType::Temperature,
        }
    }

    /// This value as text.
    pub fn to_string(&self) -> (res: String)
        ensures
            res@ == self@.text(),
    {
        match self {
            CtlValue::Nil => "[None]".to_owned(),
            CtlValue::Int(i) => format_int(*i as i128),
            CtlValue::Uint(i) => format_int(*i as i128),
            CtlValue::Long(i) => format_int(*i as i128),
            CtlValue::Ulong(i) => format_int(*i as i128),
            CtlValue::U8(i) => format_int(*i as i128),
            CtlValue::U16(i) => format_int(*i as i128),
            CtlValue::U32(i) => format_int(*i as i128),
            CtlValue::U64(i) => format_int(*i as i128),
            CtlValue::S8(i) => format_int(*i as i128),
            CtlValue::S16(i) => format_int(*i as i128),
            CtlValue::S32(i) => format_int(*i as i128),
            CtlValue::S64(i) => format_int(*i as i128),
            CtlValue::Struct(_) => "[Opaque Struct]".to_owned(),
            CtlValue::Node(_) => "[Node]".to_owned(),
            CtlValue::String(s) => s.clone(),
            CtlValue::Temperature(t) => t.to_string(),
        }
    }
}

} // verus!
