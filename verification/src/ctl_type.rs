//! The type tag of a control.

use crate::consts::CTLTYPE;
use vstd::prelude::*;

verus! {

/// How the payload of a control is to be read.
#[derive(Debug, Copy, Clone, PartialEq, Eq, Hash, Structural)]
pub enum CtlType {
    Node,
    Int,
    String,
    S64,
    Struct,
    Uint,
    Long,
    Ulong,
    U64,
    U8,
    U16,
    S8,
    S16,
    S32,
    U32,
    /// No type at all: the tag zero.
    Nil,
    /// A temperature. The kernel never sends this tag: a value gets it from
    /// its format hint.
    Temperature,
}

impl CtlType {
    /// The tag with the number `tag`, as the kernel counts them (zero for
    /// [`CtlType::Nil`], 16 for [`CtlType::Temperature`]).
    pub open spec fn of_number(tag: u32) -> CtlType {
        if tag == 1 {
            CtlType::Node
        } else if tag == 2 {
            CtlType::Int
        } else if tag == 3 {
            CtlType::String
        } else if tag == 4 {
            CtlType::S64
        } else if tag == 5 {
            CtlType::Struct
        } else if tag == 6 {
            CtlType::Uint
        } else if tag == 7 {
            CtlType::Long
        } else if tag == 8 {
            CtlType::Ulong
        } else if tag == 9 {
            CtlType::U64
        } else if tag == 10 {
            CtlType::U8
        } else if tag == 11 {
            CtlType::U16
        } else if tag == 12 {
            CtlType::S8
        } else if tag == 13 {
            CtlType::S16
        } else if tag == 14 {
            CtlType::S32
        } else if tag == 15 {
            CtlType::U32
        } else if tag == 16 {
            CtlType::Temperature
        } else {
            CtlType::Nil
        }
    }

    /// The number of this tag.
    pub open spec fn number(self) -> u32 {
        match self {
            CtlType::Nil => 0,
            CtlType::Node => 1,
            CtlType::Int => 2,
            CtlType::String => 3,
            CtlType::S64 => 4,
            CtlType::Struct => 5,
            CtlType::Uint => 6,
            CtlType::Long => 7,
            CtlType::Ulong => 8,
            CtlType::U64 => 9,
            CtlType::U8 => 10,
            CtlType::U16 => 11,
            CtlType::S8 => 12,
            CtlType::S16 => 13,
            CtlType::S32 => 14,
            CtlType::U32 => 15,
            CtlType::Temperature => 16,
        }
    }

    /// The least number of bytes that a value of this type takes.
    pub open spec fn spec_min_type_size(self) -> nat {
        match self {
            CtlType::Int | CtlType::Uint | CtlType::S32 | CtlType::U32 => 4,
            CtlType::S64 | CtlType::U64 | CtlType::Long | CtlType::Ulong => 8,
            CtlType::U8 | CtlType::S8 => 1,
            CtlType::U16 | CtlType::S16 => 2,
            CtlType::Nil | CtlType::Node | CtlType::String | CtlType::Struct
            | CtlType::Temperature => 0,
        }
    }

    /// The tag with the number `tag`. No tag has a number above 16.
    pub fn from_u32(tag: u32) -> (res: CtlType)
        requires
            tag <= 16,
        ensures
            res == CtlType::of_number(tag),
            res.number() == tag,
    {
        match tag {
            1 => CtlType::Node,
            2 => CtlType::Int,
            3 => CtlType::String,
            4 => CtlType::S64,
            5 => CtlType::Struct,
            6 => CtlType::Uint,
            7 => CtlType::Long,
            8 => CtlType::Ulong,
            9 => CtlType::U64,
            10 => CtlType::U8,
            11 => CtlType::U16,
            12 => CtlType::S8,
            13 => CtlType::S16,
            14 => CtlType::S32,
            15 => CtlType::U32,
            16 => CtlType::Temperature,
            _ => CtlType::Nil,
        }
    }

    /// The tag in the low four bits of a kind word.
    pub fn from_kind(kind: u32) -> (res: CtlType)
        ensures
            res == CtlType::of_number(kind & CTLTYPE),
            res != CtlType::Temperature,
    {
        let tag: u32 = kind & CTLTYPE;
        assert(kind & 0xf <= 15) by (bit_vector);
        CtlType::from_u32(tag)
    }

    /// The least number of bytes that a value of this type takes: the width
    /// of a number, and nothing for text, opaque data and nodes.
    pub fn min_type_size(&self) -> (res: usize)
        ensures
            res == self.spec_min_type_size(),
    {
        match self {
            CtlType::Nil => 0,
            CtlType::Node => 0,
            CtlType::Int => 4,
            CtlType::String => 0,
            CtlType::S64 => 8,
            CtlType::Struct => 0,
            CtlType::Uint => 4,
            CtlType::Long => 8,
            CtlType::Ulong => 8,
            CtlType::U64 => 8,
            CtlType::U8 => 1,
            CtlType::U16 => 2,
            CtlType::S8 => 1,
            CtlType::S16 => 2,
            CtlType::S32 => 4,
            CtlType::U32 => 4,
            CtlType::Temperature => 0,
        }
    }
}

} // verus!
