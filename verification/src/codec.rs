//! The numbers in a payload: which bytes of it a type reads, and as what.

use crate::bytes::{
    field, get_i16, get_i32, get_i64, get_i8, get_u16, get_u32, get_u64, get_u8, le_uint,
    lemma_field_of_short, lemma_le_uint_bound, lemma_radix_values, padded, signed,
};
use crate::ctl_type::CtlType;
use vstd::prelude::*;

verus! {

/// Whether values of this type are unsigned numbers. A value of type `S64` is
/// kept as an unsigned number of eight bytes.
pub open spec fn is_unsigned(ctl_type: CtlType) -> bool {
    match ctl_type {
        CtlType::Uint | CtlType::U32 | CtlType::S64 | CtlType::Ulong | CtlType::U64 | CtlType::U8
        | CtlType::U16 => true,
        _ => false,
    }
}

/// Whether values of this type are signed numbers.
pub open spec fn is_signed(ctl_type: CtlType) -> bool {
    match ctl_type {
        CtlType::Int | CtlType::S32 | CtlType::Long | CtlType::S8 | CtlType::S16 => true,
        _ => false,
    }
}

/// The number that a payload holds for a control of a numeric type: the first
/// bytes of the payload, as many as the type is wide, least significant byte
/// first, with zero bytes after a payload that is too short. `None` for a type
/// that is no number.
pub open spec fn raw_number(ctl_type: CtlType, bytes: Seq<u8>) -> Option<int> {
    let width = ctl_type.spec_min_type_size();
    if is_unsigned(ctl_type) {
        Some(le_uint(field(bytes, width)) as int)
    } else if is_signed(ctl_type) {
        Some(signed(le_uint(field(bytes, width)), width))
    } else {
        None
    }
}

/// Reads the number that `val` holds for a control of type `ctl_type`.
pub fn read_number(ctl_type: CtlType, val: &Vec<u8>) -> (res: Option<i128>)
    ensures
        res is Some <==> raw_number(ctl_type, val@) is Some,
        res matches Some(n) ==> raw_number(ctl_type, val@) == Some(n as int),
        res matches Some(n) ==> -0x8000_0000_0000_0000 <= n <= 0xffff_ffff_ffff_ffff,
{
    match ctl_type {
        CtlType::Int => Some(get_i32(val) as i128),
        CtlType::S64 => Some(get_u64(val) as i128),
        CtlType::Uint => Some(get_u32(val) as i128),
        CtlType::Long => Some(get_i64(val) as i128),
        CtlType::Ulong => Some(get_u64(val) as i128),
        CtlType::U64 => Some(get_u64(val) as i128),
        CtlType::U8 => Some(get_u8(val) as i128),
        CtlType::U16 => Some(get_u16(val) as i128),
        CtlType::S8 => Some(get_i8(val) as i128),
        CtlType::S16 => Some(get_i16(val) as i128),
        CtlType::S32 => Some(get_i32(val) as i128),
        CtlType::U32 => Some(get_u32(val) as i128),
        _ => None,
    }
}

/// The number of a numeric type fits the type: an unsigned number is below
/// 256 to the power of the width, a signed one within half of that on either
/// side of zero.
pub proof fn lemma_raw_number_range(ctl_type: CtlType, bytes: Seq<u8>)
    requires
        raw_number(ctl_type, bytes) is Some,
    ensures
        is_unsigned(ctl_type) ==> 0 <= raw_number(ctl_type, bytes)->0 < crate::bytes::radix(
            ctl_type.spec_min_type_size(),
        ),
        is_signed(ctl_type) ==> -(crate::bytes::radix(ctl_type.spec_min_type_size()) as int) <= 2
            * raw_number(ctl_type, bytes)->0 < crate::bytes::radix(ctl_type.spec_min_type_size()),
{
    let width = ctl_type.spec_min_type_size();
    lemma_le_uint_bound(field(bytes, width));
    lemma_radix_values();
}

/// A payload that is shorter than its type is wide is read as if zero bytes
/// followed it, and these add nothing: the number is the one that the bytes
/// spell by themselves.
pub proof fn lemma_short_payload(ctl_type: CtlType, bytes: Seq<u8>)
    requires
        bytes.len() <= ctl_type.spec_min_type_size(),
    ensures
        raw_number(ctl_type, bytes) == raw_number(
            ctl_type,
            padded(bytes, ctl_type.spec_min_type_size()),
        ),
        is_unsigned(ctl_type) ==> raw_number(ctl_type, bytes) == Some(le_uint(bytes) as int),
        is_signed(ctl_type) ==> raw_number(ctl_type, bytes) == Some(
            signed(le_uint(bytes), ctl_type.spec_min_type_size()),
        ),
{
    let width = ctl_type.spec_min_type_size();
    lemma_field_of_short(bytes, width);
    assert(field(padded(bytes, width), width) =~= field(bytes, width));
}

} // verus!
