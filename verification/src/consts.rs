//! The numbers that the kernel uses for types and access flags.

use vstd::prelude::*;

verus! {

/// The most elements that a path into the tree can have.
pub const CTL_MAXNAME: u32 = 24;

/// The bits of a kind word that hold the type.
pub const CTLTYPE: u32 = 0xf;

pub const CTLTYPE_NODE: u32 = 1;
pub const CTLTYPE_INT: u32 = 2;
pub const CTLTYPE_STRING: u32 = 3;
pub const CTLTYPE_S64: u32 = 4;
pub const CTLTYPE_OPAQUE: u32 = 5;
pub const CTLTYPE_STRUCT: u32 = 5;
pub const CTLTYPE_UINT: u32 = 6;
pub const CTLTYPE_LONG: u32 = 7;
pub const CTLTYPE_ULONG: u32 = 8;
pub const CTLTYPE_U64: u32 = 9;
pub const CTLTYPE_U8: u32 = 10;
pub const CTLTYPE_U16: u32 = 11;
pub const CTLTYPE_S8: u32 = 12;
pub const CTLTYPE_S16: u32 = 13;
pub const CTLTYPE_S32: u32 = 14;
pub const CTLTYPE_U32: u32 = 15;

pub const CTLFLAG_RD: u32 = 0x80000000;
pub const CTLFLAG_WR: u32 = 0x40000000;
pub const CTLFLAG_RW: u32 = 0x80000000 | 0x40000000;
pub const CTLFLAG_DORMANT: u32 = 0x20000000;
pub const CTLFLAG_ANYBODY: u32 = 0x10000000;
pub const CTLFLAG_SECURE: u32 = 0x08000000;
pub const CTLFLAG_PRISON: u32 = 0x04000000;
pub const CTLFLAG_DYN: u32 = 0x02000000;
pub const CTLFLAG_SKIP: u32 = 0x01000000;
pub const CTLFLAG_TUN: u32 = 0x00080000;
pub const CTLFLAG_RDTUN: u32 = CTLFLAG_RD | CTLFLAG_TUN;
pub const CTLFLAG_RWTUN: u32 = CTLFLAG_RW | CTLFLAG_TUN;
pub const CTLFLAG_MPSAFE: u32 = 0x00040000;
pub const CTLFLAG_VNET: u32 = 0x00020000;
pub const CTLFLAG_DYING: u32 = 0x00010000;
pub const CTLFLAG_CAPRD: u32 = 0x00008000;
pub const CTLFLAG_CAPWR: u32 = 0x00004000;
pub const CTLFLAG_STATS: u32 = 0x00002000;
pub const CTLFLAG_NOFETCH: u32 = 0x00001000;
pub const CTLFLAG_CAPRW: u32 = CTLFLAG_CAPRD | CTLFLAG_CAPWR;
pub const CTLFLAG_SECURE1: u32 = 134217728;
pub const CTLFLAG_SECURE2: u32 = 135266304;
pub const CTLFLAG_SECURE3: u32 = 136314880;

pub const CTLMASK_SECURE: u32 = 15728640;
pub const CTLSHIFT_SECURE: u32 = 20;

/// Every bit that a flag of [`CtlFlags`] names.
pub const CTLFLAG_ALL: u32 = 0xFEFFF000;

/// The access flags of a control, as a set of bits.
#[derive(Debug, Clone, Copy, PartialEq, Eq, Hash, Structural)]
pub struct CtlFlags {
    pub bits: u32,
}

impl CtlFlags {
    /// The bits of this set.
    pub fn bits(&self) -> (res: u32)
        ensures
            res == self.bits,
    {
        self.bits
    }

    /// The flags among `bits` that have a name; the other bits are dropped.
    pub fn from_bits_truncate(bits: u32) -> (res: CtlFlags)
        ensures
            res.bits == bits & CTLFLAG_ALL,
    {
        CtlFlags { bits: bits & CTLFLAG_ALL }
    }

    /// Whether every flag of `other` is in this set.
    pub fn contains(&self, other: CtlFlags) -> (res: bool)
        ensures
            res == (self.bits & other.bits == other.bits),
    {
        self.bits & other.bits == other.bits
    }
}

} // verus!
