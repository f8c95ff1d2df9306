//! The descriptor of a control: its type, its access flags and its format hint.

use crate::consts::{CtlFlags, CTLFLAG_ALL, CTLFLAG_RD, CTLFLAG_WR};
use crate::ctl_type::CtlType;
use crate::text::{digit_value, has_prefix, is_digit, starts_with};
use vstd::prelude::*;
use vstd::string::*;

verus! {

/// What the kernel tells about a control.
#[derive(Debug, Clone, PartialEq, Eq)]
pub struct CtlInfo {
    /// The type of the control.
    pub ctl_type: CtlType,
    /// A short hint at how the value is laid out.
    pub fmt: String,
    /// The kind word: the access flags, and the type in its low bits.
    pub flags: u32,
}

/// A descriptor, with its format hint as a sequence of characters.
pub struct InfoView {
    pub ctl_type: CtlType,
    pub fmt: Seq<char>,
    pub flags: u32,
}

impl View for CtlInfo {
    type V = InfoView;

    open spec fn view(&self) -> InfoView {
        InfoView { ctl_type: self.ctl_type, fmt: self.fmt@, flags: self.flags }
    }
}

impl InfoView {
    /// Whether the control may be read.
    pub open spec fn readable(self) -> bool {
        self.flags & CTLFLAG_RD == CTLFLAG_RD
    }

    /// Whether the control may be written.
    pub open spec fn writable(self) -> bool {
        self.flags & CTLFLAG_WR == CTLFLAG_WR
    }

    /// Whether the format hint names a temperature: it starts with `IK`.
    pub open spec fn is_temperature(self) -> bool {
        self.fmt.len() >= 2 && self.fmt[0] == 'I' && self.fmt[1] == 'K'
    }

    /// Whether the format hint names a record: it starts with `S,`.
    pub open spec fn is_struct(self) -> bool {
        self.fmt.len() >= 2 && self.fmt[0] == 'S' && self.fmt[1] == ','
    }

    /// The name of the record's type: what follows `S,`.
    pub open spec fn struct_type(self) -> Option<Seq<char>> {
        if self.is_struct() {
            Some(self.fmt.subrange(2, self.fmt.len() as int))
        } else {
            None
        }
    }

    /// How many digits of a temperature stand behind the point: the digit that
    /// is the third character of the format hint, and one where there is none.
    pub open spec fn precision(self) -> nat {
        if self.fmt.len() > 2 && is_digit(self.fmt[2]) {
            digit_value(self.fmt[2])
        } else {
            1
        }
    }
}

impl CtlInfo {
    /// Whether the control may be read.
    pub fn is_readable(&self) -> (res: bool)
        ensures
            res == self@.readable(),
    {
        self.flags & CTLFLAG_RD == CTLFLAG_RD
    }

    /// Whether the control may be written.
    pub fn is_writable(&self) -> (res: bool)
        ensures
            res == self@.writable(),
    {
        self.flags & CTLFLAG_WR == CTLFLAG_WR
    }

    /// Whether this control is a temperature.
    pub fn is_temperature(&self) -> (res: bool)
        ensures
            res == self@.is_temperature(),
    {
        proof {
            reveal_strlit("IK");
            assert(has_prefix(self.fmt@, "IK"@) == self@.is_temperature()) by {
                if self.fmt@.len() >= 2 {
                    assert(self.fmt@.subrange(0, 2)[0] == self.fmt@[0]);
                    assert(self.fmt@.subrange(0, 2)[1] == self.fmt@[1]);
                    if self@.is_temperature() {
                        assert(self.fmt@.subrange(0, 2) =~= "IK"@);
                    }
                }
            }
        }
        starts_with(self.fmt.as_str(), "IK")
    }

    /// The access flags of this control.
    pub fn flags(&self) -> (res: CtlFlags)
        ensures
            res.bits == self.flags & CTLFLAG_ALL,
    {
        CtlFlags::from_bits_truncate(self.flags)
    }

    /// The name of the record's type, if this control holds a record.
    pub fn struct_type(&self) -> (res: Option<String>)
        ensures
            match res {
                Some(name) => self@.struct_type() == Some(name@),
                None => self@.struct_type() is None,
            },
    {
        proof {
            reveal_strlit("S,");
            assert(has_prefix(self.fmt@, "S,"@) == self@.is_struct()) by {
                if self.fmt@.len() >= 2 {
                    assert(self.fmt@.subrange(0, 2)[0] == self.fmt@[0]);
                    assert(self.fmt@.subrange(0, 2)[1] == self.fmt@[1]);
                    if self@.is_struct() {
                        assert(self.fmt@.subrange(0, 2) =~= "S,"@);
                    }
                }
            }
        }
        if !starts_with(self.fmt.as_str(), "S,") {
            return None;
        }
        let len = self.fmt.as_str().unicode_len();
        Some(self.fmt.as_str().substring_char(2, len).to_owned())
    }

    /// How many digits of a temperature stand behind the point.
    pub fn precision(&self) -> (res: u32)
        ensures
            res == self@.precision(),
            res <= 9,
    {
        if self.fmt.as_str().unicode_len() > 2 {
            match self.fmt.as_str().get_char(2) {
                '0' => 0,
                '1' => 1,
                '2' => 2,
                '3' => 3,
                '4' => 4,
                '5' => 5,
                '6' => 6,
                '7' => 7,
                '8' => 8,
                '9' => 9,
                _ => 1,
            }
        } else {
            1
        }
    }
}

} // verus!
