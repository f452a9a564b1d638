//! The values that cross the boundary between guest and host.

use vstd::prelude::*;
use crate::text::str_eq;

verus! {

/// The number of registers in which a guest passes arguments.
pub const ALLOWED_REGISTERS: usize = 6;

/// The types a parameter of a host function may have. Every bit pattern of
/// the right width is a value of each of them, so bytes that a guest controls
/// can be read as arguments without a check.
#[derive(Clone, Copy, Debug, PartialEq, Eq, Structural)]
pub enum ParamType {
    U8,
    U16,
    U32,
    U64,
}

/// An argument, decoded.
#[derive(Clone, Copy, Debug, PartialEq, Eq, Structural)]
pub enum ArgValue {
    U8(u8),
    U16(u16),
    U32(u32),
    U64(u64),
}

/// Why a call ends without a value. A trap ends the call it occurs in and
/// nothing else; it is handed to whoever runs the guest.
#[derive(Clone, Copy, Debug, PartialEq, Eq, Structural)]
pub enum Trap {
    /// No host function of the requested name is in the table.
    InvalidSyscall,
    /// The gas does not suffice, or the gas register holds no valid amount.
    OutOfGas,
    /// A function that changes state was called where only reading is allowed.
    StateChangeDenied,
    /// The record of arguments could not be read from guest memory.
    MemoryAccessFailure,
    /// The host function itself failed, with a code of its own.
    HandlerError(u32),
}

impl ParamType {
    /// The type's width in bytes, which is also its alignment.
    pub open spec fn spec_size(self) -> nat {
        match self {
            ParamType::U8 => 1,
            ParamType::U16 => 2,
            ParamType::U32 => 4,
            ParamType::U64 => 8,
        }
    }

    /// The type that is written as `name`.
    pub open spec fn spec_from_name(name: Seq<char>) -> Option<ParamType> {
        if name == "u8"@ {
            Some(ParamType::U8)
        } else if name == "u16"@ {
            Some(ParamType::U16)
        } else if name == "u32"@ {
            Some(ParamType::U32)
        } else if name == "u64"@ {
            Some(ParamType::U64)
        } else {
            None
        }
    }

    /// The value of this type that `value` is cut down to: its low bits.
    pub open spec fn spec_truncate(self, value: int) -> ArgValue {
        match self {
            ParamType::U8 => ArgValue::U8((value % 0x100) as u8),
            ParamType::U16 => ArgValue::U16((value % 0x1_0000) as u16),
            ParamType::U32 => ArgValue::U32((value % 0x1_0000_0000) as u32),
            ParamType::U64 => ArgValue::U64((value % 0x1_0000_0000_0000_0000) as u64),
        }
    }

    /// The type's width in bytes.
    pub fn size(self) -> (n: usize)
        ensures
            n == self.spec_size(),
    {
        match self {
            ParamType::U8 => 1,
            ParamType::U16 => 2,
            ParamType::U32 => 4,
            ParamType::U64 => 8,
        }
    }

    /// The type that is written as `name`: one of `u8`, `u16`, `u32`, `u64`.
    pub fn from_name(name: &str) -> (ty: Option<ParamType>)
        ensures
            ty == ParamType::spec_from_name(name@),
    {
        if str_eq(name, "u8") {
            Some(ParamType::U8)
        } else if str_eq(name, "u16") {
            Some(ParamType::U16)
        } else if str_eq(name, "u32") {
            Some(ParamType::U32)
        } else if str_eq(name, "u64") {
            Some(ParamType::U64)
        } else {
            None
        }
    }

    /// Cuts the content of a register down to this type.
    pub fn truncate(self, value: u64) -> (arg: ArgValue)
        ensures
            arg == self.spec_truncate(value as int),
            arg.spec_ty() == self,
    {
        match self {
            ParamType::U8 => {
                assert(value as u8 == value % 0x100) by (bit_vector);
                ArgValue::U8(
                    #[verifier::truncate]
                    (value as u8),
                )
            },
            ParamType::U16 => {
                assert(value as u16 == value % 0x1_0000) by (bit_vector);
                ArgValue::U16(
                    #[verifier::truncate]
                    (value as u16),
                )
            },
            ParamType::U32 => {
                assert(value as u32 == value % 0x1_0000_0000) by (bit_vector);
                ArgValue::U32(
                    #[verifier::truncate]
                    (value as u32),
                )
            },
            ParamType::U64 => ArgValue::U64(value),
        }
    }
}

impl ArgValue {
    /// The type of the argument.
    pub open spec fn spec_ty(self) -> ParamType {
        match self {
            ArgValue::U8(_) => ParamType::U8,
            ArgValue::U16(_) => ParamType::U16,
            ArgValue::U32(_) => ParamType::U32,
            ArgValue::U64(_) => ParamType::U64,
        }
    }

    /// The argument as a number.
    pub open spec fn spec_value(self) -> nat {
        match self {
            ArgValue::U8(v) => v as nat,
            ArgValue::U16(v) => v as nat,
            ArgValue::U32(v) => v as nat,
            ArgValue::U64(v) => v as nat,
        }
    }

    /// The type of the argument.
    pub fn ty(self) -> (ty: ParamType)
        ensures
            ty == self.spec_ty(),
    {
        match self {
            ArgValue::U8(_) => ParamType::U8,
            ArgValue::U16(_) => ParamType::U16,
            ArgValue::U32(_) => ParamType::U32,
            ArgValue::U64(_) => ParamType::U64,
        }
    }

    /// The argument as a number.
    pub fn value(self) -> (v: u64)
        ensures
            v == self.spec_value(),
    {
        match self {
            ArgValue::U8(v) => v as u64,
            ArgValue::U16(v) => v as u64,
            ArgValue::U32(v) => v as u64,
            ArgValue::U64(v) => v,
        }
    }
}

} // verus!
