//! Bus addresses: banks, mirrors, and the address an operand refers to.
//!
//! An address is 24 bits wide: the high byte is the bank, the low 16 bits
//! the offset in the bank. Computed addresses wrap modulo 2^24.

use vstd::prelude::*;
use crate::opcode::AddrMode;

verus! {

/// `x` reduced to the 24-bit address space.
pub open spec fn wrap24(x: int) -> u64 {
    (x % 0x100_0000) as u64
}

/// The low 8 bits of `v` read as a signed byte.
pub open spec fn sign8(v: u64) -> int {
    if (v & 0xFF) >= 0x80 {
        (v & 0xFF) - 0x100
    } else {
        (v & 0xFF) as int
    }
}

/// The low 16 bits of `v` read as a signed word.
pub open spec fn sign16(v: u64) -> int {
    if (v & 0xFFFF) >= 0x8000 {
        (v & 0xFFFF) - 0x1_0000
    } else {
        (v & 0xFFFF) as int
    }
}

/// The bank of an address.
pub open spec fn bank_of(a: u64) -> u64 {
    a >> 16
}

/// The low 16 bits of `arg` in bank `db`.
pub open spec fn in_bank(db: u64, arg: u64) -> u64 {
    (db << 16) | (arg & 0xFFFF)
}

/// Where a branch at `pc` with displacement `arg` goes: two bytes past
/// `pc`, plus the displacement read as a signed byte, or as a signed word
/// for a long branch.
pub open spec fn branch_target(pc: u64, arg: u64, long: bool) -> u64 {
    wrap24(
        pc + 2 + if long {
            sign16(arg)
        } else {
            sign8(arg)
        },
    )
}

/// Whether the branch leaves the 24-bit address space, so that its target
/// is wrapped around.
pub open spec fn branch_wraps(pc: u64, arg: u64, long: bool) -> bool {
    let t = pc + 2 + if long {
        sign16(arg)
    } else {
        sign8(arg)
    };
    t < 0 || t >= 0x100_0000
}

/// The address a two-byte operand refers to: the work RAM mirror below
/// 0x2000, the hardware registers below 0x8000 as they are, and the data
/// bank above.
pub open spec fn absolute_target(db: u8, arg: u64) -> u64 {
    if (arg & 0xFFFF) < 0x2000 {
        0x7E_0000 | (arg & 0xFFFF)
    } else if (arg & 0xFFFF) < 0x8000 {
        arg & 0xFFFF
    } else {
        in_bank(db as u64, arg)
    }
}

/// The address the operand of an instruction refers to. An operand that is
/// no branch displacement is read by its length: one byte is a direct page
/// offset, two bytes an absolute address, three bytes a long address. There
/// is no target for any other length.
pub open spec fn target_of(pc: u64, db: u8, arg: u64, mode: AddrMode, length: u8) -> Option<u64> {
    match mode {
        AddrMode::Relative => Some(branch_target(pc, arg, false)),
        AddrMode::RelativeLong => Some(branch_target(pc, arg, true)),
        _ => if length == 1 {
            Some(0x7E_0000 | (arg & 0xFF))
        } else if length == 2 {
            Some(absolute_target(db, arg))
        } else if length == 3 {
            Some(arg)
        } else {
            None
        },
    }
}

/// Computes `branch_target`.
pub fn resolve_branch(pc: u64, arg: u64, long: bool) -> (r: u64)
    ensures
        r == branch_target(pc, arg, long),
        r < 0x100_0000,
{
    let base: u64 = pc % 0x100_0000;
    if long {
        let raw: u64 = arg & 0xFFFF;
        assert(raw < 0x1_0000) by (bit_vector)
            requires
                raw == arg & 0xFFFF,
        ;
        let disp: u64 = if raw >= 0x8000 {
            0x100_0000 - 0x1_0000 + raw
        } else {
            raw
        };
        (base + 2 + disp) % 0x100_0000
    } else {
        let raw: u64 = arg & 0xFF;
        assert(raw < 0x100) by (bit_vector)
            requires
                raw == arg & 0xFF,
        ;
        let disp: u64 = if raw >= 0x80 {
            0x100_0000 - 0x100 + raw
        } else {
            raw
        };
        (base + 2 + disp) % 0x100_0000
    }
}

/// Computes `branch_wraps`.
pub fn is_wrapping_branch(pc: u64, arg: u64, long: bool) -> (r: bool)
    ensures
        r == branch_wraps(pc, arg, long),
{
    let raw: u64 = if long {
        arg & 0xFFFF
    } else {
        arg & 0xFF
    };
    assert(raw < 0x1_0000) by (bit_vector)
        requires
            raw == arg & 0xFFFF || raw == arg & 0xFF,
    ;
    let bias: u128 = if long {
        if raw >= 0x8000 {
            0x1_0000
        } else {
            0
        }
    } else {
        if raw >= 0x80 {
            0x100
        } else {
            0
        }
    };
    let sum: u128 = pc as u128 + 2 + raw as u128;
    sum < bias || sum - bias >= 0x100_0000
}

/// Computes `absolute_target`.
pub fn resolve_absolute(db: u8, arg: u64) -> (r: u64)
    ensures
        r == absolute_target(db, arg),
{
    let low: u64 = arg & 0xFFFF;
    if low < 0x2000 {
        0x7E_0000 | low
    } else if low < 0x8000 {
        low
    } else {
        ((db as u64) << 16) | low
    }
}

/// Computes `target_of`.
pub fn resolve_target(pc: u64, db: u8, arg: u64, mode: AddrMode, length: u8) -> (r: Option<u64>)
    ensures
        r == target_of(pc, db, arg, mode, length),
{
    match mode {
        AddrMode::Relative => Some(resolve_branch(pc, arg, false)),
        AddrMode::RelativeLong => Some(resolve_branch(pc, arg, true)),
        _ => {
            if length == 1 {
                Some(0x7E_0000 | (arg & 0xFF))
            } else if length == 2 {
                Some(resolve_absolute(db, arg))
            } else if length == 3 {
                Some(arg)
            } else {
                None
            }
        },
    }
}

/// A branch whose displacement does not leave the bank of the byte after
/// next lands in that bank.
pub proof fn lemma_branch_stays_in_bank(pc: u64, arg: u64, long: bool)
    requires
        pc + 2 < 0x100_0000,
        0 <= (pc + 2) % 0x1_0000 + (if long {
            sign16(arg)
        } else {
            sign8(arg)
        }) < 0x1_0000,
    ensures
        bank_of(branch_target(pc, arg, long)) == bank_of((pc + 2) as u64),
{
    let d = if long {
        sign16(arg)
    } else {
        sign8(arg)
    };
    let base = (pc + 2) as u64;
    let t = branch_target(pc, arg, long);
    assert(-0x8000 <= d < 0x8000) by {
        let a = arg & 0xFFFF;
        let b = arg & 0xFF;
        assert(a < 0x1_0000) by (bit_vector)
            requires
                a == arg & 0xFFFF,
        ;
        assert(b < 0x100) by (bit_vector)
            requires
                b == arg & 0xFF,
        ;
    }
    assert(t == base + d);
    assert(base / 0x1_0000 == t / 0x1_0000);
    assert(t >> 16 == t / 0x1_0000) by (bit_vector);
    assert(base >> 16 == base / 0x1_0000) by (bit_vector);
}

} // verus!
