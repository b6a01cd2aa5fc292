//! The arithmetic and logic of the data processing instructions: the shifter, the adder,
//! the sixteen operations and the conditions.

use vstd::prelude::*;

verus! {

/// Whether an instruction with the condition `cond` runs under the flags of the status
/// register `cpsr`. The sixteenth condition stands for instructions that always run.
pub open spec fn condition_passed(cpsr: u32, cond: u32) -> bool {
    let n = cpsr & 0x8000_0000 != 0;
    let z = cpsr & 0x4000_0000 != 0;
    let c = cpsr & 0x2000_0000 != 0;
    let v = cpsr & 0x1000_0000 != 0;
    if cond == 0 {
        z
    } else if cond == 1 {
        !z
    } else if cond == 2 {
        c
    } else if cond == 3 {
        !c
    } else if cond == 4 {
        n
    } else if cond == 5 {
        !n
    } else if cond == 6 {
        v
    } else if cond == 7 {
        !v
    } else if cond == 8 {
        c && !z
    } else if cond == 9 {
        !c || z
    } else if cond == 10 {
        n == v
    } else if cond == 11 {
        n != v
    } else if cond == 12 {
        !z && n == v
    } else if cond == 13 {
        z || n != v
    } else {
        true
    }
}

/// Whether an instruction with the condition `cond` runs.
pub fn check_condition(cpsr: u32, cond: u32) -> (passed: bool)
    ensures
        passed == condition_passed(cpsr, cond),
{
    let n = cpsr & 0x8000_0000 != 0;
    let z = cpsr & 0x4000_0000 != 0;
    let c = cpsr & 0x2000_0000 != 0;
    let v = cpsr & 0x1000_0000 != 0;
    match cond {
        0 => z,
        1 => !z,
        2 => c,
        3 => !c,
        4 => n,
        5 => !n,
        6 => v,
        7 => !v,
        8 => c && !z,
        9 => !c || z,
        10 => n == v,
        11 => n != v,
        12 => !z && n == v,
        13 => z || n != v,
        _ => true,
    }
}

/// A word rotated right by `amount` bits, where `amount` is less than 32.
pub open spec fn rotated_right(value: u32, amount: u32) -> u32 {
    if amount == 0 {
        value
    } else {
        (value >> amount) | (value << ((32 - amount) as u32))
    }
}

/// Rotates a word right.
pub fn rotate_right(value: u32, amount: u32) -> (rotated: u32)
    requires
        amount < 32,
    ensures
        rotated == rotated_right(value, amount),
{
    if amount == 0 {
        value
    } else {
        (value >> amount) | (value << (32 - amount))
    }
}

/// What the shifter makes of a register value and the carry flag: the shifted value and
/// the carry that it puts out. `kind` says how to shift: 0 left, 1 right, 2 right with
/// the sign, 3 rotate right; `amount` is the amount in the instruction, below 32. An
/// amount of zero stands for no shift at all in a shift to the left, for a shift by 32
/// in the two shifts to the right, and for a rotation by one bit through the carry in
/// the rotation.
pub open spec fn shifted(value: u32, kind: u32, amount: u32, carry: bool) -> (u32, bool) {
    if kind == 0 {
        if amount == 0 {
            (value, carry)
        } else {
            (value << amount, (value >> ((32 - amount) as u32)) & 1 != 0)
        }
    } else if kind == 1 {
        if amount == 0 {
            (0u32, value >> 31 != 0)
        } else {
            (value >> amount, (value >> ((amount - 1) as u32)) & 1 != 0)
        }
    } else if kind == 2 {
        if amount == 0 {
            (if value >> 31 != 0 {
                0xFFFF_FFFFu32
            } else {
                0u32
            }, value >> 31 != 0)
        } else {
            (((value as i32) >> amount) as u32, (value >> ((amount - 1) as u32)) & 1 != 0)
        }
    } else {
        if amount == 0 {
            ((if carry {
                0x8000_0000u32
            } else {
                0u32
            }) | (value >> 1), value & 1 != 0)
        } else {
            (rotated_right(value, amount), (value >> ((amount - 1) as u32)) & 1 != 0)
        }
    }
}

/// Shifts a register value.
pub fn shift(value: u32, kind: u32, amount: u32, carry: bool) -> (r: (u32, bool))
    requires
        amount < 32,
    ensures
        r == shifted(value, kind, amount, carry),
{
    match kind {
        0 => if amount == 0 {
            (value, carry)
        } else {
            (value << amount, (value >> (32 - amount)) & 1 != 0)
        },
        1 => if amount == 0 {
            (0, value >> 31 != 0)
        } else {
            (value >> amount, (value >> (amount - 1)) & 1 != 0)
        },
        2 => if amount == 0 {
            (if value >> 31 != 0 {
                0xFFFF_FFFF
            } else {
                0
            }, value >> 31 != 0)
        } else {
            (((value as i32) >> amount) as u32, (value >> (amount - 1)) & 1 != 0)
        },
        _ => if amount == 0 {
            ((if carry {
                0x8000_0000u32
            } else {
                0u32
            }) | (value >> 1), value & 1 != 0)
        } else {
            (rotate_right(value, amount), (value >> (amount - 1)) & 1 != 0)
        },
    }
}

/// What the shifter makes of a register value when the amount comes from a register:
/// `amount` is the low byte of that register. No shift at all leaves the value and the
/// carry flag; a shift by less than 32 bits is the shift that an instruction names; a
/// shift by 32 bits or more shifts everything out, but for a rotation, which goes round.
pub open spec fn shifted_by(value: u32, kind: u32, amount: u32, carry: bool) -> (u32, bool) {
    if amount == 0 {
        (value, carry)
    } else if amount < 32 {
        shifted(value, kind, amount, carry)
    } else if kind == 0 {
        (0u32, amount == 32 && value & 1 != 0)
    } else if kind == 1 {
        (0u32, amount == 32 && value >> 31 != 0)
    } else if kind == 2 {
        shifted(value, 2, 0, carry)
    } else if amount % 32 == 0 {
        (value, value >> 31 != 0)
    } else {
        shifted(value, 3, amount % 32, carry)
    }
}

/// Shifts a register value by an amount from a register.
pub fn shift_by(value: u32, kind: u32, amount: u32, carry: bool) -> (r: (u32, bool))
    requires
        amount < 0x100,
    ensures
        r == shifted_by(value, kind, amount, carry),
{
    if amount == 0 {
        (value, carry)
    } else if amount < 32 {
        shift(value, kind, amount, carry)
    } else if kind == 0 {
        (0, amount == 32 && value & 1 != 0)
    } else if kind == 1 {
        (0, amount == 32 && value >> 31 != 0)
    } else if kind == 2 {
        shift(value, 2, 0, carry)
    } else if amount % 32 == 0 {
        (value, value >> 31 != 0)
    } else {
        shift(value, 3, amount % 32, carry)
    }
}

/// The bits of a status register that a write through the fields `fields` of an
/// instruction changes: bit 3 of `fields` stands for the flags, bit 0 for the control
/// bits; the two fields between them hold no bits. Only a privileged mode writes the
/// control bits, and no write to the current status register changes the Thumb bit.
pub open spec fn status_write_mask(fields: u32, privileged: bool, saved: bool) -> u32 {
    (if fields & 8 != 0 {
        0xF800_0000u32
    } else {
        0u32
    }) | (if fields & 1 != 0 && privileged {
        if saved {
            0xFFu32
        } else {
            0xDFu32
        }
    } else {
        0u32
    })
}

/// The bits of a status register that a write changes.
pub fn status_mask(fields: u32, privileged: bool, saved: bool) -> (mask: u32)
    ensures
        mask == status_write_mask(fields, privileged, saved),
{
    (if fields & 8 != 0 {
        0xF800_0000u32
    } else {
        0u32
    }) | (if fields & 1 != 0 && privileged {
        if saved {
            0xFFu32
        } else {
            0xDFu32
        }
    } else {
        0u32
    })
}

/// The sum of two words and a carry: the sum, the carry out of it, and whether it
/// overflows as a sum of signed numbers.
pub open spec fn add_with_carry(a: u32, b: u32, carry: bool) -> (u32, bool, bool) {
    let wide = a + b + (if carry {
        1int
    } else {
        0int
    });
    let sum = wide as u32;
    (sum, wide > 0xFFFF_FFFF, ((a ^ sum) & (b ^ sum)) & 0x8000_0000 != 0)
}

/// Adds two words and a carry.
pub fn adc(a: u32, b: u32, carry: bool) -> (r: (u32, bool, bool))
    ensures
        r == add_with_carry(a, b, carry),
{
    let wide: u64 = a as u64 + b as u64 + (if carry {
        1u64
    } else {
        0u64
    });
    let sum = #[verifier::truncate] (wide as u32);
    (sum, wide > 0xFFFF_FFFF, ((a ^ sum) & (b ^ sum)) & 0x8000_0000 != 0)
}

/// The flags N, Z, C and V in their places in a status register.
pub open spec fn nzcv(result: u32, carry: bool, overflow: bool) -> u32 {
    (result & 0x8000_0000) | (if result == 0 {
        0x4000_0000u32
    } else {
        0u32
    }) | (if carry {
        0x2000_0000u32
    } else {
        0u32
    }) | (if overflow {
        0x1000_0000u32
    } else {
        0u32
    })
}

/// Packs the flags N, Z, C and V.
pub fn pack_nzcv(result: u32, carry: bool, overflow: bool) -> (flags: u32)
    ensures
        flags == nzcv(result, carry, overflow),
        flags & !0xF000_0000u32 == 0,
{
    let n = result & 0x8000_0000;
    let z = if result == 0 {
        0x4000_0000u32
    } else {
        0u32
    };
    let c = if carry {
        0x2000_0000u32
    } else {
        0u32
    };
    let v = if overflow {
        0x1000_0000u32
    } else {
        0u32
    };
    proof {
        assert((z == 0 || z == 0x4000_0000) && (c == 0 || c == 0x2000_0000) && (v == 0 || v
            == 0x1000_0000) ==> (((result & 0x8000_0000) | z | c | v) & !0xF000_0000u32 == 0))
            by (bit_vector);
    }
    n | z | c | v
}

/// Whether the data processing operation `op` only sets flags: the four test and compare
/// operations.
pub open spec fn is_test(op: u32) -> bool {
    8 <= op <= 11
}

/// Whether the data processing operation `op` reads its first operand: every operation
/// but the two moves.
pub open spec fn uses_first_operand(op: u32) -> bool {
    op != 13 && op != 15
}

/// The result of the data processing operation `op` on the operands `a` and `b`, and the
/// flags N, Z, C and V after it, if it sets them. `carry` and `overflow` are the flags C
/// and V before it, `shifter_carry` is the carry that the shifter put out. A logical
/// operation takes the shifter's carry and leaves V; an arithmetic one takes both from
/// the adder.
pub open spec fn alu(
    op: u32,
    a: u32,
    b: u32,
    carry: bool,
    overflow: bool,
    shifter_carry: bool,
) -> (u32, u32) {
    if op == 0 || op == 8 {
        (a & b, nzcv(a & b, shifter_carry, overflow))
    } else if op == 1 || op == 9 {
        (a ^ b, nzcv(a ^ b, shifter_carry, overflow))
    } else if op == 2 || op == 10 {
        let (r, c, v) = add_with_carry(a, !b, true);
        (r, nzcv(r, c, v))
    } else if op == 3 {
        let (r, c, v) = add_with_carry(b, !a, true);
        (r, nzcv(r, c, v))
    } else if op == 4 || op == 11 {
        let (r, c, v) = add_with_carry(a, b, false);
        (r, nzcv(r, c, v))
    } else if op == 5 {
        let (r, c, v) = add_with_carry(a, b, carry);
        (r, nzcv(r, c, v))
    } else if op == 6 {
        let (r, c, v) = add_with_carry(a, !b, carry);
        (r, nzcv(r, c, v))
    } else if op == 7 {
        let (r, c, v) = add_with_carry(b, !a, carry);
        (r, nzcv(r, c, v))
    } else if op == 12 {
        (a | b, nzcv(a | b, shifter_carry, overflow))
    } else if op == 13 {
        (b, nzcv(b, shifter_carry, overflow))
    } else if op == 14 {
        (a & !b, nzcv(a & !b, shifter_carry, overflow))
    } else {
        (!b, nzcv(!b, shifter_carry, overflow))
    }
}

/// Runs a data processing operation.
pub fn run_alu(op: u32, a: u32, b: u32, carry: bool, overflow: bool, shifter_carry: bool) -> (r: (
    u32,
    u32,
))
    ensures
        r == alu(op, a, b, carry, overflow, shifter_carry),
        r.1 & !0xF000_0000u32 == 0,
{
    match op {
        0 | 8 => (a & b, pack_nzcv(a & b, shifter_carry, overflow)),
        1 | 9 => (a ^ b, pack_nzcv(a ^ b, shifter_carry, overflow)),
        2 | 10 => {
            let (r, c, v) = adc(a, !b, true);
            (r, pack_nzcv(r, c, v))
        },
        3 => {
            let (r, c, v) = adc(b, !a, true);
            (r, pack_nzcv(r, c, v))
        },
        4 | 11 => {
            let (r, c, v) = adc(a, b, false);
            (r, pack_nzcv(r, c, v))
        },
        5 => {
            let (r, c, v) = adc(a, b, carry);
            (r, pack_nzcv(r, c, v))
        },
        6 => {
            let (r, c, v) = adc(a, !b, carry);
            (r, pack_nzcv(r, c, v))
        },
        7 => {
            let (r, c, v) = adc(b, !a, carry);
            (r, pack_nzcv(r, c, v))
        },
        12 => (a | b, pack_nzcv(a | b, shifter_carry, overflow)),
        13 => (b, pack_nzcv(b, shifter_carry, overflow)),
        14 => (a & !b, pack_nzcv(a & !b, shifter_carry, overflow)),
        _ => (!b, pack_nzcv(!b, shifter_carry, overflow)),
    }
}

/// A subtraction is an addition of the complement with a carry: its result is the
/// difference of the two words, and its carry says that no borrow was needed.
pub proof fn lemma_subtraction(a: u32, b: u32)
    ensures
        add_with_carry(a, !b, true).0 == a.wrapping_sub(b),
        add_with_carry(a, !b, true).1 == (a >= b),
        add_with_carry(a, b, false).0 == a.wrapping_add(b),
{
    assert(!b == 0xFFFF_FFFFu32 - b) by (bit_vector);
    let wide = a + (0xFFFF_FFFF - b) + 1;
    assert(wide == a - b + 0x1_0000_0000);
    if a >= b {
        assert(wide as u32 == (a - b) as u32) by {
            assert(((a - b + 0x1_0000_0000) as u32) == ((a - b) as u32)) by {
                vstd::arithmetic::div_mod::lemma_mod_add_multiples_vanish(a - b, 0x1_0000_0000);
                lemma_truncation(a - b + 0x1_0000_0000);
                lemma_truncation(a - b);
            }
        }
    } else {
        lemma_truncation(wide);
    }
    lemma_truncation(a + b);
}

/// The truncation of a number that is not negative to a word is its remainder by two to
/// the power of 32.
pub proof fn lemma_truncation(x: int)
    requires
        0 <= x < 0x2_0000_0000,
    ensures
        x as u32 == x % 0x1_0000_0000,
{
    if x < 0x1_0000_0000 {
    } else {
        let y = (x - 0x1_0000_0000) as u64;
        let z = x as u64;
        assert(z as u32 == (z - 0x1_0000_0000) as u32) by (bit_vector)
            requires
                0x1_0000_0000 <= z < 0x2_0000_0000,
        ;
    }
}

/// The result of the Thumb operation `op` on two registers, with the flags N, Z, C and V
/// after it: `a` is the register that takes the result, `b` the other one. The operations
/// 2, 3, 4 and 7 shift `a` by the low byte of `b`; 9 takes `b` from zero; 13 multiplies
/// and leaves C and V; every other operation is the data processing operation of the
/// same number.
pub open spec fn thumb_alu(op: u32, a: u32, b: u32, carry: bool, overflow: bool) -> (u32, u32) {
    if op == 2 || op == 3 || op == 4 || op == 7 {
        let kind: u32 = if op == 2 {
            0
        } else if op == 3 {
            1
        } else if op == 4 {
            2
        } else {
            3
        };
        let (result, carry) = shifted_by(a, kind, b & 0xFF, carry);
        (result, nzcv(result, carry, overflow))
    } else if op == 9 {
        alu(3, b, 0, carry, overflow, carry)
    } else if op == 13 {
        (a.wrapping_mul(b), nzcv(a.wrapping_mul(b), carry, overflow))
    } else {
        alu(op, a, b, carry, overflow, carry)
    }
}

/// Whether the Thumb operation `op` on two registers writes its result: every operation
/// but the three tests.
pub open spec fn thumb_alu_writes(op: u32) -> bool {
    op != 8 && op != 10 && op != 11
}

/// Runs a Thumb operation on two registers.
pub fn run_thumb_alu(op: u32, a: u32, b: u32, carry: bool, overflow: bool) -> (r: (u32, u32))
    ensures
        r == thumb_alu(op, a, b, carry, overflow),
        r.1 & !0xF000_0000u32 == 0,
{
    if op == 2 || op == 3 || op == 4 || op == 7 {
        let kind: u32 = if op == 2 {
            0
        } else if op == 3 {
            1
        } else if op == 4 {
            2
        } else {
            3
        };
        proof {
            crate::bits::lemma_and_le_u32(b, 0xFF);
        }
        let (result, carry) = shift_by(a, kind, b & 0xFF, carry);
        (result, pack_nzcv(result, carry, overflow))
    } else if op == 9 {
        run_alu(3, b, 0, carry, overflow, carry)
    } else if op == 13 {
        let result = a.wrapping_mul(b);
        (result, pack_nzcv(result, carry, overflow))
    } else {
        run_alu(op, a, b, carry, overflow, carry)
    }
}

} // verus!
