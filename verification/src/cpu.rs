//! The instruction processor: architectural registers, flag semantics,
//! addressing modes, and the fetch-decode-execute step, with exact
//! cycle accounting through the shared bus counter.
use vstd::prelude::*;

use crate::Controller;
use crate::Fault;
use crate::mem::Memory;

verus! {

/// Whether an 8-bit result sets the negative flag: its high bit.
pub open spec fn flag_n(v: u8) -> bool {
    v >= 128
}

/// Whether an 8-bit result sets the zero flag.
pub open spec fn flag_z(v: u8) -> bool {
    v == 0
}

/// An 8-bit value read as a two's-complement integer.
pub open spec fn to_signed(v: u8) -> int {
    if v >= 128 {
        v - 256
    } else {
        v as int
    }
}

/// Whether an integer fits signed 8-bit range.
pub open spec fn in_i8(s: int) -> bool {
    -128 <= s <= 127
}

/// Wraps an integer into signed 8-bit range (one step each way is
/// enough for a single sum or difference of two such values).
pub open spec fn wrap_i8(s: int) -> int {
    if s > 127 {
        s - 256
    } else if s < -128 {
        s + 256
    } else {
        s
    }
}

/// The full add-with-carry sum, before truncation.
pub open spec fn adc_sum(a: u8, m: u8, c: bool) -> int {
    a + m + (if c {
        1int
    } else {
        0int
    })
}

/// The accumulator after add-with-carry.
pub open spec fn spec_adc_result(a: u8, m: u8, c: bool) -> u8 {
    (adc_sum(a, m, c) % 256) as u8
}

/// The carry flag after add-with-carry: the unsigned sum overflowed.
pub open spec fn spec_adc_carry(a: u8, m: u8, c: bool) -> bool {
    adc_sum(a, m, c) >= 256
}

/// The overflow flag after add-with-carry, from the two chained signed
/// additions: operand, then carry bit.
pub open spec fn spec_adc_overflow(a: u8, m: u8, c: bool) -> bool {
    let s1 = to_signed(a) + to_signed(m);
    let s2 = wrap_i8(s1) + (if c {
        1int
    } else {
        0int
    });
    !in_i8(s1) || !in_i8(s2)
}

/// The full subtract-with-carry difference (carry clear borrows),
/// before truncation.
pub open spec fn sbc_diff(a: u8, m: u8, c: bool) -> int {
    a - m - (if c {
        0int
    } else {
        1int
    })
}

/// The accumulator after subtract-with-carry.
pub open spec fn spec_sbc_result(a: u8, m: u8, c: bool) -> u8 {
    (sbc_diff(a, m, c) % 256) as u8
}

/// The carry flag after subtract-with-carry: no borrow occurred.
pub open spec fn spec_sbc_carry(a: u8, m: u8, c: bool) -> bool {
    sbc_diff(a, m, c) >= 0
}

/// The overflow flag after subtract-with-carry, from the two chained
/// signed subtractions: operand, then borrow bit.
pub open spec fn spec_sbc_overflow(a: u8, m: u8, c: bool) -> bool {
    let s1 = to_signed(a) - to_signed(m);
    let s2 = wrap_i8(s1) - (if c {
        0int
    } else {
        1int
    });
    !in_i8(s1) || !in_i8(s2)
}

/// A left shift of an 8-bit value, the high bit dropping out.
pub open spec fn spec_asl(v: u8) -> u8 {
    ((v % 128) * 2) as u8
}

/// A left rotate through the carry flag.
pub open spec fn spec_rol(v: u8, c: bool) -> u8 {
    ((v % 128) * 2 + (if c {
        1int
    } else {
        0int
    })) as u8
}

/// A right shift, the low bit dropping out.
pub open spec fn spec_lsr(v: u8) -> u8 {
    v / 2
}

/// A right rotate through the carry flag.
pub open spec fn spec_ror(v: u8, c: bool) -> u8 {
    ((v / 2) + (if c {
        128int
    } else {
        0int
    })) as u8
}

/// The program counter after a taken branch: the displacement is a
/// signed 8-bit offset, and the counter wraps.
pub open spec fn branch_target(pc: u16, disp: u8) -> u16 {
    pc.wrapping_add(
        if disp >= 128 {
            (disp + 0xff00) as u16
        } else {
            disp as u16
        },
    )
}

/// The extra cycles a taken branch costs: one, plus one more when the
/// target page differs from that of the instruction after the branch.
pub open spec fn branch_extra(pc: u16, disp: u8) -> u64 {
    if pc / 256 != branch_target(pc, disp) / 256 {
        2u64
    } else {
        1u64
    }
}

/// The processor's architectural registers. The six status flags have
/// their own storage; the two remaining status-word bits have none and
/// exist only in the byte pushed on the stack.
pub struct Cpu {
    /// The program counter; wraps modulo the address space.
    pub pc: u16,
    /// The accumulator.
    pub a: u8,
    /// Index register X.
    pub x: u8,
    /// Index register Y.
    pub y: u8,
    /// The stack pointer into the fixed stack page; wraps modulo 256.
    pub sp: u8,
    /// Negative.
    pub n: bool,
    /// Overflow.
    pub v: bool,
    /// Decimal (storable, never consulted).
    pub d: bool,
    /// Interrupt disable.
    pub i: bool,
    /// Zero.
    pub z: bool,
    /// Carry.
    pub c: bool,
}

/// The six stored flags packed into their status-word bit positions;
/// the two storage-less bits read as zero here.
pub open spec fn status_byte(cpu: Cpu) -> u8 {
    ((if cpu.n {
        128int
    } else {
        0int
    }) + (if cpu.v {
        64int
    } else {
        0int
    }) + (if cpu.d {
        8int
    } else {
        0int
    }) + (if cpu.i {
        4int
    } else {
        0int
    }) + (if cpu.z {
        2int
    } else {
        0int
    }) + (if cpu.c {
        1int
    } else {
        0int
    })) as u8
}

/// The byte the push-status instruction stores: the six flags with the
/// two storage-less bits forced set.
pub open spec fn pushed_status(cpu: Cpu) -> u8 {
    (status_byte(cpu) + 48) as u8
}

/// The flags a pulled status byte unpacks to; its bits 4 and 5 have no
/// storage and are dropped.
pub open spec fn unpack_n(b: u8) -> bool {
    (b / 128) % 2 == 1
}

pub open spec fn unpack_v(b: u8) -> bool {
    (b / 64) % 2 == 1
}

pub open spec fn unpack_d(b: u8) -> bool {
    (b / 8) % 2 == 1
}

pub open spec fn unpack_i(b: u8) -> bool {
    (b / 4) % 2 == 1
}

pub open spec fn unpack_z(b: u8) -> bool {
    (b / 2) % 2 == 1
}

pub open spec fn unpack_c(b: u8) -> bool {
    b % 2 == 1
}

/// An 8-bit value as a signed 32-bit integer.
fn to_signed_exec(v: u8) -> (r: i32)
    ensures
        r == to_signed(v),
{
    if v >= 128 {
        v as i32 - 256
    } else {
        v as i32
    }
}

impl Cpu {
    /// Load/transfer flag rule: negative from the high bit, zero from
    /// equality with zero, nothing else.
    pub fn lda(&mut self, value: u8)
        ensures
            *final(self) == (Cpu { a: value, n: flag_n(value), z: flag_z(value), ..*old(self) }),
    {
        self.n = value >= 128;
        self.z = value == 0;
        self.a = value;
    }

    pub fn ldx(&mut self, value: u8)
        ensures
            *final(self) == (Cpu { x: value, n: flag_n(value), z: flag_z(value), ..*old(self) }),
    {
        self.n = value >= 128;
        self.z = value == 0;
        self.x = value;
    }

    pub fn ldy(&mut self, value: u8)
        ensures
            *final(self) == (Cpu { y: value, n: flag_n(value), z: flag_z(value), ..*old(self) }),
    {
        self.n = value >= 128;
        self.z = value == 0;
        self.y = value;
    }

    /// Store operations expose the register; the bus write happens at
    /// the dispatch site.
    pub fn sta(&mut self) -> (r: u8)
        ensures
            r == old(self).a,
            *final(self) == *old(self),
    {
        self.a
    }

    pub fn stx(&mut self) -> (r: u8)
        ensures
            r == old(self).x,
            *final(self) == *old(self),
    {
        self.x
    }

    pub fn sty(&mut self) -> (r: u8)
        ensures
            r == old(self).y,
            *final(self) == *old(self),
    {
        self.y
    }

    pub fn tax(&mut self)
        ensures
            *final(self) == (Cpu {
                x: old(self).a,
                n: flag_n(old(self).a),
                z: flag_z(old(self).a),
                ..*old(self)
            }),
    {
        let r = self.a;
        self.n = r >= 128;
        self.z = r == 0;
        self.x = r;
    }

    pub fn tay(&mut self)
        ensures
            *final(self) == (Cpu {
                y: old(self).a,
                n: flag_n(old(self).a),
                z: flag_z(old(self).a),
                ..*old(self)
            }),
    {
        let r = self.a;
        self.n = r >= 128;
        self.z = r == 0;
        self.y = r;
    }

    pub fn txa(&mut self)
        ensures
            *final(self) == (Cpu {
                a: old(self).x,
                n: flag_n(old(self).x),
                z: flag_z(old(self).x),
                ..*old(self)
            }),
    {
        let r = self.x;
        self.n = r >= 128;
        self.z = r == 0;
        self.a = r;
    }

    pub fn tya(&mut self)
        ensures
            *final(self) == (Cpu {
                a: old(self).y,
                n: flag_n(old(self).y),
                z: flag_z(old(self).y),
                ..*old(self)
            }),
    {
        let r = self.y;
        self.n = r >= 128;
        self.z = r == 0;
        self.a = r;
    }

    pub fn tsx(&mut self)
        ensures
            *final(self) == (Cpu {
                x: old(self).sp,
                n: flag_n(old(self).sp),
                z: flag_z(old(self).sp),
                ..*old(self)
            }),
    {
        let r = self.sp;
        self.n = r >= 128;
        self.z = r == 0;
        self.x = r;
    }

    /// The one transfer that touches no flags.
    pub fn txs(&mut self)
        ensures
            *final(self) == (Cpu { sp: old(self).x, ..*old(self) }),
    {
        self.sp = self.x;
    }

    pub fn ora(&mut self, value: u8)
        ensures
            *final(self) == (Cpu {
                a: old(self).a | value,
                n: flag_n(old(self).a | value),
                z: flag_z(old(self).a | value),
                ..*old(self)
            }),
    {
        let r = self.a | value;
        self.n = r >= 128;
        self.z = r == 0;
        self.a = r;
    }

    pub fn and(&mut self, value: u8)
        ensures
            *final(self) == (Cpu {
                a: old(self).a & value,
                n: flag_n(old(self).a & value),
                z: flag_z(old(self).a & value),
                ..*old(self)
            }),
    {
        let r = self.a & value;
        self.n = r >= 128;
        self.z = r == 0;
        self.a = r;
    }

    pub fn eor(&mut self, value: u8)
        ensures
            *final(self) == (Cpu {
                a: old(self).a ^ value,
                n: flag_n(old(self).a ^ value),
                z: flag_z(old(self).a ^ value),
                ..*old(self)
            }),
    {
        let r = self.a ^ value;
        self.n = r >= 128;
        self.z = r == 0;
        self.a = r;
    }

    /// Add with carry: negative, zero and carry from the unsigned sum,
    /// overflow from the chained signed additions.
    pub fn adc(&mut self, value: u8)
        ensures
            *final(self) == (Cpu {
                a: spec_adc_result(old(self).a, value, old(self).c),
                n: flag_n(spec_adc_result(old(self).a, value, old(self).c)),
                z: flag_z(spec_adc_result(old(self).a, value, old(self).c)),
                c: spec_adc_carry(old(self).a, value, old(self).c),
                v: spec_adc_overflow(old(self).a, value, old(self).c),
                ..*old(self)
            }),
    {
        let carry_in: u32 = if self.c {
            1
        } else {
            0
        };
        let sum: u32 = self.a as u32 + value as u32 + carry_in;
        let result: u8 = (sum % 256) as u8;
        let s1: i32 = to_signed_exec(self.a) + to_signed_exec(value);
        let w1: i32 = if s1 > 127 {
            s1 - 256
        } else if s1 < -128 {
            s1 + 256
        } else {
            s1
        };
        let s2: i32 = w1 + carry_in as i32;
        self.v = s1 > 127 || s1 < -128 || s2 > 127 || s2 < -128;
        self.c = sum >= 256;
        self.n = result >= 128;
        self.z = result == 0;
        self.a = result;
    }

    /// Subtract with carry: carry is the logical NOT of the borrow,
    /// overflow from the chained signed subtractions.
    pub fn sbc(&mut self, value: u8)
        ensures
            *final(self) == (Cpu {
                a: spec_sbc_result(old(self).a, value, old(self).c),
                n: flag_n(spec_sbc_result(old(self).a, value, old(self).c)),
                z: flag_z(spec_sbc_result(old(self).a, value, old(self).c)),
                c: spec_sbc_carry(old(self).a, value, old(self).c),
                v: spec_sbc_overflow(old(self).a, value, old(self).c),
                ..*old(self)
            }),
    {
        let borrow: i32 = if self.c {
            0
        } else {
            1
        };
        let diff: i32 = self.a as i32 - value as i32 - borrow;
        let result: u8 = if diff >= 0 {
            diff as u8
        } else {
            (diff + 256) as u8
        };
        let s1: i32 = to_signed_exec(self.a) - to_signed_exec(value);
        let w1: i32 = if s1 > 127 {
            s1 - 256
        } else if s1 < -128 {
            s1 + 256
        } else {
            s1
        };
        let s2: i32 = w1 - borrow;
        self.v = s1 > 127 || s1 < -128 || s2 > 127 || s2 < -128;
        self.c = diff >= 0;
        self.n = result >= 128;
        self.z = result == 0;
        self.a = result;
    }

    /// Compare: unsigned subtraction for negative and zero; carry set
    /// means no borrow, that is, accumulator at least the operand.
    pub fn cmp(&mut self, value: u8)
        ensures
            *final(self) == (Cpu {
                n: flag_n(old(self).a.wrapping_sub(value)),
                z: flag_z(old(self).a.wrapping_sub(value)),
                c: old(self).a >= value,
                ..*old(self)
            }),
    {
        let r = self.a.wrapping_sub(value);
        self.n = r >= 128;
        self.z = r == 0;
        self.c = self.a >= value;
    }

    pub fn cpx(&mut self, value: u8)
        ensures
            *final(self) == (Cpu {
                n: flag_n(old(self).x.wrapping_sub(value)),
                z: flag_z(old(self).x.wrapping_sub(value)),
                c: old(self).x >= value,
                ..*old(self)
            }),
    {
        let r = self.x.wrapping_sub(value);
        self.n = r >= 128;
        self.z = r == 0;
        self.c = self.x >= value;
    }

    pub fn cpy(&mut self, value: u8)
        ensures
            *final(self) == (Cpu {
                n: flag_n(old(self).y.wrapping_sub(value)),
                z: flag_z(old(self).y.wrapping_sub(value)),
                c: old(self).y >= value,
                ..*old(self)
            }),
    {
        let r = self.y.wrapping_sub(value);
        self.n = r >= 128;
        self.z = r == 0;
        self.c = self.y >= value;
    }

    /// Bit test: negative and overflow from the operand's two high
    /// bits, zero from the masked accumulator.
    pub fn bit(&mut self, value: u8)
        ensures
            *final(self) == (Cpu {
                n: flag_n(value),
                v: (value / 64) % 2 == 1,
                z: flag_z(old(self).a & value),
                ..*old(self)
            }),
    {
        self.n = value >= 128;
        self.v = (value / 64) % 2 == 1;
        self.z = (self.a & value) == 0;
    }

    pub fn asl(&mut self, value: u8) -> (r: u8)
        ensures
            r == spec_asl(value),
            *final(self) == (Cpu {
                n: flag_n(spec_asl(value)),
                z: flag_z(spec_asl(value)),
                c: value >= 128,
                ..*old(self)
            }),
    {
        let r: u8 = (value % 128) * 2;
        self.n = r >= 128;
        self.z = r == 0;
        self.c = value >= 128;
        r
    }

    pub fn rol(&mut self, value: u8) -> (r: u8)
        ensures
            r == spec_rol(value, old(self).c),
            *final(self) == (Cpu {
                n: flag_n(spec_rol(value, old(self).c)),
                z: flag_z(spec_rol(value, old(self).c)),
                c: value >= 128,
                ..*old(self)
            }),
    {
        let r: u8 = (value % 128) * 2 + (if self.c {
            1
        } else {
            0
        });
        self.n = r >= 128;
        self.z = r == 0;
        self.c = value >= 128;
        r
    }

    pub fn lsr(&mut self, value: u8) -> (r: u8)
        ensures
            r == spec_lsr(value),
            *final(self) == (Cpu {
                n: flag_n(spec_lsr(value)),
                z: flag_z(spec_lsr(value)),
                c: value % 2 == 1,
                ..*old(self)
            }),
    {
        let r: u8 = value / 2;
        self.n = r >= 128;
        self.z = r == 0;
        self.c = value % 2 == 1;
        r
    }

    pub fn ror(&mut self, value: u8) -> (r: u8)
        ensures
            r == spec_ror(value, old(self).c),
            *final(self) == (Cpu {
                n: flag_n(spec_ror(value, old(self).c)),
                z: flag_z(spec_ror(value, old(self).c)),
                c: value % 2 == 1,
                ..*old(self)
            }),
    {
        let r: u8 = value / 2 + (if self.c {
            128
        } else {
            0
        });
        self.n = r >= 128;
        self.z = r == 0;
        self.c = value % 2 == 1;
        r
    }

    pub fn dec(&mut self, value: u8) -> (r: u8)
        ensures
            r == value.wrapping_sub(1),
            *final(self) == (Cpu {
                n: flag_n(value.wrapping_sub(1)),
                z: flag_z(value.wrapping_sub(1)),
                ..*old(self)
            }),
    {
        let r = value.wrapping_sub(1);
        self.n = r >= 128;
        self.z = r == 0;
        r
    }

    pub fn inc(&mut self, value: u8) -> (r: u8)
        ensures
            r == value.wrapping_add(1),
            *final(self) == (Cpu {
                n: flag_n(value.wrapping_add(1)),
                z: flag_z(value.wrapping_add(1)),
                ..*old(self)
            }),
    {
        let r = value.wrapping_add(1);
        self.n = r >= 128;
        self.z = r == 0;
        r
    }

    pub fn dex(&mut self)
        ensures
            *final(self) == (Cpu {
                x: old(self).x.wrapping_sub(1),
                n: flag_n(old(self).x.wrapping_sub(1)),
                z: flag_z(old(self).x.wrapping_sub(1)),
                ..*old(self)
            }),
    {
        let r = self.x.wrapping_sub(1);
        self.n = r >= 128;
        self.z = r == 0;
        self.x = r;
    }

    pub fn dey(&mut self)
        ensures
            *final(self) == (Cpu {
                y: old(self).y.wrapping_sub(1),
                n: flag_n(old(self).y.wrapping_sub(1)),
                z: flag_z(old(self).y.wrapping_sub(1)),
                ..*old(self)
            }),
    {
        let r = self.y.wrapping_sub(1);
        self.n = r >= 128;
        self.z = r == 0;
        self.y = r;
    }

    pub fn inx(&mut self)
        ensures
            *final(self) == (Cpu {
                x: old(self).x.wrapping_add(1),
                n: flag_n(old(self).x.wrapping_add(1)),
                z: flag_z(old(self).x.wrapping_add(1)),
                ..*old(self)
            }),
    {
        let r = self.x.wrapping_add(1);
        self.n = r >= 128;
        self.z = r == 0;
        self.x = r;
    }

    pub fn iny(&mut self)
        ensures
            *final(self) == (Cpu {
                y: old(self).y.wrapping_add(1),
                n: flag_n(old(self).y.wrapping_add(1)),
                z: flag_z(old(self).y.wrapping_add(1)),
                ..*old(self)
            }),
    {
        let r = self.y.wrapping_add(1);
        self.n = r >= 128;
        self.z = r == 0;
        self.y = r;
    }

    /// Flag-only instructions mutate exactly one flag.
    pub fn clc(&mut self)
        ensures
            *final(self) == (Cpu { c: false, ..*old(self) }),
    {
        self.c = false;
    }

    pub fn sec(&mut self)
        ensures
            *final(self) == (Cpu { c: true, ..*old(self) }),
    {
        self.c = true;
    }

    pub fn cli(&mut self)
        ensures
            *final(self) == (Cpu { i: false, ..*old(self) }),
    {
        self.i = false;
    }

    pub fn sei(&mut self)
        ensures
            *final(self) == (Cpu { i: true, ..*old(self) }),
    {
        self.i = true;
    }

    pub fn cld(&mut self)
        ensures
            *final(self) == (Cpu { d: false, ..*old(self) }),
    {
        self.d = false;
    }

    pub fn sed(&mut self)
        ensures
            *final(self) == (Cpu { d: true, ..*old(self) }),
    {
        self.d = true;
    }

    pub fn clv(&mut self)
        ensures
            *final(self) == (Cpu { v: false, ..*old(self) }),
    {
        self.v = false;
    }

    pub fn nop(&self)
    {
    }

    pub fn jmp(&mut self, value: u16)
        ensures
            *final(self) == (Cpu { pc: value, ..*old(self) }),
    {
        self.pc = value;
    }

    /// A taken branch adds the signed displacement to the program
    /// counter and reports its extra cycles; an untaken one is free.
    fn branch_if(&mut self, taken: bool, value: u8) -> (extra: u64)
        ensures
            taken ==> *final(self) == (Cpu {
                pc: branch_target(old(self).pc, value),
                ..*old(self)
            }) && extra == branch_extra(old(self).pc, value),
            !taken ==> *final(self) == *old(self) && extra == 0,
    {
        if taken {
            let old_page: u16 = self.pc / 256;
            let disp: u16 = if value >= 128 {
                value as u16 + 0xff00
            } else {
                value as u16
            };
            self.pc = self.pc.wrapping_add(disp);
            let new_page: u16 = self.pc / 256;
            if old_page != new_page {
                2
            } else {
                1
            }
        } else {
            0
        }
    }

    pub fn bpl(&mut self, value: u8) -> (extra: u64)
        ensures
            !old(self).n ==> *final(self) == (Cpu {
                pc: branch_target(old(self).pc, value),
                ..*old(self)
            }) && extra == branch_extra(old(self).pc, value),
            old(self).n ==> *final(self) == *old(self) && extra == 0,
    {
        let taken = !self.n;
        self.branch_if(taken, value)
    }

    pub fn bmi(&mut self, value: u8) -> (extra: u64)
        ensures
            old(self).n ==> *final(self) == (Cpu {
                pc: branch_target(old(self).pc, value),
                ..*old(self)
            }) && extra == branch_extra(old(self).pc, value),
            !old(self).n ==> *final(self) == *old(self) && extra == 0,
    {
        let taken = self.n;
        self.branch_if(taken, value)
    }

    pub fn bvc(&mut self, value: u8) -> (extra: u64)
        ensures
            !old(self).v ==> *final(self) == (Cpu {
                pc: branch_target(old(self).pc, value),
                ..*old(self)
            }) && extra == branch_extra(old(self).pc, value),
            old(self).v ==> *final(self) == *old(self) && extra == 0,
    {
        let taken = !self.v;
        self.branch_if(taken, value)
    }

    pub fn bvs(&mut self, value: u8) -> (extra: u64)
        ensures
            old(self).v ==> *final(self) == (Cpu {
                pc: branch_target(old(self).pc, value),
                ..*old(self)
            }) && extra == branch_extra(old(self).pc, value),
            !old(self).v ==> *final(self) == *old(self) && extra == 0,
    {
        let taken = self.v;
        self.branch_if(taken, value)
    }

    pub fn bcc(&mut self, value: u8) -> (extra: u64)
        ensures
            !old(self).c ==> *final(self) == (Cpu {
                pc: branch_target(old(self).pc, value),
                ..*old(self)
            }) && extra == branch_extra(old(self).pc, value),
            old(self).c ==> *final(self) == *old(self) && extra == 0,
    {
        let taken = !self.c;
        self.branch_if(taken, value)
    }

    pub fn bcs(&mut self, value: u8) -> (extra: u64)
        ensures
            old(self).c ==> *final(self) == (Cpu {
                pc: branch_target(old(self).pc, value),
                ..*old(self)
            }) && extra == branch_extra(old(self).pc, value),
            !old(self).c ==> *final(self) == *old(self) && extra == 0,
    {
        let taken = self.c;
        self.branch_if(taken, value)
    }

    pub fn bne(&mut self, value: u8) -> (extra: u64)
        ensures
            !old(self).z ==> *final(self) == (Cpu {
                pc: branch_target(old(self).pc, value),
                ..*old(self)
            }) && extra == branch_extra(old(self).pc, value),
            old(self).z ==> *final(self) == *old(self) && extra == 0,
    {
        let taken = !self.z;
        self.branch_if(taken, value)
    }

    pub fn beq(&mut self, value: u8) -> (extra: u64)
        ensures
            old(self).z ==> *final(self) == (Cpu {
                pc: branch_target(old(self).pc, value),
                ..*old(self)
            }) && extra == branch_extra(old(self).pc, value),
            !old(self).z ==> *final(self) == *old(self) && extra == 0,
    {
        let taken = self.z;
        self.branch_if(taken, value)
    }

    /// The software-interrupt opcode is not implemented: executing it
    /// is fatal.
    pub fn brk(&self) -> (r: Result<(), Fault>)
        ensures
            r == Err::<(), Fault>(Fault::UnimplementedOpcode(0)),
    {
        Err(Fault::UnimplementedOpcode(0))
    }
}


impl Cpu {
    /// The packed status byte, storage-less bits zero.
    pub fn status_u8(&self) -> (b: u8)
        ensures
            b == status_byte(*self),
    {
        (if self.n {
            128u8
        } else {
            0u8
        }) + (if self.v {
            64u8
        } else {
            0u8
        }) + (if self.d {
            8u8
        } else {
            0u8
        }) + (if self.i {
            4u8
        } else {
            0u8
        }) + (if self.z {
            2u8
        } else {
            0u8
        }) + (if self.c {
            1u8
        } else {
            0u8
        })
    }

    /// Push status: the six flags with the two storage-less bits
    /// forced set, onto the stack page; the pointer wraps down.
    pub fn php<C: Controller>(&mut self, bus: &mut Memory<C>) -> (r: Result<(), Fault>)
        requires
            old(bus).wf(),
            old(bus).cycles < 0xfff_0000,
        ensures
            r == Ok::<(), Fault>(()),
            final(bus).wf(),
            final(bus).same_rom(old(bus)),
            final(bus).cycles == old(bus).cycles + 2,
            final(bus).ram@ == old(bus).ram@.update(
                0x100 + old(self).sp as int,
                pushed_status(*old(self)),
            ),
            final(bus).same_ppu(old(bus)),
            final(bus).same_apu(old(bus)),
            final(bus).same_pads(old(bus)),
            final(bus).nmis == old(bus).nmis,
            *final(self) == (Cpu { sp: old(self).sp.wrapping_sub(1), ..*old(self) }),
    {
        let addr: u16 = 0x100 + self.sp as u16;
        let b: u8 = self.status_u8() + 48;
        let w = bus.write(addr, b);
        proof {
            assert(w is Ok);
        }
        self.sp = self.sp.wrapping_sub(1);
        bus.add_cycles(1);
        Ok(())
    }

    /// Push the accumulator.
    pub fn pha<C: Controller>(&mut self, bus: &mut Memory<C>) -> (r: Result<(), Fault>)
        requires
            old(bus).wf(),
            old(bus).cycles < 0xfff_0000,
        ensures
            r == Ok::<(), Fault>(()),
            final(bus).wf(),
            final(bus).same_rom(old(bus)),
            final(bus).cycles == old(bus).cycles + 2,
            final(bus).ram@ == old(bus).ram@.update(0x100 + old(self).sp as int, old(self).a),
            final(bus).same_ppu(old(bus)),
            final(bus).same_apu(old(bus)),
            final(bus).same_pads(old(bus)),
            final(bus).nmis == old(bus).nmis,
            *final(self) == (Cpu { sp: old(self).sp.wrapping_sub(1), ..*old(self) }),
    {
        let addr: u16 = 0x100 + self.sp as u16;
        let b: u8 = self.a;
        let w = bus.write(addr, b);
        proof {
            assert(w is Ok);
        }
        self.sp = self.sp.wrapping_sub(1);
        bus.add_cycles(1);
        Ok(())
    }

    /// Pull the accumulator, setting negative and zero.
    pub fn pla<C: Controller>(&mut self, bus: &mut Memory<C>) -> (r: Result<(), Fault>)
        requires
            old(bus).wf(),
            old(bus).cycles < 0xfff_0000,
        ensures
            r == Ok::<(), Fault>(()),
            final(bus).wf(),
            final(bus).only_cycles(old(bus)),
            final(bus).cycles == old(bus).cycles + 3,
            ({
                let v = old(bus).ram@[0x100 + old(self).sp.wrapping_add(1) as int];
                *final(self) == (Cpu {
                    sp: old(self).sp.wrapping_add(1),
                    a: v,
                    n: flag_n(v),
                    z: flag_z(v),
                    ..*old(self)
                })
            }),
    {
        self.sp = self.sp.wrapping_add(1);
        let addr: u16 = 0x100 + self.sp as u16;
        let v: u8 = match bus.read(addr) {
            Ok(v) => v,
            Err(_) => {
                proof {
                    assert(false);
                }
                0
            },
        };
        self.n = v >= 128;
        self.z = v == 0;
        self.a = v;
        bus.add_cycles(2);
        Ok(())
    }

    /// Pull status: the six stored flags come from the pulled byte;
    /// its two storage-less bits are dropped.
    pub fn plp<C: Controller>(&mut self, bus: &mut Memory<C>) -> (r: Result<(), Fault>)
        requires
            old(bus).wf(),
            old(bus).cycles < 0xfff_0000,
        ensures
            r == Ok::<(), Fault>(()),
            final(bus).wf(),
            final(bus).only_cycles(old(bus)),
            final(bus).cycles == old(bus).cycles + 3,
            ({
                let b = old(bus).ram@[0x100 + old(self).sp.wrapping_add(1) as int];
                *final(self) == (Cpu {
                    sp: old(self).sp.wrapping_add(1),
                    n: unpack_n(b),
                    v: unpack_v(b),
                    d: unpack_d(b),
                    i: unpack_i(b),
                    z: unpack_z(b),
                    c: unpack_c(b),
                    ..*old(self)
                })
            }),
    {
        self.sp = self.sp.wrapping_add(1);
        let addr: u16 = 0x100 + self.sp as u16;
        let b: u8 = match bus.read(addr) {
            Ok(v) => v,
            Err(_) => {
                proof {
                    assert(false);
                }
                0
            },
        };
        self.n = (b / 128) % 2 == 1;
        self.v = (b / 64) % 2 == 1;
        self.d = (b / 8) % 2 == 1;
        self.i = (b / 4) % 2 == 1;
        self.z = (b / 2) % 2 == 1;
        self.c = b % 2 == 1;
        bus.add_cycles(2);
        Ok(())
    }

    /// Subroutine call: pushes the return address less one, low byte at
    /// the lower stack slot, and jumps.
    pub fn jsr<C: Controller>(&mut self, bus: &mut Memory<C>, value: u16) -> (r: Result<
        (),
        Fault,
    >)
        requires
            old(bus).wf(),
            old(bus).cycles < 0xfff_0000,
        ensures
            r == Ok::<(), Fault>(()),
            final(bus).wf(),
            final(bus).same_rom(old(bus)),
            final(bus).cycles == old(bus).cycles + 3,
            ({
                let ret = old(self).pc.wrapping_sub(1);
                let base = 0x100 + old(self).sp.wrapping_sub(1) as int;
                final(bus).ram@ == old(bus).ram@.update(base, (ret % 256) as u8).update(
                    base + 1,
                    (ret / 256) as u8,
                )
            }),
            final(bus).same_ppu(old(bus)),
            final(bus).same_apu(old(bus)),
            final(bus).same_pads(old(bus)),
            final(bus).nmis == old(bus).nmis,
            *final(self) == (Cpu {
                pc: value,
                sp: old(self).sp.wrapping_sub(2),
                ..*old(self)
            }),
    {
        let addr: u16 = 0x100 + self.sp.wrapping_sub(1) as u16;
        let ret: u16 = self.pc.wrapping_sub(1);
        let w = bus.write16(addr, ret);
        proof {
            assert(w is Ok);
        }
        self.sp = self.sp.wrapping_sub(2);
        self.pc = value;
        bus.add_cycles(1);
        Ok(())
    }

    /// Subroutine return: pulls two bytes and adds one.
    pub fn rts<C: Controller>(&mut self, bus: &mut Memory<C>) -> (r: Result<(), Fault>)
        requires
            old(bus).wf(),
            old(bus).cycles < 0xfff_0000,
        ensures
            r == Ok::<(), Fault>(()),
            final(bus).wf(),
            final(bus).only_cycles(old(bus)),
            final(bus).cycles == old(bus).cycles + 5,
            *final(self) == (Cpu {
                pc: Memory::<C>::pure_16(
                    *old(bus),
                    (0x100 + old(self).sp.wrapping_add(1) as u16) as u16,
                ).wrapping_add(1),
                sp: old(self).sp.wrapping_add(2),
                ..*old(self)
            }),
    {
        self.sp = self.sp.wrapping_add(2);
        let addr: u16 = 0x100 + self.sp.wrapping_sub(1) as u16;
        let v: u16 = match bus.read16(addr) {
            Ok(v) => v,
            Err(_) => {
                proof {
                    assert(false);
                }
                0
            },
        };
        self.pc = v.wrapping_add(1);
        bus.add_cycles(3);
        Ok(())
    }

    /// Interrupt return: pulls status, then the program counter, in
    /// that order; the pulled status's storage-less bits are dropped.
    pub fn rti<C: Controller>(&mut self, bus: &mut Memory<C>) -> (r: Result<(), Fault>)
        requires
            old(bus).wf(),
            old(bus).cycles < 0xfff_0000,
        ensures
            r == Ok::<(), Fault>(()),
            final(bus).wf(),
            final(bus).only_cycles(old(bus)),
            final(bus).cycles == old(bus).cycles + 5,
            ({
                let b = old(bus).ram@[0x100 + old(self).sp.wrapping_add(1) as int];
                *final(self) == (Cpu {
                    sp: old(self).sp.wrapping_add(3),
                    pc: Memory::<C>::pure_16(
                        *old(bus),
                        (0x100 + old(self).sp.wrapping_add(2) as u16) as u16,
                    ),
                    n: unpack_n(b),
                    v: unpack_v(b),
                    d: unpack_d(b),
                    i: unpack_i(b),
                    z: unpack_z(b),
                    c: unpack_c(b),
                    ..*old(self)
                })
            }),
    {
        self.sp = self.sp.wrapping_add(1);
        let saddr: u16 = 0x100 + self.sp as u16;
        let b: u8 = match bus.read(saddr) {
            Ok(v) => v,
            Err(_) => {
                proof {
                    assert(false);
                }
                0
            },
        };
        self.n = (b / 128) % 2 == 1;
        self.v = (b / 64) % 2 == 1;
        self.d = (b / 8) % 2 == 1;
        self.i = (b / 4) % 2 == 1;
        self.z = (b / 2) % 2 == 1;
        self.c = b % 2 == 1;
        self.sp = self.sp.wrapping_add(2);
        let paddr: u16 = 0x100 + self.sp.wrapping_sub(1) as u16;
        let v: u16 = match bus.read16(paddr) {
            Ok(v) => v,
            Err(_) => {
                proof {
                    assert(false);
                }
                0
            },
        };
        self.pc = v;
        bus.add_cycles(2);
        Ok(())
    }

    /// Non-maskable interrupt delivery: pushes the program counter,
    /// then the raw status byte, and jumps through the fixed vector.
    /// The interrupt-disable flag is neither checked nor changed.
    pub fn nmi<C: Controller>(&mut self, bus: &mut Memory<C>) -> (r: Result<(), Fault>)
        requires
            old(bus).wf(),
            old(bus).cycles < 0xfff_0000,
        ensures
            r == Ok::<(), Fault>(()),
            final(bus).wf(),
            final(bus).same_rom(old(bus)),
            final(bus).cycles == old(bus).cycles + 5,
            ({
                let base = 0x100 + old(self).sp.wrapping_sub(1) as int;
                final(bus).ram@ == old(bus).ram@.update(
                    base,
                    (old(self).pc % 256) as u8,
                ).update(base + 1, (old(self).pc / 256) as u8).update(
                    0x100 + old(self).sp.wrapping_sub(2) as int,
                    status_byte(*old(self)),
                )
            }),
            final(bus).same_ppu(old(bus)),
            final(bus).same_apu(old(bus)),
            final(bus).same_pads(old(bus)),
            final(bus).nmis@ == old(bus).nmis@ + 1,
            *final(self) == (Cpu {
                pc: Memory::<C>::pure_16(*old(bus), 0xfffa),
                sp: old(self).sp.wrapping_sub(3),
                ..*old(self)
            }),
    {
        let addr: u16 = 0x100 + self.sp.wrapping_sub(1) as u16;
        let w = bus.write16(addr, self.pc);
        proof {
            assert(w is Ok);
        }
        self.sp = self.sp.wrapping_sub(2);
        let saddr: u16 = 0x100 + self.sp as u16;
        let b: u8 = self.status_u8();
        let w2 = bus.write(saddr, b);
        proof {
            assert(w2 is Ok);
        }
        self.sp = self.sp.wrapping_sub(1);
        let v: u16 = match bus.read16(0xfffa) {
            Ok(v) => v,
            Err(_) => {
                proof {
                    assert(false);
                }
                0
            },
        };
        self.pc = v;
        proof {
            bus.nmis@ = bus.nmis@ + 1;
        }
        Ok(())
    }

    /// Builds the processor, loading the program counter from the
    /// reset vector and zeroing the shared cycle counter.
    pub fn new<C: Controller>(bus: &mut Memory<C>) -> (cpu: Cpu)
        requires
            old(bus).wf(),
            old(bus).cycles < 0xfff_0000,
        ensures
            final(bus).wf(),
            final(bus).only_cycles(old(bus)),
            final(bus).cycles == 0,
            cpu == (Cpu {
                pc: Memory::<C>::pure_16(*old(bus), 0xfffc),
                a: 0,
                x: 0,
                y: 0,
                sp: 0,
                n: false,
                v: false,
                d: false,
                i: false,
                z: false,
                c: false,
            }),
    {
        let pc: u16 = match bus.read16(0xfffc) {
            Ok(v) => v,
            Err(_) => {
                proof {
                    assert(false);
                }
                0
            },
        };
        bus.cycles = 0;
        Cpu { pc, a: 0, x: 0, y: 0, sp: 0, n: false, v: false, d: false, i: false, z: false, c: false }
    }
}


impl Cpu {
    /// Immediate addressing: the operand is the next instruction byte.
    pub fn immediate(&mut self) -> (addr: u16)
        ensures
            addr == old(self).pc,
            *final(self) == (Cpu { pc: old(self).pc.wrapping_add(1), ..*old(self) }),
    {
        let addr = self.pc;
        self.pc = self.pc.wrapping_add(1);
        addr
    }

    /// Zero-page addressing: one operand byte names the address.
    pub fn zeropage<C: Controller>(&mut self, bus: &mut Memory<C>) -> (r: Result<u16, Fault>)
        requires
            old(bus).wf(),
            old(bus).cycles < 0xfff_0000,
        ensures
            final(bus).wf(),
            final(bus).same_rom(old(bus)),
            final(bus).same_ram(old(bus)),
            final(bus).ppu.renders == old(bus).ppu.renders,
            final(bus).nmis == old(bus).nmis,
            r matches Err(f) ==> f is BusReadViolation || f is VramReadOutOfRange,
            final(bus).cycles == old(bus).cycles + 1,
            r matches Ok(a) ==> a < 0x100 && *final(self) == (Cpu {
                pc: old(self).pc.wrapping_add(1),
                ..*old(self)
            }),
            r is Err ==> *final(self) == *old(self),
            Memory::<C>::pure_addr(old(self).pc) ==> r == Ok::<u16, Fault>(
                Memory::<C>::pure_byte(*old(bus), old(self).pc) as u16,
            ) && final(bus).only_cycles(old(bus)),
    {
        let b = bus.read(self.pc)?;
        self.pc = self.pc.wrapping_add(1);
        Ok(b as u16)
    }

    /// Zero-page indexed by X: the operand byte plus X, wrapping in
    /// the zero page; always one extra cycle.
    pub fn zeropage_x<C: Controller>(&mut self, bus: &mut Memory<C>) -> (r: Result<u16, Fault>)
        requires
            old(bus).wf(),
            old(bus).cycles < 0xfff_0000,
        ensures
            final(bus).wf(),
            final(bus).same_rom(old(bus)),
            final(bus).same_ram(old(bus)),
            final(bus).ppu.renders == old(bus).ppu.renders,
            final(bus).nmis == old(bus).nmis,
            r matches Err(f) ==> f is BusReadViolation || f is VramReadOutOfRange,
            r matches Ok(a) ==> a < 0x100 && *final(self) == (Cpu {
                pc: old(self).pc.wrapping_add(1),
                ..*old(self)
            }) && final(bus).cycles == old(bus).cycles + 2,
            r is Err ==> *final(self) == *old(self) && final(bus).cycles == old(bus).cycles + 1,
            Memory::<C>::pure_addr(old(self).pc) ==> r == Ok::<u16, Fault>(
                Memory::<C>::pure_byte(*old(bus), old(self).pc).wrapping_add(old(self).x) as u16,
            ) && final(bus).only_cycles(old(bus)),
    {
        let b = bus.read(self.pc)?;
        self.pc = self.pc.wrapping_add(1);
        bus.add_cycles(1);
        Ok(b.wrapping_add(self.x) as u16)
    }

    /// Zero-page indexed by Y, likewise.
    pub fn zeropage_y<C: Controller>(&mut self, bus: &mut Memory<C>) -> (r: Result<u16, Fault>)
        requires
            old(bus).wf(),
            old(bus).cycles < 0xfff_0000,
        ensures
            final(bus).wf(),
            final(bus).same_rom(old(bus)),
            final(bus).same_ram(old(bus)),
            final(bus).ppu.renders == old(bus).ppu.renders,
            final(bus).nmis == old(bus).nmis,
            r matches Err(f) ==> f is BusReadViolation || f is VramReadOutOfRange,
            r matches Ok(a) ==> a < 0x100 && *final(self) == (Cpu {
                pc: old(self).pc.wrapping_add(1),
                ..*old(self)
            }) && final(bus).cycles == old(bus).cycles + 2,
            r is Err ==> *final(self) == *old(self) && final(bus).cycles == old(bus).cycles + 1,
            Memory::<C>::pure_addr(old(self).pc) ==> r == Ok::<u16, Fault>(
                Memory::<C>::pure_byte(*old(bus), old(self).pc).wrapping_add(old(self).y) as u16,
            ) && final(bus).only_cycles(old(bus)),
    {
        let b = bus.read(self.pc)?;
        self.pc = self.pc.wrapping_add(1);
        bus.add_cycles(1);
        Ok(b.wrapping_add(self.y) as u16)
    }

    /// Absolute addressing: two operand bytes name the address.
    pub fn absolute<C: Controller>(&mut self, bus: &mut Memory<C>) -> (r: Result<u16, Fault>)
        requires
            old(bus).wf(),
            old(bus).cycles < 0xfff_0000,
        ensures
            final(bus).wf(),
            final(bus).same_rom(old(bus)),
            final(bus).same_ram(old(bus)),
            final(bus).ppu.renders == old(bus).ppu.renders,
            final(bus).nmis == old(bus).nmis,
            r matches Err(f) ==> f is BusReadViolation || f is VramReadOutOfRange,
            old(bus).cycles + 1 <= final(bus).cycles <= old(bus).cycles + 2,
            r is Ok ==> *final(self) == (Cpu {
                pc: old(self).pc.wrapping_add(2),
                ..*old(self)
            }) && final(bus).cycles == old(bus).cycles + 2,
            r is Err ==> *final(self) == *old(self),
            Memory::<C>::pure_pair(old(self).pc) ==> r == Ok::<u16, Fault>(
                Memory::<C>::pure_16(*old(bus), old(self).pc),
            ) && final(bus).only_cycles(old(bus)),
    {
        let a = bus.read16(self.pc)?;
        self.pc = self.pc.wrapping_add(2);
        Ok(a)
    }

    /// Absolute indexed by X: one extra cycle when the indexed address
    /// crosses a page, or always for a store, which performs the extra
    /// bus cycle regardless.
    pub fn absolute_x<C: Controller>(&mut self, bus: &mut Memory<C>, store: bool) -> (r: Result<
        u16,
        Fault,
    >)
        requires
            old(bus).wf(),
            old(bus).cycles < 0xfff_0000,
        ensures
            final(bus).wf(),
            final(bus).same_rom(old(bus)),
            final(bus).same_ram(old(bus)),
            final(bus).ppu.renders == old(bus).ppu.renders,
            final(bus).nmis == old(bus).nmis,
            r matches Err(f) ==> f is BusReadViolation || f is VramReadOutOfRange,
            old(bus).cycles + 1 <= final(bus).cycles <= old(bus).cycles + 3,
            r is Ok ==> *final(self) == (Cpu {
                pc: old(self).pc.wrapping_add(2),
                ..*old(self)
            }) && old(bus).cycles + 2 <= final(bus).cycles,
            r is Err ==> *final(self) == *old(self),
            Memory::<C>::pure_pair(old(self).pc) ==> ({
                let base = Memory::<C>::pure_16(*old(bus), old(self).pc);
                let a = base.wrapping_add(old(self).x as u16);
                r == Ok::<u16, Fault>(a) && final(bus).only_cycles(old(bus)) && final(bus).cycles
                    == old(bus).cycles + 2 + (if base / 256 != a / 256 || store {
                    1u64
                } else {
                    0u64
                })
            }),
    {
        let base = bus.read16(self.pc)?;
        let a = base.wrapping_add(self.x as u16);
        self.pc = self.pc.wrapping_add(2);
        if base / 256 != a / 256 || store {
            bus.add_cycles(1);
        }
        Ok(a)
    }

    /// Absolute indexed by Y, likewise.
    pub fn absolute_y<C: Controller>(&mut self, bus: &mut Memory<C>, store: bool) -> (r: Result<
        u16,
        Fault,
    >)
        requires
            old(bus).wf(),
            old(bus).cycles < 0xfff_0000,
        ensures
            final(bus).wf(),
            final(bus).same_rom(old(bus)),
            final(bus).same_ram(old(bus)),
            final(bus).ppu.renders == old(bus).ppu.renders,
            final(bus).nmis == old(bus).nmis,
            r matches Err(f) ==> f is BusReadViolation || f is VramReadOutOfRange,
            old(bus).cycles + 1 <= final(bus).cycles <= old(bus).cycles + 3,
            r is Ok ==> *final(self) == (Cpu {
                pc: old(self).pc.wrapping_add(2),
                ..*old(self)
            }) && old(bus).cycles + 2 <= final(bus).cycles,
            r is Err ==> *final(self) == *old(self),
            Memory::<C>::pure_pair(old(self).pc) ==> ({
                let base = Memory::<C>::pure_16(*old(bus), old(self).pc);
                let a = base.wrapping_add(old(self).y as u16);
                r == Ok::<u16, Fault>(a) && final(bus).only_cycles(old(bus)) && final(bus).cycles
                    == old(bus).cycles + 2 + (if base / 256 != a / 256 || store {
                    1u64
                } else {
                    0u64
                })
            }),
    {
        let base = bus.read16(self.pc)?;
        let a = base.wrapping_add(self.y as u16);
        self.pc = self.pc.wrapping_add(2);
        if base / 256 != a / 256 || store {
            bus.add_cycles(1);
        }
        Ok(a)
    }

    /// Indirect addressing, used only by the unconditional jump: the
    /// operand names a pointer, read without the historical page-wrap
    /// quirk.
    pub fn indirect<C: Controller>(&mut self, bus: &mut Memory<C>) -> (r: Result<u16, Fault>)
        requires
            old(bus).wf(),
            old(bus).cycles < 0xfff_0000,
        ensures
            final(bus).wf(),
            final(bus).same_rom(old(bus)),
            final(bus).same_ram(old(bus)),
            final(bus).ppu.renders == old(bus).ppu.renders,
            final(bus).nmis == old(bus).nmis,
            r matches Err(f) ==> f is BusReadViolation || f is VramReadOutOfRange,
            old(bus).cycles + 1 <= final(bus).cycles <= old(bus).cycles + 4,
            r is Ok ==> *final(self) == (Cpu {
                pc: old(self).pc.wrapping_add(2),
                ..*old(self)
            }),
            r is Err ==> *final(self) == *old(self) || *final(self) == (Cpu {
                pc: old(self).pc.wrapping_add(2),
                ..*old(self)
            }),
            (Memory::<C>::pure_pair(old(self).pc) && Memory::<C>::pure_pair(
                Memory::<C>::pure_16(*old(bus), old(self).pc),
            )) ==> r == Ok::<u16, Fault>(
                Memory::<C>::pure_16(*old(bus), Memory::<C>::pure_16(*old(bus), old(self).pc)),
            ) && final(bus).only_cycles(old(bus)) && final(bus).cycles == old(bus).cycles + 4,
    {
        let ptr = bus.read16(self.pc)?;
        self.pc = self.pc.wrapping_add(2);
        let a = bus.read16(ptr)?;
        Ok(a)
    }

    /// Indexed indirect: the operand byte plus X names a zero-page
    /// pointer; a fixed extra cycle.
    pub fn indirect_x<C: Controller>(&mut self, bus: &mut Memory<C>) -> (r: Result<u16, Fault>)
        requires
            old(bus).wf(),
            old(bus).cycles < 0xfff_0000,
        ensures
            final(bus).wf(),
            final(bus).same_rom(old(bus)),
            final(bus).same_ram(old(bus)),
            final(bus).ppu.renders == old(bus).ppu.renders,
            final(bus).nmis == old(bus).nmis,
            r matches Err(f) ==> f is BusReadViolation || f is VramReadOutOfRange,
            old(bus).cycles + 1 <= final(bus).cycles <= old(bus).cycles + 4,
            r is Ok ==> *final(self) == (Cpu {
                pc: old(self).pc.wrapping_add(1),
                ..*old(self)
            }) && final(bus).cycles == old(bus).cycles + 4,
            r is Err ==> *final(self) == *old(self),
            Memory::<C>::pure_addr(old(self).pc) ==> r == Ok::<u16, Fault>(
                Memory::<C>::pure_16(
                    *old(bus),
                    Memory::<C>::pure_byte(*old(bus), old(self).pc).wrapping_add(
                        old(self).x,
                    ) as u16,
                ),
            ) && final(bus).only_cycles(old(bus)),
    {
        let b = bus.read(self.pc)?;
        self.pc = self.pc.wrapping_add(1);
        let zp: u16 = b.wrapping_add(self.x) as u16;
        let a: u16 = match bus.read16(zp) {
            Ok(v) => v,
            Err(_) => {
                proof {
                    assert(false);
                }
                0
            },
        };
        bus.add_cycles(1);
        Ok(a)
    }

    /// Indirect indexed: the operand byte names a zero-page pointer,
    /// and Y indexes the value behind it; one extra cycle when a page
    /// is crossed, or always for a store.
    pub fn indirect_y<C: Controller>(&mut self, bus: &mut Memory<C>, store: bool) -> (r: Result<
        u16,
        Fault,
    >)
        requires
            old(bus).wf(),
            old(bus).cycles < 0xfff_0000,
        ensures
            final(bus).wf(),
            final(bus).same_rom(old(bus)),
            final(bus).same_ram(old(bus)),
            final(bus).ppu.renders == old(bus).ppu.renders,
            final(bus).nmis == old(bus).nmis,
            r matches Err(f) ==> f is BusReadViolation || f is VramReadOutOfRange,
            old(bus).cycles + 1 <= final(bus).cycles <= old(bus).cycles + 4,
            r is Ok ==> *final(self) == (Cpu {
                pc: old(self).pc.wrapping_add(1),
                ..*old(self)
            }) && old(bus).cycles + 3 <= final(bus).cycles,
            r is Err ==> *final(self) == *old(self),
            Memory::<C>::pure_addr(old(self).pc) ==> ({
                let zp = Memory::<C>::pure_byte(*old(bus), old(self).pc) as u16;
                let base = Memory::<C>::pure_16(*old(bus), zp);
                let a = base.wrapping_add(old(self).y as u16);
                r == Ok::<u16, Fault>(a) && final(bus).only_cycles(old(bus)) && final(bus).cycles
                    == old(bus).cycles + 3 + (if base / 256 != a / 256 || store {
                    1u64
                } else {
                    0u64
                })
            }),
    {
        let b = bus.read(self.pc)?;
        self.pc = self.pc.wrapping_add(1);
        let zp: u16 = b as u16;
        let base: u16 = match bus.read16(zp) {
            Ok(v) => v,
            Err(_) => {
                proof {
                    assert(false);
                }
                0
            },
        };
        let a = base.wrapping_add(self.y as u16);
        if base / 256 != a / 256 || store {
            bus.add_cycles(1);
        }
        Ok(a)
    }
}


/// An addressing mode of the instruction set.
#[derive(Debug, Copy, Clone, PartialEq, Eq, Structural)]
pub enum Mode {
    Implied,
    Accumulator,
    Immediate,
    ZeroPage,
    ZeroPageX,
    ZeroPageY,
    Absolute,
    AbsoluteX,
    AbsoluteY,
    Indirect,
    IndirectX,
    IndirectY,
}

/// An operation of the instruction set.
#[derive(Debug, Copy, Clone, PartialEq, Eq, Structural)]
pub enum Op {
    Php,
    Bpl,
    Clc,
    Jsr,
    Bit,
    Plp,
    Bmi,
    Sec,
    Rti,
    Pha,
    Jmp,
    Bvc,
    Cli,
    Rts,
    Pla,
    Bvs,
    Sei,
    Sty,
    Dey,
    Bcc,
    Tya,
    Ldy,
    Tay,
    Bcs,
    Clv,
    Cpy,
    Iny,
    Bne,
    Cld,
    Cpx,
    Inx,
    Beq,
    Sed,
    Ora,
    And,
    Eor,
    Adc,
    Sta,
    Lda,
    Cmp,
    Sbc,
    Asl,
    Rol,
    Lsr,
    Ror,
    Stx,
    Txa,
    Txs,
    Ldx,
    Tax,
    Tsx,
    Dec,
    Dex,
    Inc,
    Nop,
}

/// The fixed opcode table: each documented opcode's addressing mode
/// and operation. The software-interrupt opcode and everything
/// undocumented decode to nothing.
pub open spec fn spec_decode(opcode: u8) -> Option<(Mode, Op)> {
    match opcode {
        0x01 => Some((Mode::IndirectX, Op::Ora)),
        0x05 => Some((Mode::ZeroPage, Op::Ora)),
        0x06 => Some((Mode::ZeroPage, Op::Asl)),
        0x08 => Some((Mode::Implied, Op::Php)),
        0x09 => Some((Mode::Immediate, Op::Ora)),
        0x0a => Some((Mode::Accumulator, Op::Asl)),
        0x0d => Some((Mode::Absolute, Op::Ora)),
        0x0e => Some((Mode::Absolute, Op::Asl)),
        0x10 => Some((Mode::Immediate, Op::Bpl)),
        0x11 => Some((Mode::IndirectY, Op::Ora)),
        0x15 => Some((Mode::ZeroPageX, Op::Ora)),
        0x16 => Some((Mode::ZeroPageX, Op::Asl)),
        0x18 => Some((Mode::Implied, Op::Clc)),
        0x19 => Some((Mode::AbsoluteY, Op::Ora)),
        0x1d => Some((Mode::AbsoluteX, Op::Ora)),
        0x1e => Some((Mode::AbsoluteX, Op::Asl)),
        0x20 => Some((Mode::Absolute, Op::Jsr)),
        0x21 => Some((Mode::IndirectX, Op::And)),
        0x24 => Some((Mode::ZeroPage, Op::Bit)),
        0x25 => Some((Mode::ZeroPage, Op::And)),
        0x26 => Some((Mode::ZeroPage, Op::Rol)),
        0x28 => Some((Mode::Implied, Op::Plp)),
        0x29 => Some((Mode::Immediate, Op::And)),
        0x2a => Some((Mode::Accumulator, Op::Rol)),
        0x2c => Some((Mode::Absolute, Op::Bit)),
        0x2d => Some((Mode::Absolute, Op::And)),
        0x2e => Some((Mode::Absolute, Op::Rol)),
        0x30 => Some((Mode::Immediate, Op::Bmi)),
        0x31 => Some((Mode::IndirectY, Op::And)),
        0x35 => Some((Mode::ZeroPageX, Op::And)),
        0x36 => Some((Mode::ZeroPageX, Op::Rol)),
        0x38 => Some((Mode::Implied, Op::Sec)),
        0x39 => Some((Mode::AbsoluteY, Op::And)),
        0x3d => Some((Mode::AbsoluteX, Op::And)),
        0x3e => Some((Mode::AbsoluteX, Op::Rol)),
        0x40 => Some((Mode::Implied, Op::Rti)),
        0x41 => Some((Mode::IndirectX, Op::Eor)),
        0x45 => Some((Mode::ZeroPage, Op::Eor)),
        0x46 => Some((Mode::ZeroPage, Op::Lsr)),
        0x48 => Some((Mode::Implied, Op::Pha)),
        0x49 => Some((Mode::Immediate, Op::Eor)),
        0x4a => Some((Mode::Accumulator, Op::Lsr)),
        0x4c => Some((Mode::Absolute, Op::Jmp)),
        0x4d => Some((Mode::Absolute, Op::Eor)),
        0x4e => Some((Mode::Absolute, Op::Lsr)),
        0x50 => Some((Mode::Immediate, Op::Bvc)),
        0x51 => Some((Mode::IndirectY, Op::Eor)),
        0x55 => Some((Mode::ZeroPageX, Op::Eor)),
        0x56 => Some((Mode::ZeroPageX, Op::Lsr)),
        0x58 => Some((Mode::Implied, Op::Cli)),
        0x59 => Some((Mode::AbsoluteY, Op::Eor)),
        0x5d => Some((Mode::AbsoluteX, Op::Eor)),
        0x5e => Some((Mode::AbsoluteX, Op::Lsr)),
        0x60 => Some((Mode::Implied, Op::Rts)),
        0x61 => Some((Mode::IndirectX, Op::Adc)),
        0x65 => Some((Mode::ZeroPage, Op::Adc)),
        0x66 => Some((Mode::ZeroPage, Op::Ror)),
        0x68 => Some((Mode::Implied, Op::Pla)),
        0x69 => Some((Mode::Immediate, Op::Adc)),
        0x6a => Some((Mode::Accumulator, Op::Ror)),
        0x6c => Some((Mode::Indirect, Op::Jmp)),
        0x6d => Some((Mode::Absolute, Op::Adc)),
        0x6e => Some((Mode::Absolute, Op::Ror)),
        0x70 => Some((Mode::Immediate, Op::Bvs)),
        0x71 => Some((Mode::IndirectY, Op::Adc)),
        0x75 => Some((Mode::ZeroPageX, Op::Adc)),
        0x76 => Some((Mode::ZeroPageX, Op::Ror)),
        0x78 => Some((Mode::Implied, Op::Sei)),
        0x79 => Some((Mode::AbsoluteY, Op::Adc)),
        0x7d => Some((Mode::AbsoluteX, Op::Adc)),
        0x7e => Some((Mode::AbsoluteX, Op::Ror)),
        0x81 => Some((Mode::IndirectX, Op::Sta)),
        0x84 => Some((Mode::ZeroPage, Op::Sty)),
        0x85 => Some((Mode::ZeroPage, Op::Sta)),
        0x86 => Some((Mode::ZeroPage, Op::Stx)),
        0x88 => Some((Mode::Implied, Op::Dey)),
        0x8a => Some((Mode::Implied, Op::Txa)),
        0x8c => Some((Mode::Absolute, Op::Sty)),
        0x8d => Some((Mode::Absolute, Op::Sta)),
        0x8e => Some((Mode::Absolute, Op::Stx)),
        0x90 => Some((Mode::Immediate, Op::Bcc)),
        0x91 => Some((Mode::IndirectY, Op::Sta)),
        0x94 => Some((Mode::ZeroPageX, Op::Sty)),
        0x95 => Some((Mode::ZeroPageX, Op::Sta)),
        0x96 => Some((Mode::ZeroPageY, Op::Stx)),
        0x98 => Some((Mode::Implied, Op::Tya)),
        0x99 => Some((Mode::AbsoluteY, Op::Sta)),
        0x9a => Some((Mode::Implied, Op::Txs)),
        0x9d => Some((Mode::AbsoluteX, Op::Sta)),
        0xa0 => Some((Mode::Immediate, Op::Ldy)),
        0xa1 => Some((Mode::IndirectX, Op::Lda)),
        0xa2 => Some((Mode::Immediate, Op::Ldx)),
        0xa4 => Some((Mode::ZeroPage, Op::Ldy)),
        0xa5 => Some((Mode::ZeroPage, Op::Lda)),
        0xa6 => Some((Mode::ZeroPage, Op::Ldx)),
        0xa8 => Some((Mode::Implied, Op::Tay)),
        0xa9 => Some((Mode::Immediate, Op::Lda)),
        0xaa => Some((Mode::Implied, Op::Tax)),
        0xac => Some((Mode::Absolute, Op::Ldy)),
        0xad => Some((Mode::Absolute, Op::Lda)),
        0xae => Some((Mode::Absolute, Op::Ldx)),
        0xb0 => Some((Mode::Immediate, Op::Bcs)),
        0xb1 => Some((Mode::IndirectY, Op::Lda)),
        0xb4 => Some((Mode::ZeroPageX, Op::Ldy)),
        0xb5 => Some((Mode::ZeroPageX, Op::Lda)),
        0xb6 => Some((Mode::ZeroPageY, Op::Ldx)),
        0xb8 => Some((Mode::Implied, Op::Clv)),
        0xb9 => Some((Mode::AbsoluteY, Op::Lda)),
        0xba => Some((Mode::Implied, Op::Tsx)),
        0xbc => Some((Mode::AbsoluteX, Op::Ldy)),
        0xbd => Some((Mode::AbsoluteX, Op::Lda)),
        0xbe => Some((Mode::AbsoluteY, Op::Ldx)),
        0xc0 => Some((Mode::Immediate, Op::Cpy)),
        0xc1 => Some((Mode::IndirectX, Op::Cmp)),
        0xc4 => Some((Mode::ZeroPage, Op::Cpy)),
        0xc5 => Some((Mode::ZeroPage, Op::Cmp)),
        0xc6 => Some((Mode::ZeroPage, Op::Dec)),
        0xc8 => Some((Mode::Implied, Op::Iny)),
        0xc9 => Some((Mode::Immediate, Op::Cmp)),
        0xca => Some((Mode::Implied, Op::Dex)),
        0xcc => Some((Mode::Absolute, Op::Cpy)),
        0xcd => Some((Mode::Absolute, Op::Cmp)),
        0xce => Some((Mode::Absolute, Op::Dec)),
        0xd0 => Some((Mode::Immediate, Op::Bne)),
        0xd1 => Some((Mode::IndirectY, Op::Cmp)),
        0xd5 => Some((Mode::ZeroPageX, Op::Cmp)),
        0xd6 => Some((Mode::ZeroPageX, Op::Dec)),
        0xd8 => Some((Mode::Implied, Op::Cld)),
        0xd9 => Some((Mode::AbsoluteY, Op::Cmp)),
        0xdd => Some((Mode::AbsoluteX, Op::Cmp)),
        0xde => Some((Mode::AbsoluteX, Op::Dec)),
        0xe0 => Some((Mode::Immediate, Op::Cpx)),
        0xe1 => Some((Mode::IndirectX, Op::Sbc)),
        0xe4 => Some((Mode::ZeroPage, Op::Cpx)),
        0xe5 => Some((Mode::ZeroPage, Op::Sbc)),
        0xe6 => Some((Mode::ZeroPage, Op::Inc)),
        0xe8 => Some((Mode::Implied, Op::Inx)),
        0xe9 => Some((Mode::Immediate, Op::Sbc)),
        0xea => Some((Mode::Implied, Op::Nop)),
        0xec => Some((Mode::Absolute, Op::Cpx)),
        0xed => Some((Mode::Absolute, Op::Sbc)),
        0xee => Some((Mode::Absolute, Op::Inc)),
        0xf0 => Some((Mode::Immediate, Op::Beq)),
        0xf1 => Some((Mode::IndirectY, Op::Sbc)),
        0xf5 => Some((Mode::ZeroPageX, Op::Sbc)),
        0xf6 => Some((Mode::ZeroPageX, Op::Inc)),
        0xf8 => Some((Mode::Implied, Op::Sed)),
        0xf9 => Some((Mode::AbsoluteY, Op::Sbc)),
        0xfd => Some((Mode::AbsoluteX, Op::Sbc)),
        0xfe => Some((Mode::AbsoluteX, Op::Inc)),
        _ => None,
    }
}

/// Whether an opcode is part of the implemented instruction set.
pub open spec fn spec_opcode_implemented(opcode: u8) -> bool {
    spec_decode(opcode) is Some
}

/// Looks an opcode up in the fixed table.
pub fn decode(opcode: u8) -> (r: Option<(Mode, Op)>)
    ensures
        r == spec_decode(opcode),
{
    match opcode {
        0x01 => Some((Mode::IndirectX, Op::Ora)),
        0x05 => Some((Mode::ZeroPage, Op::Ora)),
        0x06 => Some((Mode::ZeroPage, Op::Asl)),
        0x08 => Some((Mode::Implied, Op::Php)),
        0x09 => Some((Mode::Immediate, Op::Ora)),
        0x0a => Some((Mode::Accumulator, Op::Asl)),
        0x0d => Some((Mode::Absolute, Op::Ora)),
        0x0e => Some((Mode::Absolute, Op::Asl)),
        0x10 => Some((Mode::Immediate, Op::Bpl)),
        0x11 => Some((Mode::IndirectY, Op::Ora)),
        0x15 => Some((Mode::ZeroPageX, Op::Ora)),
        0x16 => Some((Mode::ZeroPageX, Op::Asl)),
        0x18 => Some((Mode::Implied, Op::Clc)),
        0x19 => Some((Mode::AbsoluteY, Op::Ora)),
        0x1d => Some((Mode::AbsoluteX, Op::Ora)),
        0x1e => Some((Mode::AbsoluteX, Op::Asl)),
        0x20 => Some((Mode::Absolute, Op::Jsr)),
        0x21 => Some((Mode::IndirectX, Op::And)),
        0x24 => Some((Mode::ZeroPage, Op::Bit)),
        0x25 => Some((Mode::ZeroPage, Op::And)),
        0x26 => Some((Mode::ZeroPage, Op::Rol)),
        0x28 => Some((Mode::Implied, Op::Plp)),
        0x29 => Some((Mode::Immediate, Op::And)),
        0x2a => Some((Mode::Accumulator, Op::Rol)),
        0x2c => Some((Mode::Absolute, Op::Bit)),
        0x2d => Some((Mode::Absolute, Op::And)),
        0x2e => Some((Mode::Absolute, Op::Rol)),
        0x30 => Some((Mode::Immediate, Op::Bmi)),
        0x31 => Some((Mode::IndirectY, Op::And)),
        0x35 => Some((Mode::ZeroPageX, Op::And)),
        0x36 => Some((Mode::ZeroPageX, Op::Rol)),
        0x38 => Some((Mode::Implied, Op::Sec)),
        0x39 => Some((Mode::AbsoluteY, Op::And)),
        0x3d => Some((Mode::AbsoluteX, Op::And)),
        0x3e => Some((Mode::AbsoluteX, Op::Rol)),
        0x40 => Some((Mode::Implied, Op::Rti)),
        0x41 => Some((Mode::IndirectX, Op::Eor)),
        0x45 => Some((Mode::ZeroPage, Op::Eor)),
        0x46 => Some((Mode::ZeroPage, Op::Lsr)),
        0x48 => Some((Mode::Implied, Op::Pha)),
        0x49 => Some((Mode::Immediate, Op::Eor)),
        0x4a => Some((Mode::Accumulator, Op::Lsr)),
        0x4c => Some((Mode::Absolute, Op::Jmp)),
        0x4d => Some((Mode::Absolute, Op::Eor)),
        0x4e => Some((Mode::Absolute, Op::Lsr)),
        0x50 => Some((Mode::Immediate, Op::Bvc)),
        0x51 => Some((Mode::IndirectY, Op::Eor)),
        0x55 => Some((Mode::ZeroPageX, Op::Eor)),
        0x56 => Some((Mode::ZeroPageX, Op::Lsr)),
        0x58 => Some((Mode::Implied, Op::Cli)),
        0x59 => Some((Mode::AbsoluteY, Op::Eor)),
        0x5d => Some((Mode::AbsoluteX, Op::Eor)),
        0x5e => Some((Mode::AbsoluteX, Op::Lsr)),
        0x60 => Some((Mode::Implied, Op::Rts)),
        0x61 => Some((Mode::IndirectX, Op::Adc)),
        0x65 => Some((Mode::ZeroPage, Op::Adc)),
        0x66 => Some((Mode::ZeroPage, Op::Ror)),
        0x68 => Some((Mode::Implied, Op::Pla)),
        0x69 => Some((Mode::Immediate, Op::Adc)),
        0x6a => Some((Mode::Accumulator, Op::Ror)),
        0x6c => Some((Mode::Indirect, Op::Jmp)),
        0x6d => Some((Mode::Absolute, Op::Adc)),
        0x6e => Some((Mode::Absolute, Op::Ror)),
        0x70 => Some((Mode::Immediate, Op::Bvs)),
        0x71 => Some((Mode::IndirectY, Op::Adc)),
        0x75 => Some((Mode::ZeroPageX, Op::Adc)),
        0x76 => Some((Mode::ZeroPageX, Op::Ror)),
        0x78 => Some((Mode::Implied, Op::Sei)),
        0x79 => Some((Mode::AbsoluteY, Op::Adc)),
        0x7d => Some((Mode::AbsoluteX, Op::Adc)),
        0x7e => Some((Mode::AbsoluteX, Op::Ror)),
        0x81 => Some((Mode::IndirectX, Op::Sta)),
        0x84 => Some((Mode::ZeroPage, Op::Sty)),
        0x85 => Some((Mode::ZeroPage, Op::Sta)),
        0x86 => Some((Mode::ZeroPage, Op::Stx)),
        0x88 => Some((Mode::Implied, Op::Dey)),
        0x8a => Some((Mode::Implied, Op::Txa)),
        0x8c => Some((Mode::Absolute, Op::Sty)),
        0x8d => Some((Mode::Absolute, Op::Sta)),
        0x8e => Some((Mode::Absolute, Op::Stx)),
        0x90 => Some((Mode::Immediate, Op::Bcc)),
        0x91 => Some((Mode::IndirectY, Op::Sta)),
        0x94 => Some((Mode::ZeroPageX, Op::Sty)),
        0x95 => Some((Mode::ZeroPageX, Op::Sta)),
        0x96 => Some((Mode::ZeroPageY, Op::Stx)),
        0x98 => Some((Mode::Implied, Op::Tya)),
        0x99 => Some((Mode::AbsoluteY, Op::Sta)),
        0x9a => Some((Mode::Implied, Op::Txs)),
        0x9d => Some((Mode::AbsoluteX, Op::Sta)),
        0xa0 => Some((Mode::Immediate, Op::Ldy)),
        0xa1 => Some((Mode::IndirectX, Op::Lda)),
        0xa2 => Some((Mode::Immediate, Op::Ldx)),
        0xa4 => Some((Mode::ZeroPage, Op::Ldy)),
        0xa5 => Some((Mode::ZeroPage, Op::Lda)),
        0xa6 => Some((Mode::ZeroPage, Op::Ldx)),
        0xa8 => Some((Mode::Implied, Op::Tay)),
        0xa9 => Some((Mode::Immediate, Op::Lda)),
        0xaa => Some((Mode::Implied, Op::Tax)),
        0xac => Some((Mode::Absolute, Op::Ldy)),
        0xad => Some((Mode::Absolute, Op::Lda)),
        0xae => Some((Mode::Absolute, Op::Ldx)),
        0xb0 => Some((Mode::Immediate, Op::Bcs)),
        0xb1 => Some((Mode::IndirectY, Op::Lda)),
        0xb4 => Some((Mode::ZeroPageX, Op::Ldy)),
        0xb5 => Some((Mode::ZeroPageX, Op::Lda)),
        0xb6 => Some((Mode::ZeroPageY, Op::Ldx)),
        0xb8 => Some((Mode::Implied, Op::Clv)),
        0xb9 => Some((Mode::AbsoluteY, Op::Lda)),
        0xba => Some((Mode::Implied, Op::Tsx)),
        0xbc => Some((Mode::AbsoluteX, Op::Ldy)),
        0xbd => Some((Mode::AbsoluteX, Op::Lda)),
        0xbe => Some((Mode::AbsoluteY, Op::Ldx)),
        0xc0 => Some((Mode::Immediate, Op::Cpy)),
        0xc1 => Some((Mode::IndirectX, Op::Cmp)),
        0xc4 => Some((Mode::ZeroPage, Op::Cpy)),
        0xc5 => Some((Mode::ZeroPage, Op::Cmp)),
        0xc6 => Some((Mode::ZeroPage, Op::Dec)),
        0xc8 => Some((Mode::Implied, Op::Iny)),
        0xc9 => Some((Mode::Immediate, Op::Cmp)),
        0xca => Some((Mode::Implied, Op::Dex)),
        0xcc => Some((Mode::Absolute, Op::Cpy)),
        0xcd => Some((Mode::Absolute, Op::Cmp)),
        0xce => Some((Mode::Absolute, Op::Dec)),
        0xd0 => Some((Mode::Immediate, Op::Bne)),
        0xd1 => Some((Mode::IndirectY, Op::Cmp)),
        0xd5 => Some((Mode::ZeroPageX, Op::Cmp)),
        0xd6 => Some((Mode::ZeroPageX, Op::Dec)),
        0xd8 => Some((Mode::Implied, Op::Cld)),
        0xd9 => Some((Mode::AbsoluteY, Op::Cmp)),
        0xdd => Some((Mode::AbsoluteX, Op::Cmp)),
        0xde => Some((Mode::AbsoluteX, Op::Dec)),
        0xe0 => Some((Mode::Immediate, Op::Cpx)),
        0xe1 => Some((Mode::IndirectX, Op::Sbc)),
        0xe4 => Some((Mode::ZeroPage, Op::Cpx)),
        0xe5 => Some((Mode::ZeroPage, Op::Sbc)),
        0xe6 => Some((Mode::ZeroPage, Op::Inc)),
        0xe8 => Some((Mode::Implied, Op::Inx)),
        0xe9 => Some((Mode::Immediate, Op::Sbc)),
        0xea => Some((Mode::Implied, Op::Nop)),
        0xec => Some((Mode::Absolute, Op::Cpx)),
        0xed => Some((Mode::Absolute, Op::Sbc)),
        0xee => Some((Mode::Absolute, Op::Inc)),
        0xf0 => Some((Mode::Immediate, Op::Beq)),
        0xf1 => Some((Mode::IndirectY, Op::Sbc)),
        0xf5 => Some((Mode::ZeroPageX, Op::Sbc)),
        0xf6 => Some((Mode::ZeroPageX, Op::Inc)),
        0xf8 => Some((Mode::Implied, Op::Sed)),
        0xf9 => Some((Mode::AbsoluteY, Op::Sbc)),
        0xfd => Some((Mode::AbsoluteX, Op::Sbc)),
        0xfe => Some((Mode::AbsoluteX, Op::Inc)),
        _ => None,
    }
}

/// The resolved operand of one instruction: none, the accumulator,
/// or a bus address.
enum Operand {
    Nothing,
    InAccumulator,
    At(u16),
}


/// Whether a mode resolves an operand address at all.
pub open spec fn mode_addressed(mode: Mode) -> bool {
    !(mode is Implied || mode is Accumulator)
}

/// Whether every byte the mode itself fetches lies in plain memory,
/// so that its resolution has no side effect and is determined by the
/// bus's stores. `p1` is the program counter after the opcode fetch.
pub open spec fn spec_mode_pure<C: Controller>(bus: Memory<C>, p1: u16, mode: Mode) -> bool {
    match mode {
        Mode::Implied => true,
        Mode::Accumulator => true,
        Mode::Immediate => true,
        Mode::ZeroPage => Memory::<C>::pure_addr(p1),
        Mode::ZeroPageX => Memory::<C>::pure_addr(p1),
        Mode::ZeroPageY => Memory::<C>::pure_addr(p1),
        Mode::Absolute => Memory::<C>::pure_pair(p1),
        Mode::AbsoluteX => Memory::<C>::pure_pair(p1),
        Mode::AbsoluteY => Memory::<C>::pure_pair(p1),
        Mode::Indirect => Memory::<C>::pure_pair(p1) && Memory::<C>::pure_pair(
            Memory::<C>::pure_16(bus, p1),
        ),
        Mode::IndirectX => Memory::<C>::pure_addr(p1),
        Mode::IndirectY => Memory::<C>::pure_addr(p1),
    }
}

/// The effective operand address a pure mode resolution yields; the
/// unaddressed modes give 0, which no operation consults.
pub open spec fn spec_mode_addr<C: Controller>(
    bus: Memory<C>,
    p1: u16,
    mode: Mode,
    x: u8,
    y: u8,
) -> u16 {
    match mode {
        Mode::Implied => 0u16,
        Mode::Accumulator => 0u16,
        Mode::Immediate => p1,
        Mode::ZeroPage => Memory::<C>::pure_byte(bus, p1) as u16,
        Mode::ZeroPageX => Memory::<C>::pure_byte(bus, p1).wrapping_add(x) as u16,
        Mode::ZeroPageY => Memory::<C>::pure_byte(bus, p1).wrapping_add(y) as u16,
        Mode::Absolute => Memory::<C>::pure_16(bus, p1),
        Mode::AbsoluteX => Memory::<C>::pure_16(bus, p1).wrapping_add(x as u16),
        Mode::AbsoluteY => Memory::<C>::pure_16(bus, p1).wrapping_add(y as u16),
        Mode::Indirect => Memory::<C>::pure_16(bus, Memory::<C>::pure_16(bus, p1)),
        Mode::IndirectX => Memory::<C>::pure_16(
            bus,
            Memory::<C>::pure_byte(bus, p1).wrapping_add(x) as u16,
        ),
        Mode::IndirectY => Memory::<C>::pure_16(
            bus,
            Memory::<C>::pure_byte(bus, p1) as u16,
        ).wrapping_add(y as u16),
    }
}

/// The program counter after the mode's operand bytes are consumed.
pub open spec fn spec_mode_pc(p1: u16, mode: Mode) -> u16 {
    match mode {
        Mode::Implied => p1,
        Mode::Accumulator => p1,
        Mode::Immediate => p1.wrapping_add(1),
        Mode::ZeroPage => p1.wrapping_add(1),
        Mode::ZeroPageX => p1.wrapping_add(1),
        Mode::ZeroPageY => p1.wrapping_add(1),
        Mode::Absolute => p1.wrapping_add(2),
        Mode::AbsoluteX => p1.wrapping_add(2),
        Mode::AbsoluteY => p1.wrapping_add(2),
        Mode::Indirect => p1.wrapping_add(2),
        Mode::IndirectX => p1.wrapping_add(1),
        Mode::IndirectY => p1.wrapping_add(1),
    }
}

/// The bus cycles a pure mode resolution costs, `store` being the
/// operation's unconditional-extra-cycle flag.
pub open spec fn spec_mode_cycles<C: Controller>(
    bus: Memory<C>,
    p1: u16,
    mode: Mode,
    x: u8,
    y: u8,
    store: bool,
) -> u64 {
    match mode {
        Mode::Implied => 0u64,
        Mode::Accumulator => 0u64,
        Mode::Immediate => 0u64,
        Mode::ZeroPage => 1u64,
        Mode::ZeroPageX => 2u64,
        Mode::ZeroPageY => 2u64,
        Mode::Absolute => 2u64,
        Mode::AbsoluteX => {
            let base = Memory::<C>::pure_16(bus, p1);
            let a = base.wrapping_add(x as u16);
            (2 + (if base / 256 != a / 256 || store {
                1u64
            } else {
                0u64
            })) as u64
        },
        Mode::AbsoluteY => {
            let base = Memory::<C>::pure_16(bus, p1);
            let a = base.wrapping_add(y as u16);
            (2 + (if base / 256 != a / 256 || store {
                1u64
            } else {
                0u64
            })) as u64
        },
        Mode::Indirect => 4u64,
        Mode::IndirectX => 4u64,
        Mode::IndirectY => {
            let base = Memory::<C>::pure_16(bus, Memory::<C>::pure_byte(bus, p1) as u16);
            let a = base.wrapping_add(y as u16);
            (3 + (if base / 256 != a / 256 || store {
                1u64
            } else {
                0u64
            })) as u64
        },
    }
}

/// The operations that always perform the indexed extra bus cycle:
/// the stores, and the read-modify-write instructions.
pub open spec fn op_forces_extra(op: Op) -> bool {
    match op {
        Op::Sta | Op::Stx | Op::Sty | Op::Asl | Op::Rol | Op::Lsr | Op::Ror | Op::Dec
            | Op::Inc => true,
        _ => false,
    }
}

/// The operations that read their operand value off the bus: loads,
/// logic, arithmetic, compares, the bit test and the branches.
pub open spec fn op_reads_operand(op: Op) -> bool {
    match op {
        Op::Lda | Op::Ldx | Op::Ldy | Op::Ora | Op::And | Op::Eor | Op::Adc | Op::Sbc | Op::Cmp
            | Op::Cpx | Op::Cpy | Op::Bit | Op::Bpl | Op::Bmi | Op::Bvc | Op::Bvs | Op::Bcc
            | Op::Bcs | Op::Bne | Op::Beq => true,
        _ => false,
    }
}

/// The read-modify-write operations, which write their result back to
/// the operand address when one was resolved.
pub open spec fn op_writes_operand(op: Op) -> bool {
    match op {
        Op::Asl | Op::Rol | Op::Lsr | Op::Ror | Op::Dec | Op::Inc => true,
        _ => false,
    }
}

/// Whether one step of the processor is fully determined by the plain
/// stores: the opcode lies in plain memory and decodes, the operand
/// bytes lie in plain memory, any operand value read comes from plain
/// memory, and any operand write lands in internal RAM.
pub open spec fn spec_step_determined<C: Controller>(cpu: Cpu, bus: Memory<C>) -> bool {
    &&& Memory::<C>::pure_addr(cpu.pc)
    &&& match spec_decode(Memory::<C>::pure_byte(bus, cpu.pc)) {
        None => false,
        Some((mode, op)) => {
            let p1 = cpu.pc.wrapping_add(1);
            let addr = spec_mode_addr(bus, p1, mode, cpu.x, cpu.y);
            &&& spec_mode_pure(bus, p1, mode)
            &&& (op_reads_operand(op) ==> mode_addressed(mode) && Memory::<C>::pure_addr(addr))
            &&& (op is Sta || op is Stx || op is Sty ==> addr < 0x2000)
            &&& (op_writes_operand(op) && mode_addressed(mode) ==> addr < 0x2000)
        },
    }
}

/// One determined step of the processor: the fetched opcode's decoded
/// operation, applied through its addressing mode, with the exact flag
/// rules and cycle costs of each. The step's total cost is one cycle
/// for the opcode fetch, the mode's cycles, and the operation's own
/// bus and internal cycles.
pub open spec fn spec_step<C: Controller>(
    pre_cpu: Cpu,
    pre_bus: Memory<C>,
    post_cpu: Cpu,
    post_bus: Memory<C>,
) -> bool {
    match spec_decode(Memory::<C>::pure_byte(pre_bus, pre_cpu.pc)) {
        None => false,
        Some((mode, op)) => {
            let p1 = pre_cpu.pc.wrapping_add(1);
            let addr = spec_mode_addr(pre_bus, p1, mode, pre_cpu.x, pre_cpu.y);
            let cpu1 = Cpu { pc: spec_mode_pc(p1, mode), ..pre_cpu };
            let base = pre_bus.cycles + 1 + spec_mode_cycles(
                pre_bus,
                p1,
                mode,
                pre_cpu.x,
                pre_cpu.y,
                op_forces_extra(op),
            );
            let v = Memory::<C>::pure_byte(pre_bus, addr);
            let ram = pre_bus.ram@;
            &&& post_bus.same_ppu(&pre_bus)
            &&& post_bus.same_apu(&pre_bus)
            &&& post_bus.same_pads(&pre_bus)
            &&& post_bus.text@ == pre_bus.text@
            &&& post_bus.nmis == pre_bus.nmis
            &&& match op {
                Op::Lda => post_cpu == (Cpu { a: v, n: flag_n(v), z: flag_z(v), ..cpu1 })
                    && post_bus.ram@ == ram && post_bus.cycles == base + 1,
                Op::Ldx => post_cpu == (Cpu { x: v, n: flag_n(v), z: flag_z(v), ..cpu1 })
                    && post_bus.ram@ == ram && post_bus.cycles == base + 1,
                Op::Ldy => post_cpu == (Cpu { y: v, n: flag_n(v), z: flag_z(v), ..cpu1 })
                    && post_bus.ram@ == ram && post_bus.cycles == base + 1,
                Op::Ora => post_cpu == (Cpu {
                    a: pre_cpu.a | v,
                    n: flag_n(pre_cpu.a | v),
                    z: flag_z(pre_cpu.a | v),
                    ..cpu1
                }) && post_bus.ram@ == ram && post_bus.cycles == base + 1,
                Op::And => post_cpu == (Cpu {
                    a: pre_cpu.a & v,
                    n: flag_n(pre_cpu.a & v),
                    z: flag_z(pre_cpu.a & v),
                    ..cpu1
                }) && post_bus.ram@ == ram && post_bus.cycles == base + 1,
                Op::Eor => post_cpu == (Cpu {
                    a: pre_cpu.a ^ v,
                    n: flag_n(pre_cpu.a ^ v),
                    z: flag_z(pre_cpu.a ^ v),
                    ..cpu1
                }) && post_bus.ram@ == ram && post_bus.cycles == base + 1,
                Op::Adc => post_cpu == (Cpu {
                    a: spec_adc_result(pre_cpu.a, v, pre_cpu.c),
                    n: flag_n(spec_adc_result(pre_cpu.a, v, pre_cpu.c)),
                    z: flag_z(spec_adc_result(pre_cpu.a, v, pre_cpu.c)),
                    c: spec_adc_carry(pre_cpu.a, v, pre_cpu.c),
                    v: spec_adc_overflow(pre_cpu.a, v, pre_cpu.c),
                    ..cpu1
                }) && post_bus.ram@ == ram && post_bus.cycles == base + 1,
                Op::Sbc => post_cpu == (Cpu {
                    a: spec_sbc_result(pre_cpu.a, v, pre_cpu.c),
                    n: flag_n(spec_sbc_result(pre_cpu.a, v, pre_cpu.c)),
                    z: flag_z(spec_sbc_result(pre_cpu.a, v, pre_cpu.c)),
                    c: spec_sbc_carry(pre_cpu.a, v, pre_cpu.c),
                    v: spec_sbc_overflow(pre_cpu.a, v, pre_cpu.c),
                    ..cpu1
                }) && post_bus.ram@ == ram && post_bus.cycles == base + 1,
                Op::Cmp => post_cpu == (Cpu {
                    n: flag_n(pre_cpu.a.wrapping_sub(v)),
                    z: flag_z(pre_cpu.a.wrapping_sub(v)),
                    c: pre_cpu.a >= v,
                    ..cpu1
                }) && post_bus.ram@ == ram && post_bus.cycles == base + 1,
                Op::Cpx => post_cpu == (Cpu {
                    n: flag_n(pre_cpu.x.wrapping_sub(v)),
                    z: flag_z(pre_cpu.x.wrapping_sub(v)),
                    c: pre_cpu.x >= v,
                    ..cpu1
                }) && post_bus.ram@ == ram && post_bus.cycles == base + 1,
                Op::Cpy => post_cpu == (Cpu {
                    n: flag_n(pre_cpu.y.wrapping_sub(v)),
                    z: flag_z(pre_cpu.y.wrapping_sub(v)),
                    c: pre_cpu.y >= v,
                    ..cpu1
                }) && post_bus.ram@ == ram && post_bus.cycles == base + 1,
                Op::Bit => post_cpu == (Cpu {
                    n: flag_n(v),
                    v: (v / 64) % 2 == 1,
                    z: flag_z(pre_cpu.a & v),
                    ..cpu1
                }) && post_bus.ram@ == ram && post_bus.cycles == base + 1,
                Op::Bpl => spec_branch_step(cpu1, !pre_cpu.n, v, post_cpu) && post_bus.ram@ == ram
                    && post_bus.cycles == base + 1 + spec_branch_cycles(cpu1, !pre_cpu.n, v),
                Op::Bmi => spec_branch_step(cpu1, pre_cpu.n, v, post_cpu) && post_bus.ram@ == ram
                    && post_bus.cycles == base + 1 + spec_branch_cycles(cpu1, pre_cpu.n, v),
                Op::Bvc => spec_branch_step(cpu1, !pre_cpu.v, v, post_cpu) && post_bus.ram@ == ram
                    && post_bus.cycles == base + 1 + spec_branch_cycles(cpu1, !pre_cpu.v, v),
                Op::Bvs => spec_branch_step(cpu1, pre_cpu.v, v, post_cpu) && post_bus.ram@ == ram
                    && post_bus.cycles == base + 1 + spec_branch_cycles(cpu1, pre_cpu.v, v),
                Op::Bcc => spec_branch_step(cpu1, !pre_cpu.c, v, post_cpu) && post_bus.ram@ == ram
                    && post_bus.cycles == base + 1 + spec_branch_cycles(cpu1, !pre_cpu.c, v),
                Op::Bcs => spec_branch_step(cpu1, pre_cpu.c, v, post_cpu) && post_bus.ram@ == ram
                    && post_bus.cycles == base + 1 + spec_branch_cycles(cpu1, pre_cpu.c, v),
                Op::Bne => spec_branch_step(cpu1, !pre_cpu.z, v, post_cpu) && post_bus.ram@ == ram
                    && post_bus.cycles == base + 1 + spec_branch_cycles(cpu1, !pre_cpu.z, v),
                Op::Beq => spec_branch_step(cpu1, pre_cpu.z, v, post_cpu) && post_bus.ram@ == ram
                    && post_bus.cycles == base + 1 + spec_branch_cycles(cpu1, pre_cpu.z, v),
                Op::Sta => post_cpu == cpu1 && post_bus.ram@ == ram.update(
                    (addr % 0x800) as int,
                    pre_cpu.a,
                ) && post_bus.cycles == base + 1,
                Op::Stx => post_cpu == cpu1 && post_bus.ram@ == ram.update(
                    (addr % 0x800) as int,
                    pre_cpu.x,
                ) && post_bus.cycles == base + 1,
                Op::Sty => post_cpu == cpu1 && post_bus.ram@ == ram.update(
                    (addr % 0x800) as int,
                    pre_cpu.y,
                ) && post_bus.cycles == base + 1,
                Op::Asl => spec_rmw_step(
                    mode,
                    cpu1,
                    addr,
                    spec_asl(if mode_addressed(mode) {
                        v
                    } else {
                        pre_cpu.a
                    }),
                    (if mode_addressed(mode) {
                        v
                    } else {
                        pre_cpu.a
                    }) >= 128,
                    post_cpu,
                    ram,
                    post_bus.ram@,
                ) && post_bus.cycles == base + (if mode_addressed(mode) {
                    3u64
                } else {
                    1u64
                }),
                Op::Rol => spec_rmw_step(
                    mode,
                    cpu1,
                    addr,
                    spec_rol(
                        if mode_addressed(mode) {
                            v
                        } else {
                            pre_cpu.a
                        },
                        pre_cpu.c,
                    ),
                    (if mode_addressed(mode) {
                        v
                    } else {
                        pre_cpu.a
                    }) >= 128,
                    post_cpu,
                    ram,
                    post_bus.ram@,
                ) && post_bus.cycles == base + (if mode_addressed(mode) {
                    3u64
                } else {
                    1u64
                }),
                Op::Lsr => spec_rmw_step(
                    mode,
                    cpu1,
                    addr,
                    spec_lsr(if mode_addressed(mode) {
                        v
                    } else {
                        pre_cpu.a
                    }),
                    (if mode_addressed(mode) {
                        v
                    } else {
                        pre_cpu.a
                    }) % 2 == 1,
                    post_cpu,
                    ram,
                    post_bus.ram@,
                ) && post_bus.cycles == base + (if mode_addressed(mode) {
                    3u64
                } else {
                    1u64
                }),
                Op::Ror => spec_rmw_step(
                    mode,
                    cpu1,
                    addr,
                    spec_ror(
                        if mode_addressed(mode) {
                            v
                        } else {
                            pre_cpu.a
                        },
                        pre_cpu.c,
                    ),
                    (if mode_addressed(mode) {
                        v
                    } else {
                        pre_cpu.a
                    }) % 2 == 1,
                    post_cpu,
                    ram,
                    post_bus.ram@,
                ) && post_bus.cycles == base + (if mode_addressed(mode) {
                    3u64
                } else {
                    1u64
                }),
                Op::Dec => (if mode_addressed(mode) {
                    post_cpu == (Cpu {
                        n: flag_n(v.wrapping_sub(1)),
                        z: flag_z(v.wrapping_sub(1)),
                        ..cpu1
                    }) && post_bus.ram@ == ram.update((addr % 0x800) as int, v.wrapping_sub(1))
                        && post_bus.cycles == base + 3
                } else {
                    post_cpu == cpu1 && post_bus.ram@ == ram && post_bus.cycles == base + 1
                }),
                Op::Inc => (if mode_addressed(mode) {
                    post_cpu == (Cpu {
                        n: flag_n(v.wrapping_add(1)),
                        z: flag_z(v.wrapping_add(1)),
                        ..cpu1
                    }) && post_bus.ram@ == ram.update((addr % 0x800) as int, v.wrapping_add(1))
                        && post_bus.cycles == base + 3
                } else {
                    post_cpu == cpu1 && post_bus.ram@ == ram && post_bus.cycles == base + 1
                }),
                Op::Jmp => post_cpu == (Cpu { pc: addr, ..cpu1 }) && post_bus.ram@ == ram
                    && post_bus.cycles == base,
                Op::Jsr => post_cpu == (Cpu {
                    pc: addr,
                    sp: pre_cpu.sp.wrapping_sub(2),
                    ..cpu1
                }) && post_bus.ram@ == ram.update(
                    0x100 + pre_cpu.sp.wrapping_sub(1) as int,
                    (cpu1.pc.wrapping_sub(1) % 256) as u8,
                ).update(
                    0x100 + pre_cpu.sp.wrapping_sub(1) as int + 1,
                    (cpu1.pc.wrapping_sub(1) / 256) as u8,
                ) && post_bus.cycles == base + 3,
                Op::Rts => post_cpu == (Cpu {
                    pc: Memory::<C>::pure_16(
                        pre_bus,
                        (0x100 + pre_cpu.sp.wrapping_add(1) as u16) as u16,
                    ).wrapping_add(1),
                    sp: pre_cpu.sp.wrapping_add(2),
                    ..cpu1
                }) && post_bus.ram@ == ram && post_bus.cycles == base + 5,
                Op::Rti => ({
                    let b = ram[0x100 + pre_cpu.sp.wrapping_add(1) as int];
                    post_cpu == (Cpu {
                        pc: Memory::<C>::pure_16(
                            pre_bus,
                            (0x100 + pre_cpu.sp.wrapping_add(2) as u16) as u16,
                        ),
                        sp: pre_cpu.sp.wrapping_add(3),
                        n: unpack_n(b),
                        v: unpack_v(b),
                        d: unpack_d(b),
                        i: unpack_i(b),
                        z: unpack_z(b),
                        c: unpack_c(b),
                        ..cpu1
                    }) && post_bus.ram@ == ram && post_bus.cycles == base + 5
                }),
                Op::Php => post_cpu == (Cpu { sp: pre_cpu.sp.wrapping_sub(1), ..cpu1 })
                    && post_bus.ram@ == ram.update(
                    0x100 + pre_cpu.sp as int,
                    pushed_status(cpu1),
                ) && post_bus.cycles == base + 2,
                Op::Pha => post_cpu == (Cpu { sp: pre_cpu.sp.wrapping_sub(1), ..cpu1 })
                    && post_bus.ram@ == ram.update(0x100 + pre_cpu.sp as int, pre_cpu.a)
                    && post_bus.cycles == base + 2,
                Op::Pla => ({
                    let pv = ram[0x100 + pre_cpu.sp.wrapping_add(1) as int];
                    post_cpu == (Cpu {
                        sp: pre_cpu.sp.wrapping_add(1),
                        a: pv,
                        n: flag_n(pv),
                        z: flag_z(pv),
                        ..cpu1
                    }) && post_bus.ram@ == ram && post_bus.cycles == base + 3
                }),
                Op::Plp => ({
                    let b = ram[0x100 + pre_cpu.sp.wrapping_add(1) as int];
                    post_cpu == (Cpu {
                        sp: pre_cpu.sp.wrapping_add(1),
                        n: unpack_n(b),
                        v: unpack_v(b),
                        d: unpack_d(b),
                        i: unpack_i(b),
                        z: unpack_z(b),
                        c: unpack_c(b),
                        ..cpu1
                    }) && post_bus.ram@ == ram && post_bus.cycles == base + 3
                }),
                Op::Tax => post_cpu == (Cpu {
                    x: pre_cpu.a,
                    n: flag_n(pre_cpu.a),
                    z: flag_z(pre_cpu.a),
                    ..cpu1
                }) && post_bus.ram@ == ram && post_bus.cycles == base + 1,
                Op::Tay => post_cpu == (Cpu {
                    y: pre_cpu.a,
                    n: flag_n(pre_cpu.a),
                    z: flag_z(pre_cpu.a),
                    ..cpu1
                }) && post_bus.ram@ == ram && post_bus.cycles == base + 1,
                Op::Txa => post_cpu == (Cpu {
                    a: pre_cpu.x,
                    n: flag_n(pre_cpu.x),
                    z: flag_z(pre_cpu.x),
                    ..cpu1
                }) && post_bus.ram@ == ram && post_bus.cycles == base + 1,
                Op::Tya => post_cpu == (Cpu {
                    a: pre_cpu.y,
                    n: flag_n(pre_cpu.y),
                    z: flag_z(pre_cpu.y),
                    ..cpu1
                }) && post_bus.ram@ == ram && post_bus.cycles == base + 1,
                Op::Tsx => post_cpu == (Cpu {
                    x: pre_cpu.sp,
                    n: flag_n(pre_cpu.sp),
                    z: flag_z(pre_cpu.sp),
                    ..cpu1
                }) && post_bus.ram@ == ram && post_bus.cycles == base + 1,
                Op::Txs => post_cpu == (Cpu { sp: pre_cpu.x, ..cpu1 }) && post_bus.ram@ == ram
                    && post_bus.cycles == base + 1,
                Op::Dex => post_cpu == (Cpu {
                    x: pre_cpu.x.wrapping_sub(1),
                    n: flag_n(pre_cpu.x.wrapping_sub(1)),
                    z: flag_z(pre_cpu.x.wrapping_sub(1)),
                    ..cpu1
                }) && post_bus.ram@ == ram && post_bus.cycles == base + 1,
                Op::Dey => post_cpu == (Cpu {
                    y: pre_cpu.y.wrapping_sub(1),
                    n: flag_n(pre_cpu.y.wrapping_sub(1)),
                    z: flag_z(pre_cpu.y.wrapping_sub(1)),
                    ..cpu1
                }) && post_bus.ram@ == ram && post_bus.cycles == base + 1,
                Op::Inx => post_cpu == (Cpu {
                    x: pre_cpu.x.wrapping_add(1),
                    n: flag_n(pre_cpu.x.wrapping_add(1)),
                    z: flag_z(pre_cpu.x.wrapping_add(1)),
                    ..cpu1
                }) && post_bus.ram@ == ram && post_bus.cycles == base + 1,
                Op::Iny => post_cpu == (Cpu {
                    y: pre_cpu.y.wrapping_add(1),
                    n: flag_n(pre_cpu.y.wrapping_add(1)),
                    z: flag_z(pre_cpu.y.wrapping_add(1)),
                    ..cpu1
                }) && post_bus.ram@ == ram && post_bus.cycles == base + 1,
                Op::Clc => post_cpu == (Cpu { c: false, ..cpu1 }) && post_bus.ram@ == ram
                    && post_bus.cycles == base + 1,
                Op::Sec => post_cpu == (Cpu { c: true, ..cpu1 }) && post_bus.ram@ == ram
                    && post_bus.cycles == base + 1,
                Op::Cli => post_cpu == (Cpu { i: false, ..cpu1 }) && post_bus.ram@ == ram
                    && post_bus.cycles == base + 1,
                Op::Sei => post_cpu == (Cpu { i: true, ..cpu1 }) && post_bus.ram@ == ram
                    && post_bus.cycles == base + 1,
                Op::Cld => post_cpu == (Cpu { d: false, ..cpu1 }) && post_bus.ram@ == ram
                    && post_bus.cycles == base + 1,
                Op::Sed => post_cpu == (Cpu { d: true, ..cpu1 }) && post_bus.ram@ == ram
                    && post_bus.cycles == base + 1,
                Op::Clv => post_cpu == (Cpu { v: false, ..cpu1 }) && post_bus.ram@ == ram
                    && post_bus.cycles == base + 1,
                Op::Nop => post_cpu == cpu1 && post_bus.ram@ == ram && post_bus.cycles == base
                    + 1,
            }
        },
    }
}

/// A branch's effect on the processor: the signed displacement is
/// taken when the tested condition holds.
pub open spec fn spec_branch_step(cpu1: Cpu, taken: bool, disp: u8, post_cpu: Cpu) -> bool {
    if taken {
        post_cpu == (Cpu { pc: branch_target(cpu1.pc, disp), ..cpu1 })
    } else {
        post_cpu == cpu1
    }
}

/// A branch's extra cycles beyond its operand read.
pub open spec fn spec_branch_cycles(cpu1: Cpu, taken: bool, disp: u8) -> u64 {
    if taken {
        branch_extra(cpu1.pc, disp)
    } else {
        0u64
    }
}

/// A shift or rotate's effect: on the accumulator for the
/// accumulator form, written back to RAM for the memory form, with
/// negative and zero from the result and carry from the shifted-out
/// bit.
pub open spec fn spec_rmw_step(
    mode: Mode,
    cpu1: Cpu,
    addr: u16,
    result: u8,
    carry: bool,
    post_cpu: Cpu,
    ram: Seq<u8>,
    post_ram: Seq<u8>,
) -> bool {
    if mode_addressed(mode) {
        post_cpu == (Cpu { n: flag_n(result), z: flag_z(result), c: carry, ..cpu1 }) && post_ram
            == ram.update((addr % 0x800) as int, result)
    } else {
        post_cpu == (Cpu { a: result, n: flag_n(result), z: flag_z(result), c: carry, ..cpu1 })
            && post_ram == ram
    }
}

impl Cpu {
    /// The operand value: the byte at the resolved address, costing
    /// one cycle, or the accumulator for accumulator and implied
    /// forms.
    fn value_at<C: Controller>(&self, bus: &mut Memory<C>, operand: Operand) -> (r: Result<
        u8,
        Fault,
    >)
        requires
            old(bus).wf(),
            old(bus).cycles < 0xfff_0000,
        ensures
            final(bus).wf(),
            final(bus).same_rom(old(bus)),
            final(bus).same_ram(old(bus)),
            final(bus).ppu.renders == old(bus).ppu.renders,
            final(bus).nmis == old(bus).nmis,
            old(bus).cycles <= final(bus).cycles <= old(bus).cycles + 1,
            r matches Err(f) ==> f is BusReadViolation || f is VramReadOutOfRange,
            operand matches Operand::At(a) ==> final(bus).cycles == old(bus).cycles + 1 && (
            Memory::<C>::pure_addr(a) ==> r == Ok::<u8, Fault>(Memory::<C>::pure_byte(*old(bus), a))
                && final(bus).only_cycles(old(bus))),
            !(operand matches Operand::At(a)) ==> r == Ok::<u8, Fault>(self.a) && *final(bus)
                == *old(bus),
    {
        match operand {
            Operand::At(a) => bus.read(a),
            _ => Ok(self.a),
        }
    }

    /// One step of the processor: fetch the opcode at the program
    /// counter, decode it through the fixed table, resolve the operand
    /// by the addressing mode, execute, and advance the shared cycle
    /// counter by the instruction's exact cost. Decoding an opcode
    /// outside the table, the software interrupt included, is fatal.
    /// Applies an operation that reads its operand value off the bus:
    /// loads, logic, arithmetic, compares, the bit test and the
    /// branches.
    #[verifier::rlimit(100)]
    fn apply_read_op<C: Controller>(
        &mut self,
        bus: &mut Memory<C>,
        op: Op,
        mode: Mode,
        operand: Operand,
        Ghost(pre_cpu): Ghost<Cpu>,
        Ghost(pre_bus): Ghost<Memory<C>>,
    ) -> (r: Result<(), Fault>)
        requires
            op_reads_operand(op),
            old(bus).wf(),
            old(bus).cycles < 0xff0_0000 + 8,
            (spec_step_determined(pre_cpu, pre_bus) && spec_decode(
                Memory::<C>::pure_byte(pre_bus, pre_cpu.pc),
            ) == Some((mode, op))) ==> ({
                let p1 = pre_cpu.pc.wrapping_add(1);
                &&& *old(self) == (Cpu { pc: spec_mode_pc(p1, mode), ..pre_cpu })
                &&& old(bus).ram@ == pre_bus.ram@
                &&& old(bus).text@ == pre_bus.text@
                &&& old(bus).same_ppu(&pre_bus)
                &&& old(bus).same_apu(&pre_bus)
                &&& old(bus).same_pads(&pre_bus)
                &&& old(bus).nmis == pre_bus.nmis
                &&& old(bus).cycles == pre_bus.cycles + 1 + spec_mode_cycles(
                    pre_bus,
                    p1,
                    mode,
                    pre_cpu.x,
                    pre_cpu.y,
                    op_forces_extra(op),
                )
                &&& (mode_addressed(mode) ==> operand == Operand::At(
                    spec_mode_addr(pre_bus, p1, mode, pre_cpu.x, pre_cpu.y),
                ))
                &&& (!mode_addressed(mode) ==> !(operand is At))
            }),
        ensures
            final(bus).wf(),
            final(bus).same_rom(old(bus)),
            final(bus).ppu.renders == old(bus).ppu.renders,
            final(bus).nmis == old(bus).nmis,
            old(bus).cycles <= final(bus).cycles <= old(bus).cycles + 300,
            r matches Err(f) ==> !(f is UnimplementedOpcode),
            (spec_step_determined(pre_cpu, pre_bus) && spec_decode(
                Memory::<C>::pure_byte(pre_bus, pre_cpu.pc),
            ) == Some((mode, op))) ==> r == Ok::<(), Fault>(()) && spec_step(
                pre_cpu,
                pre_bus,
                *final(self),
                *final(bus),
            ),
    {
        let addr: u16 = match operand {
            Operand::At(a) => a,
            _ => 0,
        };
        match op {
            Op::Lda => {
                let v = self.value_at(bus, operand)?;
                self.lda(v);
            },
            Op::Ldx => {
                let v = self.value_at(bus, operand)?;
                self.ldx(v);
            },
            Op::Ldy => {
                let v = self.value_at(bus, operand)?;
                self.ldy(v);
            },
            Op::Ora => {
                let v = self.value_at(bus, operand)?;
                self.ora(v);
            },
            Op::And => {
                let v = self.value_at(bus, operand)?;
                self.and(v);
            },
            Op::Eor => {
                let v = self.value_at(bus, operand)?;
                self.eor(v);
            },
            Op::Adc => {
                let v = self.value_at(bus, operand)?;
                self.adc(v);
            },
            Op::Sbc => {
                let v = self.value_at(bus, operand)?;
                self.sbc(v);
            },
            Op::Cmp => {
                let v = self.value_at(bus, operand)?;
                self.cmp(v);
            },
            Op::Cpx => {
                let v = self.value_at(bus, operand)?;
                self.cpx(v);
            },
            Op::Cpy => {
                let v = self.value_at(bus, operand)?;
                self.cpy(v);
            },
            Op::Bit => {
                let v = self.value_at(bus, operand)?;
                self.bit(v);
            },
            Op::Bpl => {
                let v = self.value_at(bus, operand)?;
                let e = self.bpl(v);
                bus.add_cycles(e);
            },
            Op::Bmi => {
                let v = self.value_at(bus, operand)?;
                let e = self.bmi(v);
                bus.add_cycles(e);
            },
            Op::Bvc => {
                let v = self.value_at(bus, operand)?;
                let e = self.bvc(v);
                bus.add_cycles(e);
            },
            Op::Bvs => {
                let v = self.value_at(bus, operand)?;
                let e = self.bvs(v);
                bus.add_cycles(e);
            },
            Op::Bcc => {
                let v = self.value_at(bus, operand)?;
                let e = self.bcc(v);
                bus.add_cycles(e);
            },
            Op::Bcs => {
                let v = self.value_at(bus, operand)?;
                let e = self.bcs(v);
                bus.add_cycles(e);
            },
            Op::Bne => {
                let v = self.value_at(bus, operand)?;
                let e = self.bne(v);
                bus.add_cycles(e);
            },
            Op::Beq => {
                let v = self.value_at(bus, operand)?;
                let e = self.beq(v);
                bus.add_cycles(e);
            },
            _ => {
                proof {
                    assert(false);
                }
            },
        }
        Ok(())
    }

    /// Applies an operation that writes through its operand address:
    /// the stores and the read-modify-write instructions.
    #[verifier::rlimit(100)]
    fn apply_write_op<C: Controller>(
        &mut self,
        bus: &mut Memory<C>,
        op: Op,
        mode: Mode,
        operand: Operand,
        Ghost(pre_cpu): Ghost<Cpu>,
        Ghost(pre_bus): Ghost<Memory<C>>,
    ) -> (r: Result<(), Fault>)
        requires
            op_forces_extra(op),
            old(bus).wf(),
            old(bus).cycles < 0xff0_0000 + 8,
            (spec_step_determined(pre_cpu, pre_bus) && spec_decode(
                Memory::<C>::pure_byte(pre_bus, pre_cpu.pc),
            ) == Some((mode, op))) ==> ({
                let p1 = pre_cpu.pc.wrapping_add(1);
                &&& *old(self) == (Cpu { pc: spec_mode_pc(p1, mode), ..pre_cpu })
                &&& old(bus).ram@ == pre_bus.ram@
                &&& old(bus).text@ == pre_bus.text@
                &&& old(bus).same_ppu(&pre_bus)
                &&& old(bus).same_apu(&pre_bus)
                &&& old(bus).same_pads(&pre_bus)
                &&& old(bus).nmis == pre_bus.nmis
                &&& old(bus).cycles == pre_bus.cycles + 1 + spec_mode_cycles(
                    pre_bus,
                    p1,
                    mode,
                    pre_cpu.x,
                    pre_cpu.y,
                    op_forces_extra(op),
                )
                &&& (mode_addressed(mode) ==> operand == Operand::At(
                    spec_mode_addr(pre_bus, p1, mode, pre_cpu.x, pre_cpu.y),
                ))
                &&& (!mode_addressed(mode) ==> !(operand is At))
            }),
        ensures
            final(bus).wf(),
            final(bus).same_rom(old(bus)),
            final(bus).ppu.renders == old(bus).ppu.renders,
            final(bus).nmis == old(bus).nmis,
            old(bus).cycles <= final(bus).cycles <= old(bus).cycles + 300,
            r matches Err(f) ==> !(f is UnimplementedOpcode),
            (spec_step_determined(pre_cpu, pre_bus) && spec_decode(
                Memory::<C>::pure_byte(pre_bus, pre_cpu.pc),
            ) == Some((mode, op))) ==> r == Ok::<(), Fault>(()) && spec_step(
                pre_cpu,
                pre_bus,
                *final(self),
                *final(bus),
            ),
    {
        let addr: u16 = match operand {
            Operand::At(a) => a,
            _ => 0,
        };
        match op {
            Op::Sta => {
                let v = self.sta();
                bus.write(addr, v)?;
            },
            Op::Stx => {
                let v = self.stx();
                bus.write(addr, v)?;
            },
            Op::Sty => {
                let v = self.sty();
                bus.write(addr, v)?;
            },
            Op::Asl => {
                match operand {
                    Operand::At(a) => {
                        let v = bus.read(a)?;
                        let res = self.asl(v);
                        bus.add_cycles(1);
                        bus.write(a, res)?;
                    },
                    _ => {
                        let v = self.a;
                        let res = self.asl(v);
                        self.a = res;
                        bus.add_cycles(1);
                    },
                }
            },
            Op::Rol => {
                match operand {
                    Operand::At(a) => {
                        let v = bus.read(a)?;
                        let res = self.rol(v);
                        bus.add_cycles(1);
                        bus.write(a, res)?;
                    },
                    _ => {
                        let v = self.a;
                        let res = self.rol(v);
                        self.a = res;
                        bus.add_cycles(1);
                    },
                }
            },
            Op::Lsr => {
                match operand {
                    Operand::At(a) => {
                        let v = bus.read(a)?;
                        let res = self.lsr(v);
                        bus.add_cycles(1);
                        bus.write(a, res)?;
                    },
                    _ => {
                        let v = self.a;
                        let res = self.lsr(v);
                        self.a = res;
                        bus.add_cycles(1);
                    },
                }
            },
            Op::Ror => {
                match operand {
                    Operand::At(a) => {
                        let v = bus.read(a)?;
                        let res = self.ror(v);
                        bus.add_cycles(1);
                        bus.write(a, res)?;
                    },
                    _ => {
                        let v = self.a;
                        let res = self.ror(v);
                        self.a = res;
                        bus.add_cycles(1);
                    },
                }
            },
            Op::Dec => {
                match operand {
                    Operand::At(a) => {
                        let v = bus.read(a)?;
                        let res = self.dec(v);
                        bus.add_cycles(1);
                        bus.write(a, res)?;
                    },
                    _ => {
                        bus.add_cycles(1);
                    },
                }
            },
            Op::Inc => {
                match operand {
                    Operand::At(a) => {
                        let v = bus.read(a)?;
                        let res = self.inc(v);
                        bus.add_cycles(1);
                        bus.write(a, res)?;
                    },
                    _ => {
                        bus.add_cycles(1);
                    },
                }
            },
            _ => {
                proof {
                    assert(false);
                }
            },
        }
        Ok(())
    }

    /// Applies the operations with no bus operand: jumps, stack and
    /// interrupt routines, transfers, register steps and flag
    /// instructions.
    #[verifier::rlimit(100)]
    fn apply_other_op<C: Controller>(
        &mut self,
        bus: &mut Memory<C>,
        op: Op,
        mode: Mode,
        operand: Operand,
        Ghost(pre_cpu): Ghost<Cpu>,
        Ghost(pre_bus): Ghost<Memory<C>>,
    ) -> (r: Result<(), Fault>)
        requires
            !op_reads_operand(op) && !op_forces_extra(op),
            old(bus).wf(),
            old(bus).cycles < 0xff0_0000 + 8,
            (spec_step_determined(pre_cpu, pre_bus) && spec_decode(
                Memory::<C>::pure_byte(pre_bus, pre_cpu.pc),
            ) == Some((mode, op))) ==> ({
                let p1 = pre_cpu.pc.wrapping_add(1);
                &&& *old(self) == (Cpu { pc: spec_mode_pc(p1, mode), ..pre_cpu })
                &&& old(bus).ram@ == pre_bus.ram@
                &&& old(bus).text@ == pre_bus.text@
                &&& old(bus).same_ppu(&pre_bus)
                &&& old(bus).same_apu(&pre_bus)
                &&& old(bus).same_pads(&pre_bus)
                &&& old(bus).nmis == pre_bus.nmis
                &&& old(bus).cycles == pre_bus.cycles + 1 + spec_mode_cycles(
                    pre_bus,
                    p1,
                    mode,
                    pre_cpu.x,
                    pre_cpu.y,
                    op_forces_extra(op),
                )
                &&& (mode_addressed(mode) ==> operand == Operand::At(
                    spec_mode_addr(pre_bus, p1, mode, pre_cpu.x, pre_cpu.y),
                ))
                &&& (!mode_addressed(mode) ==> !(operand is At))
            }),
        ensures
            final(bus).wf(),
            final(bus).same_rom(old(bus)),
            final(bus).ppu.renders == old(bus).ppu.renders,
            final(bus).nmis == old(bus).nmis,
            old(bus).cycles <= final(bus).cycles <= old(bus).cycles + 300,
            r matches Err(f) ==> !(f is UnimplementedOpcode),
            (spec_step_determined(pre_cpu, pre_bus) && spec_decode(
                Memory::<C>::pure_byte(pre_bus, pre_cpu.pc),
            ) == Some((mode, op))) ==> r == Ok::<(), Fault>(()) && spec_step(
                pre_cpu,
                pre_bus,
                *final(self),
                *final(bus),
            ),
    {
        let addr: u16 = match operand {
            Operand::At(a) => a,
            _ => 0,
        };
        match op {
            Op::Php => {
                self.php(bus)?;
            },
            Op::Plp => {
                self.plp(bus)?;
            },
            Op::Pha => {
                self.pha(bus)?;
            },
            Op::Pla => {
                self.pla(bus)?;
            },
            Op::Rti => {
                self.rti(bus)?;
            },
            Op::Rts => {
                self.rts(bus)?;
            },
            Op::Jsr => {
                self.jsr(bus, addr)?;
            },
            Op::Jmp => {
                self.jmp(addr);
            },
            Op::Clc => {
                self.clc();
                bus.add_cycles(1);
            },
            Op::Sec => {
                self.sec();
                bus.add_cycles(1);
            },
            Op::Cli => {
                self.cli();
                bus.add_cycles(1);
            },
            Op::Sei => {
                self.sei();
                bus.add_cycles(1);
            },
            Op::Cld => {
                self.cld();
                bus.add_cycles(1);
            },
            Op::Sed => {
                self.sed();
                bus.add_cycles(1);
            },
            Op::Clv => {
                self.clv();
                bus.add_cycles(1);
            },
            Op::Nop => {
                self.nop();
                bus.add_cycles(1);
            },
            Op::Tax => {
                self.tax();
                bus.add_cycles(1);
            },
            Op::Tay => {
                self.tay();
                bus.add_cycles(1);
            },
            Op::Txa => {
                self.txa();
                bus.add_cycles(1);
            },
            Op::Tya => {
                self.tya();
                bus.add_cycles(1);
            },
            Op::Tsx => {
                self.tsx();
                bus.add_cycles(1);
            },
            Op::Txs => {
                self.txs();
                bus.add_cycles(1);
            },
            Op::Dex => {
                self.dex();
                bus.add_cycles(1);
            },
            Op::Dey => {
                self.dey();
                bus.add_cycles(1);
            },
            Op::Inx => {
                self.inx();
                bus.add_cycles(1);
            },
            Op::Iny => {
                self.iny();
                bus.add_cycles(1);
            },
            _ => {
                proof {
                    assert(false);
                }
            },
        }
        Ok(())
    }

    /// Applies one decoded operation after its operand has been
    /// resolved. `pre_cpu` and `pre_bus` name the state before the
    /// opcode fetch; when that state determined the whole step, the
    /// outcome is exactly the step relation's.
    fn apply_op<C: Controller>(
        &mut self,
        bus: &mut Memory<C>,
        op: Op,
        mode: Mode,
        operand: Operand,
        Ghost(pre_cpu): Ghost<Cpu>,
        Ghost(pre_bus): Ghost<Memory<C>>,
    ) -> (r: Result<(), Fault>)
        requires
            old(bus).wf(),
            old(bus).cycles < 0xff0_0000 + 8,
            (spec_step_determined(pre_cpu, pre_bus) && spec_decode(
                Memory::<C>::pure_byte(pre_bus, pre_cpu.pc),
            ) == Some((mode, op))) ==> ({
                let p1 = pre_cpu.pc.wrapping_add(1);
                &&& *old(self) == (Cpu { pc: spec_mode_pc(p1, mode), ..pre_cpu })
                &&& old(bus).ram@ == pre_bus.ram@
                &&& old(bus).text@ == pre_bus.text@
                &&& old(bus).same_ppu(&pre_bus)
                &&& old(bus).same_apu(&pre_bus)
                &&& old(bus).same_pads(&pre_bus)
                &&& old(bus).nmis == pre_bus.nmis
                &&& old(bus).cycles == pre_bus.cycles + 1 + spec_mode_cycles(
                    pre_bus,
                    p1,
                    mode,
                    pre_cpu.x,
                    pre_cpu.y,
                    op_forces_extra(op),
                )
                &&& (mode_addressed(mode) ==> operand == Operand::At(
                    spec_mode_addr(pre_bus, p1, mode, pre_cpu.x, pre_cpu.y),
                ))
                &&& (!mode_addressed(mode) ==> !(operand is At))
            }),
        ensures
            final(bus).wf(),
            final(bus).same_rom(old(bus)),
            final(bus).ppu.renders == old(bus).ppu.renders,
            final(bus).nmis == old(bus).nmis,
            old(bus).cycles <= final(bus).cycles <= old(bus).cycles + 300,
            r matches Err(f) ==> !(f is UnimplementedOpcode),
            (spec_step_determined(pre_cpu, pre_bus) && spec_decode(
                Memory::<C>::pure_byte(pre_bus, pre_cpu.pc),
            ) == Some((mode, op))) ==> r == Ok::<(), Fault>(()) && spec_step(
                pre_cpu,
                pre_bus,
                *final(self),
                *final(bus),
            ),
    {
        match op {
            Op::Lda | Op::Ldx | Op::Ldy | Op::Ora | Op::And | Op::Eor | Op::Adc | Op::Sbc | Op::Cmp | Op::Cpx | Op::Cpy | Op::Bit | Op::Bpl | Op::Bmi | Op::Bvc | Op::Bvs | Op::Bcc | Op::Bcs | Op::Bne | Op::Beq => self.apply_read_op(
                bus,
                op,
                mode,
                operand,
                Ghost(pre_cpu),
                Ghost(pre_bus),
            ),
            Op::Sta | Op::Stx | Op::Sty | Op::Asl | Op::Rol | Op::Lsr | Op::Ror | Op::Dec | Op::Inc => self.apply_write_op(
                bus,
                op,
                mode,
                operand,
                Ghost(pre_cpu),
                Ghost(pre_bus),
            ),
            _ => self.apply_other_op(bus, op, mode, operand, Ghost(pre_cpu), Ghost(pre_bus)),
        }
    }

    #[verifier::rlimit(100)]
    pub fn execute<C: Controller>(&mut self, bus: &mut Memory<C>) -> (r: Result<(), Fault>)
        requires
            old(bus).wf(),
            old(bus).cycles < 0xff0_0000,
        ensures
            final(bus).wf(),
            final(bus).same_rom(old(bus)),
            final(bus).ppu.renders == old(bus).ppu.renders,
            final(bus).nmis == old(bus).nmis,
            old(bus).cycles + 1 <= final(bus).cycles <= old(bus).cycles + 600,
            r matches Err(f) ==> (f matches Fault::UnimplementedOpcode(op)
                ==> !spec_opcode_implemented(op)),
            (Memory::<C>::pure_addr(old(self).pc) && !spec_opcode_implemented(
                Memory::<C>::pure_byte(*old(bus), old(self).pc),
            )) ==> r == Err::<(), Fault>(
                Fault::UnimplementedOpcode(Memory::<C>::pure_byte(*old(bus), old(self).pc)),
            ),
            spec_step_determined(*old(self), *old(bus)) ==> r == Ok::<(), Fault>(()) && spec_step(
                *old(self),
                *old(bus),
                *final(self),
                *final(bus),
            ),
    {
        let ghost pre_cpu = *old(self);
        let ghost pre_bus = *old(bus);
        let opcode = bus.read(self.pc)?;
        self.pc = self.pc.wrapping_add(1);
        let decoded = decode(opcode);
        let (mode, op) = match decoded {
            Some(p) => p,
            None => {
                if opcode == 0 {
                    bus.add_cycles(6);
                    return self.brk();
                }
                return Err(Fault::UnimplementedOpcode(opcode));
            },
        };
        let force_extra: bool = match op {
            Op::Sta | Op::Stx | Op::Sty | Op::Asl | Op::Rol | Op::Lsr | Op::Ror | Op::Dec
                | Op::Inc => true,
            _ => false,
        };
        let operand: Operand = match mode {
            Mode::Implied => Operand::Nothing,
            Mode::Accumulator => Operand::InAccumulator,
            Mode::Immediate => Operand::At(self.immediate()),
            Mode::ZeroPage => Operand::At(self.zeropage(bus)?),
            Mode::ZeroPageX => Operand::At(self.zeropage_x(bus)?),
            Mode::ZeroPageY => Operand::At(self.zeropage_y(bus)?),
            Mode::Absolute => Operand::At(self.absolute(bus)?),
            Mode::AbsoluteX => Operand::At(self.absolute_x(bus, force_extra)?),
            Mode::AbsoluteY => Operand::At(self.absolute_y(bus, force_extra)?),
            Mode::Indirect => Operand::At(self.indirect(bus)?),
            Mode::IndirectX => Operand::At(self.indirect_x(bus)?),
            Mode::IndirectY => Operand::At(self.indirect_y(bus, force_extra)?),
        };
        self.apply_op(bus, op, mode, operand, Ghost(pre_cpu), Ghost(pre_bus))
    }
}


/// The flag rule every load, transfer, logic and shift result obeys:
/// the negative flag is exactly the result's top bit, and the zero
/// flag exactly its equality with zero. `flag_n` and `flag_z` are the
/// spec functions all those operations' contracts set the flags with.
pub proof fn lemma_result_flags(v: u8)
    ensures
        flag_n(v) <==> (v >> 7) == 1,
        flag_z(v) <==> v == 0,
{
    assert((v >= 128) <==> (v >> 7) == 1) by (bit_vector);
}

/// Add-with-carry followed by subtract-with-carry of the same operand,
/// with the addition's carry carried in, restores the accumulator.
/// This holds exactly when carry-in and carry-out differ, that is,
/// when the precondition below holds; on the remaining inputs the two
/// borrow conventions offset the result by one.
pub proof fn lemma_adc_sbc_round_trip(a: u8, b: u8, c: bool)
    requires
        c ==> a + b <= 254,
        !c ==> a + b >= 256,
    ensures
        spec_sbc_result(spec_adc_result(a, b, c), b, spec_adc_carry(a, b, c)) == a,
        spec_sbc_carry(spec_adc_result(a, b, c), b, spec_adc_carry(a, b, c)) == c,
{
    let sum = adc_sum(a, b, c);
    if c {
        assert(sum <= 255);
        assert(spec_adc_result(a, b, c) == sum);
        assert(!spec_adc_carry(a, b, c));
    } else {
        assert(256 <= sum <= 510);
        assert(spec_adc_result(a, b, c) == sum - 256);
        assert(spec_adc_carry(a, b, c));
    }
}

/// Stack discipline for the status word: pulling the byte that
/// push-status stored restores all six flags exactly, and the two
/// storage-less bits of that byte always read back as the forced set
/// pattern.
pub proof fn lemma_status_push_pull(cpu: Cpu)
    ensures
        unpack_n(pushed_status(cpu)) == cpu.n,
        unpack_v(pushed_status(cpu)) == cpu.v,
        unpack_d(pushed_status(cpu)) == cpu.d,
        unpack_i(pushed_status(cpu)) == cpu.i,
        unpack_z(pushed_status(cpu)) == cpu.z,
        unpack_c(pushed_status(cpu)) == cpu.c,
        (pushed_status(cpu) / 16) % 2 == 1,
        (pushed_status(cpu) / 32) % 2 == 1,
{
    let s = pushed_status(cpu);
    assert(s == (if cpu.n {
        128int
    } else {
        0int
    }) + (if cpu.v {
        64int
    } else {
        0int
    }) + 48 + (if cpu.d {
        8int
    } else {
        0int
    }) + (if cpu.i {
        4int
    } else {
        0int
    }) + (if cpu.z {
        2int
    } else {
        0int
    }) + (if cpu.c {
        1int
    } else {
        0int
    }));
}



} // verus!
