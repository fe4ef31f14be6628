use vstd::prelude::*;

use super::{
    prev_addr, AluOp, Condition, CpuError, Instruction, LoadDirection, Pointer, Register16Index,
    Register8Index, ShiftOp,
};
use crate::cpu::{word, Flag};
use crate::memory::next_addr;
use crate::{GameBoy, MachineState};

verus! {

/// Result of an 8-bit ALU operation on `a` and `x` with carry-in `cin`:
/// the value and the Z, N, H, C flags.
pub open spec fn spec_alu(op: AluOp, a: u8, x: u8, cin: bool) -> (u8, bool, bool, bool, bool) {
    let ci: int = if (op == AluOp::Adc || op == AluOp::Sbc) && cin {
        1
    } else {
        0
    };
    match op {
        AluOp::Add | AluOp::Adc => {
            let sum = a + x + ci;
            let v = (sum % 256) as u8;
            (v, v == 0, false, a % 16 + x % 16 + ci > 15, sum > 255)
        },
        AluOp::Sub | AluOp::Sbc | AluOp::Cp => {
            let v = ((a - x - ci + 256) % 256) as u8;
            (v, v == 0, true, a % 16 < x % 16 + ci, a < x + ci)
        },
        AluOp::And => (a & x, a & x == 0, false, true, false),
        AluOp::Xor => (a ^ x, a ^ x == 0, false, false, false),
        AluOp::Or => (a | x, a | x == 0, false, false, false),
    }
}

#[verifier::when_used_as_spec(spec_alu)]
pub fn alu(op: AluOp, a: u8, x: u8, cin: bool) -> (r: (u8, bool, bool, bool, bool))
    ensures
        r == spec_alu(op, a, x, cin),
{
    let ci: u16 = if (op == AluOp::Adc || op == AluOp::Sbc) && cin {
        1
    } else {
        0
    };
    match op {
        AluOp::Add | AluOp::Adc => {
            let sum = a as u16 + x as u16 + ci;
            let v = (sum % 256) as u8;
            (v, v == 0, false, (a % 16) as u16 + (x % 16) as u16 + ci > 15, sum > 255)
        },
        AluOp::Sub | AluOp::Sbc | AluOp::Cp => {
            let v = ((a as u16 + 256 - x as u16 - ci) % 256) as u8;
            (v, v == 0, true, ((a % 16) as u16) < (x % 16) as u16 + ci, (a as u16) < x as u16 + ci)
        },
        AluOp::And => (a & x, a & x == 0, false, true, false),
        AluOp::Xor => (a ^ x, a ^ x == 0, false, false, false),
        AluOp::Or => (a | x, a | x == 0, false, false, false),
    }
}

/// Result of a rotate, shift or swap of `v` with carry-in `cin`: the value and the
/// bit shifted out.
pub open spec fn spec_shift(op: ShiftOp, v: u8, cin: bool) -> (u8, bool) {
    let ci: int = if cin {
        1
    } else {
        0
    };
    match op {
        ShiftOp::Rlc => (((v * 2) % 256 + v / 128) as u8, v >= 128),
        ShiftOp::Rrc => ((v / 2 + (v % 2) * 128) as u8, v % 2 == 1),
        ShiftOp::Rl => (((v * 2) % 256 + ci) as u8, v >= 128),
        ShiftOp::Rr => ((v / 2 + ci * 128) as u8, v % 2 == 1),
        ShiftOp::Sla => (((v * 2) % 256) as u8, v >= 128),
        ShiftOp::Sra => ((v / 2 + (v / 128) * 128) as u8, v % 2 == 1),
        ShiftOp::Swap => (((v % 16) * 16 + v / 16) as u8, false),
        ShiftOp::Srl => ((v / 2) as u8, v % 2 == 1),
    }
}

#[verifier::when_used_as_spec(spec_shift)]
pub fn shift(op: ShiftOp, v: u8, cin: bool) -> (r: (u8, bool))
    ensures
        r == spec_shift(op, v, cin),
{
    let ci: u8 = if cin {
        1
    } else {
        0
    };
    match op {
        ShiftOp::Rlc => ((v % 128) * 2 + v / 128, v >= 128),
        ShiftOp::Rrc => (v / 2 + (v % 2) * 128, v % 2 == 1),
        ShiftOp::Rl => ((v % 128) * 2 + ci, v >= 128),
        ShiftOp::Rr => (v / 2 + ci * 128, v % 2 == 1),
        ShiftOp::Sla => ((v % 128) * 2, v >= 128),
        ShiftOp::Sra => (v / 2 + (v / 128) * 128, v % 2 == 1),
        ShiftOp::Swap => ((v % 16) * 16 + v / 16, false),
        ShiftOp::Srl => (v / 2, v % 2 == 1),
    }
}

/// Decimal adjustment of A after a BCD addition (`n` clear) or subtraction (`n` set):
/// the adjusted value and the new carry.
pub open spec fn spec_daa(a: u8, n: bool, h: bool, c: bool) -> (u8, bool) {
    let low = h || (!n && a % 16 > 9);
    let high = c || (!n && a > 0x99);
    let correction: int = (if low {
        0x06int
    } else {
        0
    }) + (if high {
        0x60int
    } else {
        0
    });
    let v = if n {
        (a - correction + 256) % 256
    } else {
        (a + correction) % 256
    };
    (v as u8, high)
}

#[verifier::when_used_as_spec(spec_daa)]
pub fn daa(a: u8, n: bool, h: bool, c: bool) -> (r: (u8, bool))
    ensures
        r == spec_daa(a, n, h, c),
{
    let low = h || (!n && a % 16 > 9);
    let high = c || (!n && a > 0x99);
    let correction: u16 = (if low {
        0x06
    } else {
        0
    }) + (if high {
        0x60
    } else {
        0
    });
    let v = if n {
        (a as u16 + 256 - correction) % 256
    } else {
        (a as u16 + correction) % 256
    };
    (v as u8, high)
}

/// SP plus a signed offset, with the half-carry and carry of adding the offset's
/// byte to the low byte of SP.
pub open spec fn spec_sp_offset(sp: u16, e: i8) -> (u16, bool, bool) {
    let u = (e + 256) % 256;
    (((sp + e + 0x10000) % 0x10000) as u16, sp % 16 + u % 16 > 15, sp % 256 + u > 255)
}

#[verifier::when_used_as_spec(spec_sp_offset)]
pub fn sp_offset(sp: u16, e: i8) -> (r: (u16, bool, bool))
    ensures
        r == spec_sp_offset(sp, e),
{
    let u = ((e as i32 + 256) % 256) as u32;
    let v = ((sp as i32 + e as i32 + 0x10000) % 0x10000) as u16;
    (v, (sp % 16) as u32 + u % 16 > 15, (sp % 256) as u32 + u > 255)
}

/// Target of a relative jump by `e` from `pc`.
pub open spec fn spec_relative(pc: u16, e: i8) -> u16 {
    ((pc + e + 0x10000) % 0x10000) as u16
}

#[verifier::when_used_as_spec(spec_relative)]
pub fn relative(pc: u16, e: i8) -> (r: u16)
    ensures
        r == spec_relative(pc, e),
{
    ((pc as i32 + e as i32 + 0x10000) % 0x10000) as u16
}

/// Weight of bit `b` (taken modulo 8).
pub open spec fn spec_bit_weight(b: u8) -> u8 {
    let i = b % 8;
    if i == 0 {
        1
    } else if i == 1 {
        2
    } else if i == 2 {
        4
    } else if i == 3 {
        8
    } else if i == 4 {
        16
    } else if i == 5 {
        32
    } else if i == 6 {
        64
    } else {
        128
    }
}

#[verifier::when_used_as_spec(spec_bit_weight)]
pub fn bit_weight(b: u8) -> (r: u8)
    ensures
        r == spec_bit_weight(b),
{
    let i = b % 8;
    if i == 0 {
        1
    } else if i == 1 {
        2
    } else if i == 2 {
        4
    } else if i == 3 {
        8
    } else if i == 4 {
        16
    } else if i == 5 {
        32
    } else if i == 6 {
        64
    } else {
        128
    }
}

/// Whether bit `b` of `v` is set.
pub open spec fn bit_set(v: u8, b: u8) -> bool {
    (v / spec_bit_weight(b)) % 2 == 1
}

/// `v` with bit `b` cleared.
pub open spec fn clear_bit(v: u8, b: u8) -> u8 {
    if bit_set(v, b) {
        (v - spec_bit_weight(b)) as u8
    } else {
        v
    }
}

/// `v` with bit `b` set.
pub open spec fn with_bit(v: u8, b: u8) -> u8 {
    if bit_set(v, b) {
        v
    } else {
        (v + spec_bit_weight(b)) as u8
    }
}

pub(crate) proof fn lemma_bit_bounds(v: u8, b: u8)
    ensures
        bit_set(v, b) ==> v >= spec_bit_weight(b),
        !bit_set(v, b) ==> v + spec_bit_weight(b) < 256,
{
    let w = spec_bit_weight(b);
    assert(w == 1 || w == 2 || w == 4 || w == 8 || w == 16 || w == 32 || w == 64 || w == 128);
    if !bit_set(v, b) {
        assert((v / w) % 2 == 0);
        assert(v + w < 256) by (nonlinear_arith)
            requires
                (v / w) % 2 == 0,
                w == 1 || w == 2 || w == 4 || w == 8 || w == 16 || w == 32 || w == 64 || w == 128,
                v < 256,
        ;
    } else {
        assert(v >= w) by (nonlinear_arith)
            requires
                (v / w) % 2 == 1,
                w > 0,
        ;
    }
}

/// Whether a T-cycle count is one that a DMG instruction takes.
pub open spec fn documented_cycles(c: u32) -> bool {
    c == 4 || c == 8 || c == 12 || c == 16 || c == 20 || c == 24
}

/// Every instruction takes one of the documented T-cycle counts.
pub proof fn lemma_cycles_documented(s: MachineState, i: Instruction)
    ensures
        documented_cycles(s.cycles(i)),
{
    reveal(MachineState::cycles);
}

impl MachineState {
    pub open spec fn a(self) -> u8 {
        self.regs.af.spec_hi()
    }

    pub open spec fn flag(self, f: Flag) -> bool {
        self.regs.spec_test_flag(f)
    }

    pub open spec fn with_flags(self, z: bool, n: bool, h: bool, c: bool) -> MachineState {
        MachineState { regs: self.regs.with_flags(z, n, h, c), ..self }
    }

    pub open spec fn with_ime(self, ime: bool) -> MachineState {
        MachineState { regs: crate::cpu::RegisterFile { ime, ..self.regs }, ..self }
    }

    pub open spec fn condition_holds(self, cond: Option<Condition>) -> bool {
        match cond {
            None => true,
            Some(Condition::NotZero) => !self.flag(Flag::Zero),
            Some(Condition::Zero) => self.flag(Flag::Zero),
            Some(Condition::NotCarry) => !self.flag(Flag::Carry),
            Some(Condition::Carry) => self.flag(Flag::Carry),
        }
    }

    /// Pushes `v`: its high byte at SP-1, its low byte at SP-2, then SP decreases by 2.
    pub open spec fn push(self, v: u16) -> MachineState {
        let sp = self.regs.sp.value;
        self.write(prev_addr(sp), (v / 256) as u8).write(
            prev_addr(prev_addr(sp)),
            (v % 256) as u8,
        ).set16(Register16Index::SP, prev_addr(prev_addr(sp)))
    }

    /// The word on top of the stack.
    pub open spec fn stack_top(self) -> u16 {
        self.read_u16(self.regs.sp.value)
    }

    /// The state with SP increased by 2.
    pub open spec fn drop_top(self) -> MachineState {
        self.set16(Register16Index::SP, next_addr(next_addr(self.regs.sp.value)))
    }

    /// Address of a transfer between A and memory.
    pub open spec fn pointer_address(self, p: Pointer) -> u16 {
        match p {
            Pointer::Address(a) => a,
            Pointer::HighOffset(o) => (0xFF00 + o) as u16,
            Pointer::HighC => (0xFF00 + self.regs.bc.spec_lo()) as u16,
            Pointer::Register(r) => self.get16(r),
            Pointer::HlIncrement | Pointer::HlDecrement => self.regs.hl.value,
        }
    }

    pub open spec fn alu_step(self, op: AluOp, x: u8) -> MachineState {
        let (v, z, n, h, c) = spec_alu(op, self.a(), x, self.flag(Flag::Carry));
        let s = if op == AluOp::Cp {
            self
        } else {
            self.set8(Register8Index::A, v)
        };
        s.with_flags(z, n, h, c)
    }

    /// The state after executing `i`.
    #[verifier::opaque]
    pub open spec fn step(self, i: Instruction) -> MachineState {
        let z = self.flag(Flag::Zero);
        let n = self.flag(Flag::Subtract);
        let h = self.flag(Flag::HalfCarry);
        let c = self.flag(Flag::Carry);
        let pc = self.regs.pc.value;
        let sp = self.regs.sp.value;
        let hl = self.regs.hl.value;
        match i {
            Instruction::Nop | Instruction::Stop | Instruction::Halt => self,
            Instruction::Di => self.with_ime(false),
            Instruction::Ei => self.with_ime(true),
            Instruction::Alu(op, r) => self.alu_step(op, self.get8(r)),
            Instruction::AluImmediate(op, x) => self.alu_step(op, x),
            Instruction::Inc8(r) => {
                let v = self.get8(r);
                let res = ((v + 1) % 256) as u8;
                self.set8(r, res).with_flags(res == 0, false, v % 16 == 15, c)
            },
            Instruction::Dec8(r) => {
                let v = self.get8(r);
                let res = ((v + 255) % 256) as u8;
                self.set8(r, res).with_flags(res == 0, true, v % 16 == 0, c)
            },
            Instruction::Inc16(r) => self.set16(r, ((self.get16(r) + 1) % 0x10000) as u16),
            Instruction::Dec16(r) => self.set16(r, ((self.get16(r) + 0xFFFF) % 0x10000) as u16),
            Instruction::AddHl(r) => {
                let v = self.get16(r);
                let sum = hl + v;
                self.set16(Register16Index::HL, (sum % 0x10000) as u16).with_flags(
                    z,
                    false,
                    hl % 0x1000 + v % 0x1000 > 0xFFF,
                    sum > 0xFFFF,
                )
            },
            Instruction::AddSp(e) => {
                let (v, hc, cc) = spec_sp_offset(sp, e);
                self.set16(Register16Index::SP, v).with_flags(false, false, hc, cc)
            },
            Instruction::LoadHlSpOffset(e) => {
                let (v, hc, cc) = spec_sp_offset(sp, e);
                self.set16(Register16Index::HL, v).with_flags(false, false, hc, cc)
            },
            Instruction::Daa => {
                let (v, cc) = spec_daa(self.a(), n, h, c);
                self.set8(Register8Index::A, v).with_flags(v == 0, n, false, cc)
            },
            Instruction::Cpl => self.set8(Register8Index::A, (255 - self.a()) as u8).with_flags(
                z,
                true,
                true,
                c,
            ),
            Instruction::Scf => self.with_flags(z, false, false, true),
            Instruction::Ccf => self.with_flags(z, false, false, !c),
            Instruction::RotateA(op) => {
                let (v, cc) = spec_shift(op, self.a(), c);
                self.set8(Register8Index::A, v).with_flags(false, false, false, cc)
            },
            Instruction::Shift(op, r) => {
                let (v, cc) = spec_shift(op, self.get8(r), c);
                self.set8(r, v).with_flags(v == 0, false, false, cc)
            },
            Instruction::TestBit(b, r) => self.with_flags(!bit_set(self.get8(r), b), false, true, c),
            Instruction::ResetBit(b, r) => self.set8(r, clear_bit(self.get8(r), b)),
            Instruction::SetBit(b, r) => self.set8(r, with_bit(self.get8(r), b)),
            Instruction::Load8(d, s) => self.set8(d, self.get8(s)),
            Instruction::Load8Immediate(d, v) => self.set8(d, v),
            Instruction::LoadA(p, dir) => {
                let addr = self.pointer_address(p);
                let s = match dir {
                    LoadDirection::From => self.set8(Register8Index::A, self.read(addr)),
                    LoadDirection::Into => self.write(addr, self.a()),
                };
                match p {
                    Pointer::HlIncrement => s.set16(Register16Index::HL, next_addr(hl)),
                    Pointer::HlDecrement => s.set16(Register16Index::HL, prev_addr(hl)),
                    _ => s,
                }
            },
            Instruction::Load16Immediate(r, v) => self.set16(r, v),
            Instruction::StoreSp(a) => self.write_u16(a, sp),
            Instruction::LoadSpHl => self.set16(Register16Index::SP, hl),
            Instruction::Push(r) => self.push(self.get16(r)),
            Instruction::Pop(r) => self.drop_top().set16(r, self.stack_top()),
            Instruction::Jump(cond, a) => if self.condition_holds(cond) {
                self.with_pc(a)
            } else {
                self
            },
            Instruction::JumpHl => self.with_pc(hl),
            Instruction::JumpRelative(cond, e) => if self.condition_holds(cond) {
                self.with_pc(spec_relative(pc, e))
            } else {
                self
            },
            Instruction::Call(cond, a) => if self.condition_holds(cond) {
                self.push(pc).with_pc(a)
            } else {
                self
            },
            Instruction::Ret(cond) => if self.condition_holds(cond) {
                self.drop_top().with_pc(self.stack_top())
            } else {
                self
            },
            Instruction::Reti => self.drop_top().with_pc(self.stack_top()).with_ime(true),
            Instruction::Rst(v) => self.push(pc).with_pc(v as u16),
        }
    }

    /// T-cycles that executing `i` takes.
    #[verifier::opaque]
    pub open spec fn cycles(self, i: Instruction) -> u32 {
        match i {
            Instruction::Nop | Instruction::Stop | Instruction::Halt | Instruction::Di
            | Instruction::Ei | Instruction::Daa | Instruction::Cpl | Instruction::Scf
            | Instruction::Ccf | Instruction::RotateA(_) | Instruction::JumpHl => 4,
            Instruction::Alu(_, r) => if r == Register8Index::HL {
                8
            } else {
                4
            },
            Instruction::AluImmediate(_, _) => 8,
            Instruction::Inc8(r) | Instruction::Dec8(r) => if r == Register8Index::HL {
                12
            } else {
                4
            },
            Instruction::Inc16(_) | Instruction::Dec16(_) | Instruction::AddHl(_) => 8,
            Instruction::AddSp(_) => 16,
            Instruction::Shift(_, r) | Instruction::ResetBit(_, r) | Instruction::SetBit(_, r) => {
                if r == Register8Index::HL {
                    16
                } else {
                    8
                }
            },
            Instruction::TestBit(_, r) => if r == Register8Index::HL {
                12
            } else {
                8
            },
            Instruction::Load8(d, s) => if d == Register8Index::HL || s == Register8Index::HL {
                8
            } else {
                4
            },
            Instruction::Load8Immediate(d, _) => if d == Register8Index::HL {
                12
            } else {
                8
            },
            Instruction::LoadA(p, _) => match p {
                Pointer::Address(_) => 16,
                Pointer::HighOffset(_) => 12,
                _ => 8,
            },
            Instruction::Load16Immediate(_, _) => 12,
            Instruction::StoreSp(_) => 20,
            Instruction::LoadSpHl => 8,
            Instruction::LoadHlSpOffset(_) => 12,
            Instruction::Push(_) => 16,
            Instruction::Pop(_) => 12,
            Instruction::Jump(cond, _) => if self.condition_holds(cond) {
                16
            } else {
                12
            },
            Instruction::JumpRelative(cond, _) => if self.condition_holds(cond) {
                12
            } else {
                8
            },
            Instruction::Call(cond, _) => if self.condition_holds(cond) {
                24
            } else {
                12
            },
            Instruction::Ret(cond) => match cond {
                None => 16,
                Some(_) => if self.condition_holds(cond) {
                    20
                } else {
                    8
                },
            },
            Instruction::Reti | Instruction::Rst(_) => 16,
        }
    }

    /// What executing `i` reports: its cycles, or an error for STOP and HALT.
    pub open spec fn outcome(self, i: Instruction) -> Result<u32, CpuError> {
        match i {
            Instruction::Stop | Instruction::Halt => Err(
                CpuError::UnsupportedControl { pc: prev_addr(self.regs.pc.value) },
            ),
            _ => Ok(self.cycles(i)),
        }
    }
}

impl GameBoy {
    fn accumulator(&self) -> (r: u8)
        ensures
            r == self@.a(),
    {
        self.registers.af.hi()
    }

    fn flag(&self, f: Flag) -> (r: bool)
        ensures
            r == self@.flag(f),
    {
        self.registers.test_flag(f)
    }

    fn set_flags(&mut self, z: bool, n: bool, h: bool, c: bool)
        requires
            old(self)@.wf(),
        ensures
            final(self)@ == old(self)@.with_flags(z, n, h, c),
            final(self)@.wf(),
    {
        self.registers.set_flags(z, n, h, c);
    }

    fn set_ime(&mut self, ime: bool)
        requires
            old(self)@.wf(),
        ensures
            final(self)@ == old(self)@.with_ime(ime),
            final(self)@.wf(),
    {
        self.registers.ime = ime;
    }

    fn condition_holds(&self, cond: Option<Condition>) -> (r: bool)
        ensures
            r == self@.condition_holds(cond),
    {
        match cond {
            None => true,
            Some(Condition::NotZero) => !self.flag(Flag::Zero),
            Some(Condition::Zero) => self.flag(Flag::Zero),
            Some(Condition::NotCarry) => !self.flag(Flag::Carry),
            Some(Condition::Carry) => self.flag(Flag::Carry),
        }
    }

    /// Pushes a word on the stack: high byte at SP-1, low byte at SP-2, then SP -= 2.
    pub fn push(&mut self, value: u16)
        requires
            old(self)@.wf(),
        ensures
            final(self)@ == old(self)@.push(value),
            final(self)@.wf(),
    {
        let sp = self.registers.sp.value;
        let hi_addr = if sp == 0 {
            0xFFFF
        } else {
            sp - 1
        };
        let lo_addr = if hi_addr == 0 {
            0xFFFF
        } else {
            hi_addr - 1
        };
        self.write_u8(hi_addr, (value / 256) as u8);
        self.write_u8(lo_addr, (value % 256) as u8);
        Register16Index::SP.set(self, lo_addr);
    }

    /// Pops a word off the stack: low byte at SP, high byte at SP+1, then SP += 2.
    pub fn pop(&mut self) -> (r: u16)
        requires
            old(self)@.wf(),
        ensures
            r == old(self)@.stack_top(),
            final(self)@ == old(self)@.drop_top(),
            final(self)@.wf(),
    {
        let sp = self.registers.sp.value;
        let value = self.read_u16(sp);
        let next = if sp == 0xFFFF {
            0
        } else {
            sp + 1
        };
        let next = if next == 0xFFFF {
            0
        } else {
            next + 1
        };
        Register16Index::SP.set(self, next);
        value
    }

    fn pointer_address(&self, p: Pointer) -> (r: u16)
        ensures
            r == self@.pointer_address(p),
    {
        match p {
            Pointer::Address(a) => a,
            Pointer::HighOffset(o) => 0xFF00 + o as u16,
            Pointer::HighC => 0xFF00 + self.registers.bc.lo() as u16,
            Pointer::Register(r) => r.get(self),
            Pointer::HlIncrement | Pointer::HlDecrement => self.registers.hl.value,
        }
    }

    fn alu_step(&mut self, op: AluOp, x: u8)
        requires
            old(self)@.wf(),
        ensures
            final(self)@ == old(self)@.alu_step(op, x),
            final(self)@.wf(),
    {
        let (v, z, n, h, c) = alu(op, self.accumulator(), x, self.flag(Flag::Carry));
        if op != AluOp::Cp {
            Register8Index::A.set(self, v);
        }
        self.set_flags(z, n, h, c);
    }

    #[verifier::spinoff_prover]
    fn exec_alu(&mut self, instruction: Instruction) -> (r: u32)
        requires
            old(self)@.wf(),
            instruction is Alu,
        ensures
            r == old(self)@.cycles(instruction),
            final(self)@ == old(self)@.step(instruction),
            final(self)@.wf(),
    {
        reveal(MachineState::step);
        reveal(MachineState::cycles);
        match instruction {
            Instruction::Alu(op, r) => {
                let x = r.get(self);
                self.alu_step(op, x);
                (
                    if r == Register8Index::HL {
                        8
                    } else {
                        4
                    }
                )
            },
            _ => vstd::pervasive::unreached(),
        }
    }

    #[verifier::spinoff_prover]
    fn exec_alu_immediate(&mut self, instruction: Instruction) -> (r: u32)
        requires
            old(self)@.wf(),
            instruction is AluImmediate,
        ensures
            r == old(self)@.cycles(instruction),
            final(self)@ == old(self)@.step(instruction),
            final(self)@.wf(),
    {
        reveal(MachineState::step);
        reveal(MachineState::cycles);
        match instruction {
            Instruction::AluImmediate(op, x) => {
                self.alu_step(op, x);
                8
            },
            _ => vstd::pervasive::unreached(),
        }
    }

    #[verifier::spinoff_prover]
    fn exec_inc8(&mut self, instruction: Instruction) -> (r: u32)
        requires
            old(self)@.wf(),
            instruction is Inc8,
        ensures
            r == old(self)@.cycles(instruction),
            final(self)@ == old(self)@.step(instruction),
            final(self)@.wf(),
    {
        reveal(MachineState::step);
        reveal(MachineState::cycles);
        let c = self.flag(Flag::Carry);
        match instruction {
            Instruction::Inc8(r) => {
                let v = r.get(self);
                let res = ((v as u16 + 1) % 256) as u8;
                r.set(self, res);
                self.set_flags(res == 0, false, v % 16 == 15, c);
                (
                    if r == Register8Index::HL {
                        12
                    } else {
                        4
                    }
                )
            },
            _ => vstd::pervasive::unreached(),
        }
    }

    #[verifier::spinoff_prover]
    fn exec_dec8(&mut self, instruction: Instruction) -> (r: u32)
        requires
            old(self)@.wf(),
            instruction is Dec8,
        ensures
            r == old(self)@.cycles(instruction),
            final(self)@ == old(self)@.step(instruction),
            final(self)@.wf(),
    {
        reveal(MachineState::step);
        reveal(MachineState::cycles);
        let c = self.flag(Flag::Carry);
        match instruction {
            Instruction::Dec8(r) => {
                let v = r.get(self);
                let res = ((v as u16 + 255) % 256) as u8;
                r.set(self, res);
                self.set_flags(res == 0, true, v % 16 == 0, c);
                (
                    if r == Register8Index::HL {
                        12
                    } else {
                        4
                    }
                )
            },
            _ => vstd::pervasive::unreached(),
        }
    }

    #[verifier::spinoff_prover]
    fn exec_inc16(&mut self, instruction: Instruction) -> (r: u32)
        requires
            old(self)@.wf(),
            instruction is Inc16,
        ensures
            r == old(self)@.cycles(instruction),
            final(self)@ == old(self)@.step(instruction),
            final(self)@.wf(),
    {
        reveal(MachineState::step);
        reveal(MachineState::cycles);
        match instruction {
            Instruction::Inc16(r) => {
                let v = r.get(self);
                let res = ((v as u32 + 1) % 0x10000) as u16;
                r.set(self, res);
                8
            },
            _ => vstd::pervasive::unreached(),
        }
    }

    #[verifier::spinoff_prover]
    fn exec_dec16(&mut self, instruction: Instruction) -> (r: u32)
        requires
            old(self)@.wf(),
            instruction is Dec16,
        ensures
            r == old(self)@.cycles(instruction),
            final(self)@ == old(self)@.step(instruction),
            final(self)@.wf(),
    {
        reveal(MachineState::step);
        reveal(MachineState::cycles);
        match instruction {
            Instruction::Dec16(r) => {
                let v = r.get(self);
                let res = ((v as u32 + 0xFFFF) % 0x10000) as u16;
                r.set(self, res);
                8
            },
            _ => vstd::pervasive::unreached(),
        }
    }

    #[verifier::spinoff_prover]
    fn exec_add_hl(&mut self, instruction: Instruction) -> (r: u32)
        requires
            old(self)@.wf(),
            instruction is AddHl,
        ensures
            r == old(self)@.cycles(instruction),
            final(self)@ == old(self)@.step(instruction),
            final(self)@.wf(),
    {
        reveal(MachineState::step);
        reveal(MachineState::cycles);
        let z = self.flag(Flag::Zero);
        let hl = self.registers.hl.value;
        match instruction {
            Instruction::AddHl(r) => {
                let v = r.get(self);
                let sum = hl as u32 + v as u32;
                Register16Index::HL.set(self, (sum % 0x10000) as u16);
                self.set_flags(z, false, hl % 0x1000 + v % 0x1000 > 0xFFF, sum > 0xFFFF);
                8
            },
            _ => vstd::pervasive::unreached(),
        }
    }

    #[verifier::spinoff_prover]
    fn exec_add_sp(&mut self, instruction: Instruction) -> (r: u32)
        requires
            old(self)@.wf(),
            instruction is AddSp,
        ensures
            r == old(self)@.cycles(instruction),
            final(self)@ == old(self)@.step(instruction),
            final(self)@.wf(),
    {
        reveal(MachineState::step);
        reveal(MachineState::cycles);
        let sp = self.registers.sp.value;
        match instruction {
            Instruction::AddSp(e) => {
                let (v, hc, cc) = sp_offset(sp, e);
                Register16Index::SP.set(self, v);
                self.set_flags(false, false, hc, cc);
                16
            },
            _ => vstd::pervasive::unreached(),
        }
    }

    #[verifier::spinoff_prover]
    fn exec_daa(&mut self, instruction: Instruction) -> (r: u32)
        requires
            old(self)@.wf(),
            instruction is Daa,
        ensures
            r == old(self)@.cycles(instruction),
            final(self)@ == old(self)@.step(instruction),
            final(self)@.wf(),
    {
        reveal(MachineState::step);
        reveal(MachineState::cycles);
        let n = self.flag(Flag::Subtract);
        let h = self.flag(Flag::HalfCarry);
        let c = self.flag(Flag::Carry);
        match instruction {
            Instruction::Daa => {
                let (v, cc) = daa(self.accumulator(), n, h, c);
                Register8Index::A.set(self, v);
                self.set_flags(v == 0, n, false, cc);
                4
            },
            _ => vstd::pervasive::unreached(),
        }
    }

    #[verifier::spinoff_prover]
    fn exec_cpl(&mut self, instruction: Instruction) -> (r: u32)
        requires
            old(self)@.wf(),
            instruction is Cpl,
        ensures
            r == old(self)@.cycles(instruction),
            final(self)@ == old(self)@.step(instruction),
            final(self)@.wf(),
    {
        reveal(MachineState::step);
        reveal(MachineState::cycles);
        let z = self.flag(Flag::Zero);
        let c = self.flag(Flag::Carry);
        match instruction {
            Instruction::Cpl => {
                let a = self.accumulator();
                Register8Index::A.set(self, 255 - a);
                self.set_flags(z, true, true, c);
                4
            },
            _ => vstd::pervasive::unreached(),
        }
    }

    #[verifier::spinoff_prover]
    fn exec_scf(&mut self, instruction: Instruction) -> (r: u32)
        requires
            old(self)@.wf(),
            instruction is Scf,
        ensures
            r == old(self)@.cycles(instruction),
            final(self)@ == old(self)@.step(instruction),
            final(self)@.wf(),
    {
        reveal(MachineState::step);
        reveal(MachineState::cycles);
        let z = self.flag(Flag::Zero);
        match instruction {
            Instruction::Scf => {
                self.set_flags(z, false, false, true);
                4
            },
            _ => vstd::pervasive::unreached(),
        }
    }

    #[verifier::spinoff_prover]
    fn exec_ccf(&mut self, instruction: Instruction) -> (r: u32)
        requires
            old(self)@.wf(),
            instruction is Ccf,
        ensures
            r == old(self)@.cycles(instruction),
            final(self)@ == old(self)@.step(instruction),
            final(self)@.wf(),
    {
        reveal(MachineState::step);
        reveal(MachineState::cycles);
        let z = self.flag(Flag::Zero);
        let c = self.flag(Flag::Carry);
        match instruction {
            Instruction::Ccf => {
                self.set_flags(z, false, false, !c);
                4
            },
            _ => vstd::pervasive::unreached(),
        }
    }

    #[verifier::spinoff_prover]
    fn exec_rotate_a(&mut self, instruction: Instruction) -> (r: u32)
        requires
            old(self)@.wf(),
            instruction is RotateA,
        ensures
            r == old(self)@.cycles(instruction),
            final(self)@ == old(self)@.step(instruction),
            final(self)@.wf(),
    {
        reveal(MachineState::step);
        reveal(MachineState::cycles);
        let c = self.flag(Flag::Carry);
        match instruction {
            Instruction::RotateA(op) => {
                let (v, cc) = shift(op, self.accumulator(), c);
                Register8Index::A.set(self, v);
                self.set_flags(false, false, false, cc);
                4
            },
            _ => vstd::pervasive::unreached(),
        }
    }

    #[verifier::spinoff_prover]
    fn exec_shift(&mut self, instruction: Instruction) -> (r: u32)
        requires
            old(self)@.wf(),
            instruction is Shift,
        ensures
            r == old(self)@.cycles(instruction),
            final(self)@ == old(self)@.step(instruction),
            final(self)@.wf(),
    {
        reveal(MachineState::step);
        reveal(MachineState::cycles);
        let c = self.flag(Flag::Carry);
        match instruction {
            Instruction::Shift(op, r) => {
                let (v, cc) = shift(op, r.get(self), c);
                r.set(self, v);
                self.set_flags(v == 0, false, false, cc);
                (
                    if r == Register8Index::HL {
                        16
                    } else {
                        8
                    }
                )
            },
            _ => vstd::pervasive::unreached(),
        }
    }

    #[verifier::spinoff_prover]
    fn exec_test_bit(&mut self, instruction: Instruction) -> (r: u32)
        requires
            old(self)@.wf(),
            instruction is TestBit,
        ensures
            r == old(self)@.cycles(instruction),
            final(self)@ == old(self)@.step(instruction),
            final(self)@.wf(),
    {
        reveal(MachineState::step);
        reveal(MachineState::cycles);
        let c = self.flag(Flag::Carry);
        match instruction {
            Instruction::TestBit(b, r) => {
                let v = r.get(self);
                self.set_flags((v / bit_weight(b)) % 2 == 0, false, true, c);
                (
                    if r == Register8Index::HL {
                        12
                    } else {
                        8
                    }
                )
            },
            _ => vstd::pervasive::unreached(),
        }
    }

    #[verifier::spinoff_prover]
    fn exec_reset_bit(&mut self, instruction: Instruction) -> (r: u32)
        requires
            old(self)@.wf(),
            instruction is ResetBit,
        ensures
            r == old(self)@.cycles(instruction),
            final(self)@ == old(self)@.step(instruction),
            final(self)@.wf(),
    {
        reveal(MachineState::step);
        reveal(MachineState::cycles);
        match instruction {
            Instruction::ResetBit(b, r) => {
                let v = r.get(self);
                let w = bit_weight(b);
                proof {
                    lemma_bit_bounds(v, b);
                }
                r.set(
                    self,
                    if (v / w) % 2 == 1 {
                        v - w
                    } else {
                        v
                    }
                );
                (
                    if r == Register8Index::HL {
                        16
                    } else {
                        8
                    }
                )
            },
            _ => vstd::pervasive::unreached(),
        }
    }

    #[verifier::spinoff_prover]
    fn exec_set_bit(&mut self, instruction: Instruction) -> (r: u32)
        requires
            old(self)@.wf(),
            instruction is SetBit,
        ensures
            r == old(self)@.cycles(instruction),
            final(self)@ == old(self)@.step(instruction),
            final(self)@.wf(),
    {
        reveal(MachineState::step);
        reveal(MachineState::cycles);
        match instruction {
            Instruction::SetBit(b, r) => {
                let v = r.get(self);
                let w = bit_weight(b);
                proof {
                    lemma_bit_bounds(v, b);
                }
                r.set(
                    self,
                    if (v / w) % 2 == 1 {
                        v
                    } else {
                        v + w
                    }
                );
                (
                    if r == Register8Index::HL {
                        16
                    } else {
                        8
                    }
                )
            },
            _ => vstd::pervasive::unreached(),
        }
    }

    #[verifier::spinoff_prover]
    fn exec_load_hl_sp_offset(&mut self, instruction: Instruction) -> (r: u32)
        requires
            old(self)@.wf(),
            instruction is LoadHlSpOffset,
        ensures
            r == old(self)@.cycles(instruction),
            final(self)@ == old(self)@.step(instruction),
            final(self)@.wf(),
    {
        reveal(MachineState::step);
        reveal(MachineState::cycles);
        let sp = self.registers.sp.value;
        match instruction {
            Instruction::LoadHlSpOffset(e) => {
                let (v, hc, cc) = sp_offset(sp, e);
                Register16Index::HL.set(self, v);
                self.set_flags(false, false, hc, cc);
                12
            },
            _ => vstd::pervasive::unreached(),
        }
    }

    #[verifier::spinoff_prover]
    fn exec_load8(&mut self, instruction: Instruction) -> (r: u32)
        requires
            old(self)@.wf(),
            instruction is Load8,
        ensures
            r == old(self)@.cycles(instruction),
            final(self)@ == old(self)@.step(instruction),
            final(self)@.wf(),
    {
        reveal(MachineState::step);
        reveal(MachineState::cycles);
        match instruction {
            Instruction::Load8(d, s) => {
                let v = s.get(self);
                d.set(self, v);
                (
                    if d == Register8Index::HL || s == Register8Index::HL {
                        8
                    } else {
                        4
                    }
                )
            },
            _ => vstd::pervasive::unreached(),
        }
    }

    #[verifier::spinoff_prover]
    fn exec_load8_immediate(&mut self, instruction: Instruction) -> (r: u32)
        requires
            old(self)@.wf(),
            instruction is Load8Immediate,
        ensures
            r == old(self)@.cycles(instruction),
            final(self)@ == old(self)@.step(instruction),
            final(self)@.wf(),
    {
        reveal(MachineState::step);
        reveal(MachineState::cycles);
        match instruction {
            Instruction::Load8Immediate(d, v) => {
                d.set(self, v);
                (
                    if d == Register8Index::HL {
                        12
                    } else {
                        8
                    }
                )
            },
            _ => vstd::pervasive::unreached(),
        }
    }

    #[verifier::spinoff_prover]
    fn exec_load_a(&mut self, instruction: Instruction) -> (r: u32)
        requires
            old(self)@.wf(),
            instruction is LoadA,
        ensures
            r == old(self)@.cycles(instruction),
            final(self)@ == old(self)@.step(instruction),
            final(self)@.wf(),
    {
        reveal(MachineState::step);
        reveal(MachineState::cycles);
        let hl = self.registers.hl.value;
        match instruction {
            Instruction::LoadA(p, dir) => {
                let addr = self.pointer_address(p);
                match dir {
                    LoadDirection::From => {
                        let v = self.read_u8(addr);
                        Register8Index::A.set(self, v);
                    },
                    LoadDirection::Into => {
                        let a = self.accumulator();
                        self.write_u8(addr, a);
                    },
                }
                match p {
                    Pointer::HlIncrement => Register16Index::HL.set(
                        self,
                        if hl == 0xFFFF {
                            0
                        } else {
                            hl + 1
                        }
                    ),
                    Pointer::HlDecrement => Register16Index::HL.set(
                        self,
                        if hl == 0 {
                            0xFFFF
                        } else {
                            hl - 1
                        }
                    ),
                    _ => {},
                }
                match p {
                    Pointer::Address(_) => 16,
                    Pointer::HighOffset(_) => 12,
                    _ => 8,
                }
            },
            _ => vstd::pervasive::unreached(),
        }
    }

    #[verifier::spinoff_prover]
    fn exec_load16_immediate(&mut self, instruction: Instruction) -> (r: u32)
        requires
            old(self)@.wf(),
            instruction is Load16Immediate,
        ensures
            r == old(self)@.cycles(instruction),
            final(self)@ == old(self)@.step(instruction),
            final(self)@.wf(),
    {
        reveal(MachineState::step);
        reveal(MachineState::cycles);
        match instruction {
            Instruction::Load16Immediate(r, v) => {
                r.set(self, v);
                12
            },
            _ => vstd::pervasive::unreached(),
        }
    }

    #[verifier::spinoff_prover]
    fn exec_store_sp(&mut self, instruction: Instruction) -> (r: u32)
        requires
            old(self)@.wf(),
            instruction is StoreSp,
        ensures
            r == old(self)@.cycles(instruction),
            final(self)@ == old(self)@.step(instruction),
            final(self)@.wf(),
    {
        reveal(MachineState::step);
        reveal(MachineState::cycles);
        let sp = self.registers.sp.value;
        match instruction {
            Instruction::StoreSp(a) => {
                self.write_u16(a, sp);
                20
            },
            _ => vstd::pervasive::unreached(),
        }
    }

    #[verifier::spinoff_prover]
    fn exec_load_sp_hl(&mut self, instruction: Instruction) -> (r: u32)
        requires
            old(self)@.wf(),
            instruction is LoadSpHl,
        ensures
            r == old(self)@.cycles(instruction),
            final(self)@ == old(self)@.step(instruction),
            final(self)@.wf(),
    {
        reveal(MachineState::step);
        reveal(MachineState::cycles);
        let hl = self.registers.hl.value;
        match instruction {
            Instruction::LoadSpHl => {
                Register16Index::SP.set(self, hl);
                8
            },
            _ => vstd::pervasive::unreached(),
        }
    }

    #[verifier::spinoff_prover]
    fn exec_push(&mut self, instruction: Instruction) -> (r: u32)
        requires
            old(self)@.wf(),
            instruction is Push,
        ensures
            r == old(self)@.cycles(instruction),
            final(self)@ == old(self)@.step(instruction),
            final(self)@.wf(),
    {
        reveal(MachineState::step);
        reveal(MachineState::cycles);
        match instruction {
            Instruction::Push(r) => {
                let v = r.get(self);
                self.push(v);
                16
            },
            _ => vstd::pervasive::unreached(),
        }
    }

    #[verifier::spinoff_prover]
    fn exec_pop(&mut self, instruction: Instruction) -> (r: u32)
        requires
            old(self)@.wf(),
            instruction is Pop,
        ensures
            r == old(self)@.cycles(instruction),
            final(self)@ == old(self)@.step(instruction),
            final(self)@.wf(),
    {
        reveal(MachineState::step);
        reveal(MachineState::cycles);
        match instruction {
            Instruction::Pop(r) => {
                let v = self.pop();
                r.set(self, v);
                12
            },
            _ => vstd::pervasive::unreached(),
        }
    }

    #[verifier::spinoff_prover]
    fn exec_jump(&mut self, instruction: Instruction) -> (r: u32)
        requires
            old(self)@.wf(),
            instruction is Jump,
        ensures
            r == old(self)@.cycles(instruction),
            final(self)@ == old(self)@.step(instruction),
            final(self)@.wf(),
    {
        reveal(MachineState::step);
        reveal(MachineState::cycles);
        match instruction {
            Instruction::Jump(cond, a) => {
                if self.condition_holds(cond) {
                    Register16Index::PC.set(self, a);
                    16
                } else {
                    12
                }
            },
            _ => vstd::pervasive::unreached(),
        }
    }

    #[verifier::spinoff_prover]
    fn exec_jump_hl(&mut self, instruction: Instruction) -> (r: u32)
        requires
            old(self)@.wf(),
            instruction is JumpHl,
        ensures
            r == old(self)@.cycles(instruction),
            final(self)@ == old(self)@.step(instruction),
            final(self)@.wf(),
    {
        reveal(MachineState::step);
        reveal(MachineState::cycles);
        let hl = self.registers.hl.value;
        match instruction {
            Instruction::JumpHl => {
                Register16Index::PC.set(self, hl);
                4
            },
            _ => vstd::pervasive::unreached(),
        }
    }

    #[verifier::spinoff_prover]
    fn exec_jump_relative(&mut self, instruction: Instruction) -> (r: u32)
        requires
            old(self)@.wf(),
            instruction is JumpRelative,
        ensures
            r == old(self)@.cycles(instruction),
            final(self)@ == old(self)@.step(instruction),
            final(self)@.wf(),
    {
        reveal(MachineState::step);
        reveal(MachineState::cycles);
        let pc = self.registers.pc.value;
        match instruction {
            Instruction::JumpRelative(cond, e) => {
                if self.condition_holds(cond) {
                    Register16Index::PC.set(self, relative(pc, e));
                    12
                } else {
                    8
                }
            },
            _ => vstd::pervasive::unreached(),
        }
    }

    #[verifier::spinoff_prover]
    fn exec_call(&mut self, instruction: Instruction) -> (r: u32)
        requires
            old(self)@.wf(),
            instruction is Call,
        ensures
            r == old(self)@.cycles(instruction),
            final(self)@ == old(self)@.step(instruction),
            final(self)@.wf(),
    {
        reveal(MachineState::step);
        reveal(MachineState::cycles);
        let pc = self.registers.pc.value;
        match instruction {
            Instruction::Call(cond, a) => {
                if self.condition_holds(cond) {
                    self.push(pc);
                    Register16Index::PC.set(self, a);
                    24
                } else {
                    12
                }
            },
            _ => vstd::pervasive::unreached(),
        }
    }

    #[verifier::spinoff_prover]
    fn exec_ret(&mut self, instruction: Instruction) -> (r: u32)
        requires
            old(self)@.wf(),
            instruction is Ret,
        ensures
            r == old(self)@.cycles(instruction),
            final(self)@ == old(self)@.step(instruction),
            final(self)@.wf(),
    {
        reveal(MachineState::step);
        reveal(MachineState::cycles);
        match instruction {
            Instruction::Ret(cond) => {
                if self.condition_holds(cond) {
                    let v = self.pop();
                    Register16Index::PC.set(self, v);
                    (
                        if cond.is_some() {
                            20
                        } else {
                            16
                        }
                    )
                } else {
                    8
                }
            },
            _ => vstd::pervasive::unreached(),
        }
    }

    #[verifier::spinoff_prover]
    fn exec_reti(&mut self, instruction: Instruction) -> (r: u32)
        requires
            old(self)@.wf(),
            instruction is Reti,
        ensures
            r == old(self)@.cycles(instruction),
            final(self)@ == old(self)@.step(instruction),
            final(self)@.wf(),
    {
        reveal(MachineState::step);
        reveal(MachineState::cycles);
        match instruction {
            Instruction::Reti => {
                let v = self.pop();
                Register16Index::PC.set(self, v);
                self.set_ime(true);
                16
            },
            _ => vstd::pervasive::unreached(),
        }
    }

    #[verifier::spinoff_prover]
    fn exec_rst(&mut self, instruction: Instruction) -> (r: u32)
        requires
            old(self)@.wf(),
            instruction is Rst,
        ensures
            r == old(self)@.cycles(instruction),
            final(self)@ == old(self)@.step(instruction),
            final(self)@.wf(),
    {
        reveal(MachineState::step);
        reveal(MachineState::cycles);
        let pc = self.registers.pc.value;
        match instruction {
            Instruction::Rst(v) => {
                self.push(pc);
                Register16Index::PC.set(self, v as u16);
                16
            },
            _ => vstd::pervasive::unreached(),
        }
    }

    /// Executes one decoded instruction and returns the T-cycles it took.
    ///
    /// STOP and HALT are not modelled: they leave the machine as it is and report
    /// `UnsupportedControl` at their own address.
    pub fn execute(&mut self, instruction: Instruction) -> (r: Result<u32, CpuError>)
        requires
            old(self)@.wf(),
        ensures
            r == old(self)@.outcome(instruction),
            r is Ok ==> final(self)@ == old(self)@.step(instruction),
            r is Err ==> final(self)@ == old(self)@,
            r is Ok ==> documented_cycles(r->Ok_0),
            final(self)@.wf(),
    {
        proof {
            lemma_cycles_documented(old(self)@, instruction);
            reveal(MachineState::step);
            reveal(MachineState::cycles);
        }
        let pc = self.registers.pc.value;
        match instruction {
            Instruction::Nop => Ok(4),
            Instruction::Stop | Instruction::Halt => Err(
                CpuError::UnsupportedControl {
                    pc: if pc == 0 {
                        0xFFFF
                    } else {
                        pc - 1
                    },
                },
            ),
            Instruction::Di => {
                self.set_ime(false);
                Ok(4)
            },
            Instruction::Ei => {
                self.set_ime(true);
                Ok(4)
            },
            Instruction::Alu(..) => Ok(self.exec_alu(instruction)),
            Instruction::AluImmediate(..) => Ok(self.exec_alu_immediate(instruction)),
            Instruction::Inc8(..) => Ok(self.exec_inc8(instruction)),
            Instruction::Dec8(..) => Ok(self.exec_dec8(instruction)),
            Instruction::Inc16(..) => Ok(self.exec_inc16(instruction)),
            Instruction::Dec16(..) => Ok(self.exec_dec16(instruction)),
            Instruction::AddHl(..) => Ok(self.exec_add_hl(instruction)),
            Instruction::AddSp(..) => Ok(self.exec_add_sp(instruction)),
            Instruction::Daa => Ok(self.exec_daa(instruction)),
            Instruction::Cpl => Ok(self.exec_cpl(instruction)),
            Instruction::Scf => Ok(self.exec_scf(instruction)),
            Instruction::Ccf => Ok(self.exec_ccf(instruction)),
            Instruction::RotateA(..) => Ok(self.exec_rotate_a(instruction)),
            Instruction::Shift(..) => Ok(self.exec_shift(instruction)),
            Instruction::TestBit(..) => Ok(self.exec_test_bit(instruction)),
            Instruction::ResetBit(..) => Ok(self.exec_reset_bit(instruction)),
            Instruction::SetBit(..) => Ok(self.exec_set_bit(instruction)),
            Instruction::LoadHlSpOffset(..) => Ok(self.exec_load_hl_sp_offset(instruction)),
            Instruction::Load8(..) => Ok(self.exec_load8(instruction)),
            Instruction::Load8Immediate(..) => Ok(self.exec_load8_immediate(instruction)),
            Instruction::LoadA(..) => Ok(self.exec_load_a(instruction)),
            Instruction::Load16Immediate(..) => Ok(self.exec_load16_immediate(instruction)),
            Instruction::StoreSp(..) => Ok(self.exec_store_sp(instruction)),
            Instruction::LoadSpHl => Ok(self.exec_load_sp_hl(instruction)),
            Instruction::Push(..) => Ok(self.exec_push(instruction)),
            Instruction::Pop(..) => Ok(self.exec_pop(instruction)),
            Instruction::Jump(..) => Ok(self.exec_jump(instruction)),
            Instruction::JumpHl => Ok(self.exec_jump_hl(instruction)),
            Instruction::JumpRelative(..) => Ok(self.exec_jump_relative(instruction)),
            Instruction::Call(..) => Ok(self.exec_call(instruction)),
            Instruction::Ret(..) => Ok(self.exec_ret(instruction)),
            Instruction::Reti => Ok(self.exec_reti(instruction)),
            Instruction::Rst(..) => Ok(self.exec_rst(instruction)),
        }
    }
}

} // verus!
