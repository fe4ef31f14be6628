use vstd::prelude::*;

use super::{
    prev_addr, AluOp, Condition, CpuError, Instruction, LoadDirection, Pointer, Register16Index,
    Register8Index, ShiftOp,
};
use crate::cpu::word;
use crate::memory::{lemma_read_frame, next_addr};
use crate::{GameBoy, MachineState};

verus! {

pub open spec fn spec_alu_op(i: u8) -> AluOp {
    if i == 0 {
        AluOp::Add
    } else if i == 1 {
        AluOp::Adc
    } else if i == 2 {
        AluOp::Sub
    } else if i == 3 {
        AluOp::Sbc
    } else if i == 4 {
        AluOp::And
    } else if i == 5 {
        AluOp::Xor
    } else if i == 6 {
        AluOp::Or
    } else {
        AluOp::Cp
    }
}

/// The ALU operation of index `i` (bits 5-3 of the opcode).
#[verifier::when_used_as_spec(spec_alu_op)]
pub fn alu_op(i: u8) -> (r: AluOp)
    ensures
        r == spec_alu_op(i),
{
    if i == 0 {
        AluOp::Add
    } else if i == 1 {
        AluOp::Adc
    } else if i == 2 {
        AluOp::Sub
    } else if i == 3 {
        AluOp::Sbc
    } else if i == 4 {
        AluOp::And
    } else if i == 5 {
        AluOp::Xor
    } else if i == 6 {
        AluOp::Or
    } else {
        AluOp::Cp
    }
}

pub open spec fn spec_shift_op(i: u8) -> ShiftOp {
    if i == 0 {
        ShiftOp::Rlc
    } else if i == 1 {
        ShiftOp::Rrc
    } else if i == 2 {
        ShiftOp::Rl
    } else if i == 3 {
        ShiftOp::Rr
    } else if i == 4 {
        ShiftOp::Sla
    } else if i == 5 {
        ShiftOp::Sra
    } else if i == 6 {
        ShiftOp::Swap
    } else {
        ShiftOp::Srl
    }
}

/// The rotate or shift of index `i` (bits 5-3 of a CB opcode below 0x40).
#[verifier::when_used_as_spec(spec_shift_op)]
pub fn shift_op(i: u8) -> (r: ShiftOp)
    ensures
        r == spec_shift_op(i),
{
    if i == 0 {
        ShiftOp::Rlc
    } else if i == 1 {
        ShiftOp::Rrc
    } else if i == 2 {
        ShiftOp::Rl
    } else if i == 3 {
        ShiftOp::Rr
    } else if i == 4 {
        ShiftOp::Sla
    } else if i == 5 {
        ShiftOp::Sra
    } else if i == 6 {
        ShiftOp::Swap
    } else {
        ShiftOp::Srl
    }
}

pub open spec fn spec_condition(i: u8) -> Condition {
    if i == 0 {
        Condition::NotZero
    } else if i == 1 {
        Condition::Zero
    } else if i == 2 {
        Condition::NotCarry
    } else {
        Condition::Carry
    }
}

/// The condition of index `i` (bits 4-3 of the opcode).
#[verifier::when_used_as_spec(spec_condition)]
pub fn condition(i: u8) -> (r: Condition)
    ensures
        r == spec_condition(i),
{
    if i == 0 {
        Condition::NotZero
    } else if i == 1 {
        Condition::Zero
    } else if i == 2 {
        Condition::NotCarry
    } else {
        Condition::Carry
    }
}

/// The byte read as a two's complement number.
pub open spec fn spec_signed_byte(b: u8) -> i8 {
    if b < 128 {
        b as i8
    } else {
        (b as int - 256) as i8
    }
}

#[verifier::when_used_as_spec(spec_signed_byte)]
pub fn signed_byte(b: u8) -> (r: i8)
    ensures
        r == spec_signed_byte(b),
{
    if b < 128 {
        b as i8
    } else {
        (b as i16 - 256) as i8
    }
}

pub open spec fn spec_make_word(hi: u8, lo: u8) -> u16 {
    word(hi, lo)
}

/// The little-endian word of two immediate bytes.
#[verifier::when_used_as_spec(spec_make_word)]
pub fn make_word(hi: u8, lo: u8) -> (r: u16)
    ensures
        r == word(hi, lo),
{
    (hi as u16) * 256 + lo as u16
}

/// The instruction that `opcode` and the bytes after it (`b1`, then `b2`) encode, if any.
/// Bytes past the instruction's length are not looked at.
#[verifier::opaque]
pub open spec fn spec_decode(opcode: u8, b1: u8, b2: u8) -> Option<Instruction> {

    if opcode == 0x00 {
        Some(Instruction::Nop)
    } else if opcode == 0x10 {
        Some(Instruction::Stop)
    } else if opcode == 0x76 {
        Some(Instruction::Halt)
    } else if opcode == 0xF3 {
        Some(Instruction::Di)
    } else if opcode == 0xFB {
        Some(Instruction::Ei)
    } else if opcode == 0x07 {
        Some(Instruction::RotateA(ShiftOp::Rlc))
    } else if opcode == 0x0F {
        Some(Instruction::RotateA(ShiftOp::Rrc))
    } else if opcode == 0x17 {
        Some(Instruction::RotateA(ShiftOp::Rl))
    } else if opcode == 0x1F {
        Some(Instruction::RotateA(ShiftOp::Rr))
    } else if opcode == 0x27 {
        Some(Instruction::Daa)
    } else if opcode == 0x2F {
        Some(Instruction::Cpl)
    } else if opcode == 0x37 {
        Some(Instruction::Scf)
    } else if opcode == 0x3F {
        Some(Instruction::Ccf)
    } else if opcode == 0x18 {
        Some(Instruction::JumpRelative(None, signed_byte(b1)))
    } else if opcode == 0x20 || opcode == 0x28 || opcode == 0x30 || opcode == 0x38 {
        Some(Instruction::JumpRelative(Some(condition((opcode / 8 % 4) as u8)), signed_byte(b1)))
    } else if opcode == 0xC3 {
        Some(Instruction::Jump(None, make_word(b2, b1)))
    } else if opcode == 0xC2 || opcode == 0xCA || opcode == 0xD2 || opcode == 0xDA {
        Some(Instruction::Jump(Some(condition((opcode / 8 % 4) as u8)), make_word(b2, b1)))
    } else if opcode == 0xE9 {
        Some(Instruction::JumpHl)
    } else if opcode == 0xCD {
        Some(Instruction::Call(None, make_word(b2, b1)))
    } else if opcode == 0xC4 || opcode == 0xCC || opcode == 0xD4 || opcode == 0xDC {
        Some(Instruction::Call(Some(condition((opcode / 8 % 4) as u8)), make_word(b2, b1)))
    } else if opcode == 0xC9 {
        Some(Instruction::Ret(None))
    } else if opcode == 0xC0 || opcode == 0xC8 || opcode == 0xD0 || opcode == 0xD8 {
        Some(Instruction::Ret(Some(condition((opcode / 8 % 4) as u8))))
    } else if opcode == 0xD9 {
        Some(Instruction::Reti)
    } else if opcode >= 0xC0 && opcode % 8 == 7 {
        Some(Instruction::Rst((opcode - 0xC7) as u8))
    } else if 0x80 <= opcode && opcode <= 0xBF {
        Some(
            Instruction::Alu(
                alu_op((opcode / 8 % 8) as u8),
                Register8Index::from_index((opcode % 8) as u8),
            ),
        )
    } else if opcode >= 0xC0 && opcode % 8 == 6 {
        Some(Instruction::AluImmediate(alu_op((opcode / 8 % 8) as u8), b1))
    } else if 0x40 <= opcode && opcode <= 0x7F {
        Some(
            Instruction::Load8(
                Register8Index::from_index((opcode / 8 % 8) as u8),
                Register8Index::from_index((opcode % 8) as u8),
            ),
        )
    } else if opcode < 0x40 && opcode % 8 == 4 {
        Some(Instruction::Inc8(Register8Index::from_index((opcode / 8) as u8)))
    } else if opcode < 0x40 && opcode % 8 == 5 {
        Some(Instruction::Dec8(Register8Index::from_index((opcode / 8) as u8)))
    } else if opcode < 0x40 && opcode % 8 == 6 {
        Some(Instruction::Load8Immediate(Register8Index::from_index((opcode / 8) as u8), b1))
    } else if opcode < 0x40 && opcode % 16 == 3 {
        Some(Instruction::Inc16(Register16Index::from_index((opcode / 16) as u8)))
    } else if opcode < 0x40 && opcode % 16 == 0x0B {
        Some(Instruction::Dec16(Register16Index::from_index((opcode / 16) as u8)))
    } else if opcode < 0x40 && opcode % 16 == 9 {
        Some(Instruction::AddHl(Register16Index::from_index((opcode / 16) as u8)))
    } else if opcode < 0x40 && opcode % 16 == 1 {
        Some(
            Instruction::Load16Immediate(
                Register16Index::from_index((opcode / 16) as u8),
                make_word(b2, b1),
            ),
        )
    } else if opcode == 0x02 {
        Some(Instruction::LoadA(Pointer::Register(Register16Index::BC), LoadDirection::Into))
    } else if opcode == 0x12 {
        Some(Instruction::LoadA(Pointer::Register(Register16Index::DE), LoadDirection::Into))
    } else if opcode == 0x0A {
        Some(Instruction::LoadA(Pointer::Register(Register16Index::BC), LoadDirection::From))
    } else if opcode == 0x1A {
        Some(Instruction::LoadA(Pointer::Register(Register16Index::DE), LoadDirection::From))
    } else if opcode == 0x22 {
        Some(Instruction::LoadA(Pointer::HlIncrement, LoadDirection::Into))
    } else if opcode == 0x2A {
        Some(Instruction::LoadA(Pointer::HlIncrement, LoadDirection::From))
    } else if opcode == 0x32 {
        Some(Instruction::LoadA(Pointer::HlDecrement, LoadDirection::Into))
    } else if opcode == 0x3A {
        Some(Instruction::LoadA(Pointer::HlDecrement, LoadDirection::From))
    } else if opcode == 0x08 {
        Some(Instruction::StoreSp(make_word(b2, b1)))
    } else if opcode == 0xE0 {
        Some(Instruction::LoadA(Pointer::HighOffset(b1), LoadDirection::Into))
    } else if opcode == 0xF0 {
        Some(Instruction::LoadA(Pointer::HighOffset(b1), LoadDirection::From))
    } else if opcode == 0xE2 {
        Some(Instruction::LoadA(Pointer::HighC, LoadDirection::Into))
    } else if opcode == 0xF2 {
        Some(Instruction::LoadA(Pointer::HighC, LoadDirection::From))
    } else if opcode == 0xEA {
        Some(Instruction::LoadA(Pointer::Address(make_word(b2, b1)), LoadDirection::Into))
    } else if opcode == 0xFA {
        Some(Instruction::LoadA(Pointer::Address(make_word(b2, b1)), LoadDirection::From))
    } else if opcode == 0xE8 {
        Some(Instruction::AddSp(signed_byte(b1)))
    } else if opcode == 0xF8 {
        Some(Instruction::LoadHlSpOffset(signed_byte(b1)))
    } else if opcode == 0xF9 {
        Some(Instruction::LoadSpHl)
    } else if opcode >= 0xC0 && opcode % 16 == 5 {
        Some(Instruction::Push(Register16Index::from_stack_index((opcode / 16 % 4) as u8)))
    } else if opcode >= 0xC0 && opcode % 16 == 1 {
        Some(Instruction::Pop(Register16Index::from_stack_index((opcode / 16 % 4) as u8)))
    } else if opcode == 0xCB {
        if b1 < 0x40 {
            Some(
                Instruction::Shift(
                    shift_op((b1 / 8) as u8),
                    Register8Index::from_index((b1 % 8) as u8),
                ),
            )
        } else if b1 < 0x80 {
            Some(
                Instruction::TestBit(
                    (b1 / 8 % 8) as u8,
                    Register8Index::from_index((b1 % 8) as u8),
                ),
            )
        } else if b1 < 0xC0 {
            Some(
                Instruction::ResetBit(
                    (b1 / 8 % 8) as u8,
                    Register8Index::from_index((b1 % 8) as u8),
                ),
            )
        } else {
            Some(
                Instruction::SetBit(
                    (b1 / 8 % 8) as u8,
                    Register8Index::from_index((b1 % 8) as u8),
                ),
            )
        }
    } else {
        None
    }
}

/// Decodes an opcode and its immediate bytes.
pub fn decode_bytes(opcode: u8, b1: u8, b2: u8) -> (r: Option<Instruction>)
    ensures
        r == spec_decode(opcode, b1, b2),
{
    reveal(spec_decode);

    if opcode == 0x00 {
        Some(Instruction::Nop)
    } else if opcode == 0x10 {
        Some(Instruction::Stop)
    } else if opcode == 0x76 {
        Some(Instruction::Halt)
    } else if opcode == 0xF3 {
        Some(Instruction::Di)
    } else if opcode == 0xFB {
        Some(Instruction::Ei)
    } else if opcode == 0x07 {
        Some(Instruction::RotateA(ShiftOp::Rlc))
    } else if opcode == 0x0F {
        Some(Instruction::RotateA(ShiftOp::Rrc))
    } else if opcode == 0x17 {
        Some(Instruction::RotateA(ShiftOp::Rl))
    } else if opcode == 0x1F {
        Some(Instruction::RotateA(ShiftOp::Rr))
    } else if opcode == 0x27 {
        Some(Instruction::Daa)
    } else if opcode == 0x2F {
        Some(Instruction::Cpl)
    } else if opcode == 0x37 {
        Some(Instruction::Scf)
    } else if opcode == 0x3F {
        Some(Instruction::Ccf)
    } else if opcode == 0x18 {
        Some(Instruction::JumpRelative(None, signed_byte(b1)))
    } else if opcode == 0x20 || opcode == 0x28 || opcode == 0x30 || opcode == 0x38 {
        Some(Instruction::JumpRelative(Some(condition((opcode / 8 % 4) as u8)), signed_byte(b1)))
    } else if opcode == 0xC3 {
        Some(Instruction::Jump(None, make_word(b2, b1)))
    } else if opcode == 0xC2 || opcode == 0xCA || opcode == 0xD2 || opcode == 0xDA {
        Some(Instruction::Jump(Some(condition((opcode / 8 % 4) as u8)), make_word(b2, b1)))
    } else if opcode == 0xE9 {
        Some(Instruction::JumpHl)
    } else if opcode == 0xCD {
        Some(Instruction::Call(None, make_word(b2, b1)))
    } else if opcode == 0xC4 || opcode == 0xCC || opcode == 0xD4 || opcode == 0xDC {
        Some(Instruction::Call(Some(condition((opcode / 8 % 4) as u8)), make_word(b2, b1)))
    } else if opcode == 0xC9 {
        Some(Instruction::Ret(None))
    } else if opcode == 0xC0 || opcode == 0xC8 || opcode == 0xD0 || opcode == 0xD8 {
        Some(Instruction::Ret(Some(condition((opcode / 8 % 4) as u8))))
    } else if opcode == 0xD9 {
        Some(Instruction::Reti)
    } else if opcode >= 0xC0 && opcode % 8 == 7 {
        Some(Instruction::Rst((opcode - 0xC7) as u8))
    } else if 0x80 <= opcode && opcode <= 0xBF {
        Some(
            Instruction::Alu(
                alu_op((opcode / 8 % 8) as u8),
                Register8Index::from_index((opcode % 8) as u8),
            ),
        )
    } else if opcode >= 0xC0 && opcode % 8 == 6 {
        Some(Instruction::AluImmediate(alu_op((opcode / 8 % 8) as u8), b1))
    } else if 0x40 <= opcode && opcode <= 0x7F {
        Some(
            Instruction::Load8(
                Register8Index::from_index((opcode / 8 % 8) as u8),
                Register8Index::from_index((opcode % 8) as u8),
            ),
        )
    } else if opcode < 0x40 && opcode % 8 == 4 {
        Some(Instruction::Inc8(Register8Index::from_index((opcode / 8) as u8)))
    } else if opcode < 0x40 && opcode % 8 == 5 {
        Some(Instruction::Dec8(Register8Index::from_index((opcode / 8) as u8)))
    } else if opcode < 0x40 && opcode % 8 == 6 {
        Some(Instruction::Load8Immediate(Register8Index::from_index((opcode / 8) as u8), b1))
    } else if opcode < 0x40 && opcode % 16 == 3 {
        Some(Instruction::Inc16(Register16Index::from_index((opcode / 16) as u8)))
    } else if opcode < 0x40 && opcode % 16 == 0x0B {
        Some(Instruction::Dec16(Register16Index::from_index((opcode / 16) as u8)))
    } else if opcode < 0x40 && opcode % 16 == 9 {
        Some(Instruction::AddHl(Register16Index::from_index((opcode / 16) as u8)))
    } else if opcode < 0x40 && opcode % 16 == 1 {
        Some(
            Instruction::Load16Immediate(
                Register16Index::from_index((opcode / 16) as u8),
                make_word(b2, b1),
            ),
        )
    } else if opcode == 0x02 {
        Some(Instruction::LoadA(Pointer::Register(Register16Index::BC), LoadDirection::Into))
    } else if opcode == 0x12 {
        Some(Instruction::LoadA(Pointer::Register(Register16Index::DE), LoadDirection::Into))
    } else if opcode == 0x0A {
        Some(Instruction::LoadA(Pointer::Register(Register16Index::BC), LoadDirection::From))
    } else if opcode == 0x1A {
        Some(Instruction::LoadA(Pointer::Register(Register16Index::DE), LoadDirection::From))
    } else if opcode == 0x22 {
        Some(Instruction::LoadA(Pointer::HlIncrement, LoadDirection::Into))
    } else if opcode == 0x2A {
        Some(Instruction::LoadA(Pointer::HlIncrement, LoadDirection::From))
    } else if opcode == 0x32 {
        Some(Instruction::LoadA(Pointer::HlDecrement, LoadDirection::Into))
    } else if opcode == 0x3A {
        Some(Instruction::LoadA(Pointer::HlDecrement, LoadDirection::From))
    } else if opcode == 0x08 {
        Some(Instruction::StoreSp(make_word(b2, b1)))
    } else if opcode == 0xE0 {
        Some(Instruction::LoadA(Pointer::HighOffset(b1), LoadDirection::Into))
    } else if opcode == 0xF0 {
        Some(Instruction::LoadA(Pointer::HighOffset(b1), LoadDirection::From))
    } else if opcode == 0xE2 {
        Some(Instruction::LoadA(Pointer::HighC, LoadDirection::Into))
    } else if opcode == 0xF2 {
        Some(Instruction::LoadA(Pointer::HighC, LoadDirection::From))
    } else if opcode == 0xEA {
        Some(Instruction::LoadA(Pointer::Address(make_word(b2, b1)), LoadDirection::Into))
    } else if opcode == 0xFA {
        Some(Instruction::LoadA(Pointer::Address(make_word(b2, b1)), LoadDirection::From))
    } else if opcode == 0xE8 {
        Some(Instruction::AddSp(signed_byte(b1)))
    } else if opcode == 0xF8 {
        Some(Instruction::LoadHlSpOffset(signed_byte(b1)))
    } else if opcode == 0xF9 {
        Some(Instruction::LoadSpHl)
    } else if opcode >= 0xC0 && opcode % 16 == 5 {
        Some(Instruction::Push(Register16Index::from_stack_index((opcode / 16 % 4) as u8)))
    } else if opcode >= 0xC0 && opcode % 16 == 1 {
        Some(Instruction::Pop(Register16Index::from_stack_index((opcode / 16 % 4) as u8)))
    } else if opcode == 0xCB {
        if b1 < 0x40 {
            Some(
                Instruction::Shift(
                    shift_op((b1 / 8) as u8),
                    Register8Index::from_index((b1 % 8) as u8),
                ),
            )
        } else if b1 < 0x80 {
            Some(
                Instruction::TestBit(
                    (b1 / 8 % 8) as u8,
                    Register8Index::from_index((b1 % 8) as u8),
                ),
            )
        } else if b1 < 0xC0 {
            Some(
                Instruction::ResetBit(
                    (b1 / 8 % 8) as u8,
                    Register8Index::from_index((b1 % 8) as u8),
                ),
            )
        } else {
            Some(
                Instruction::SetBit(
                    (b1 / 8 % 8) as u8,
                    Register8Index::from_index((b1 % 8) as u8),
                ),
            )
        }
    } else {
        None
    }
}

/// The decoded instruction depends on no byte past the instruction's length.
pub proof fn lemma_decode_reads_immediates(opcode: u8, b1: u8, b2: u8, c1: u8, c2: u8)
    requires
        spec_immediate_len(opcode) >= 1 ==> b1 == c1,
        spec_immediate_len(opcode) >= 2 ==> b2 == c2,
    ensures
        spec_decode(opcode, b1, b2) == spec_decode(opcode, c1, c2),
{
    reveal(spec_decode);
}

/// Number of bytes that follow `opcode`: its immediates, or the second byte of a
/// CB-prefixed opcode.
pub open spec fn spec_immediate_len(opcode: u8) -> u16 {

    if opcode == 0xC3 || opcode == 0xC2 || opcode == 0xCA || opcode == 0xD2 || opcode == 0xDA
        || opcode == 0xCD || opcode == 0xC4 || opcode == 0xCC || opcode == 0xD4 || opcode == 0xDC
        || opcode == 0xEA || opcode == 0xFA || opcode == 0x08 || (opcode < 0x40 && opcode % 16 == 1) {
        2
    } else if opcode == 0x18 || opcode == 0x20 || opcode == 0x28 || opcode == 0x30 || opcode == 0x38
        || (opcode >= 0xC0 && opcode % 8 == 6) || (opcode < 0x40 && opcode % 8 == 6)
        || opcode == 0xE0 || opcode == 0xF0 || opcode == 0xE8 || opcode == 0xF8 || opcode == 0xCB {
        1
    } else {
        0
    }
}

#[verifier::when_used_as_spec(spec_immediate_len)]
pub fn immediate_len(opcode: u8) -> (r: u16)
    ensures
        r == spec_immediate_len(opcode),
{

    if opcode == 0xC3 || opcode == 0xC2 || opcode == 0xCA || opcode == 0xD2 || opcode == 0xDA
        || opcode == 0xCD || opcode == 0xC4 || opcode == 0xCC || opcode == 0xD4 || opcode == 0xDC
        || opcode == 0xEA || opcode == 0xFA || opcode == 0x08 || (opcode < 0x40 && opcode % 16 == 1) {
        2
    } else if opcode == 0x18 || opcode == 0x20 || opcode == 0x28 || opcode == 0x30 || opcode == 0x38
        || (opcode >= 0xC0 && opcode % 8 == 6) || (opcode < 0x40 && opcode % 8 == 6)
        || opcode == 0xE0 || opcode == 0xF0 || opcode == 0xE8 || opcode == 0xF8 || opcode == 0xCB {
        1
    } else {
        0
    }
}

/// `addr` advanced by `n` bytes, wrapping past 0xFFFF.
pub open spec fn advance(addr: u16, n: u16) -> u16 {
    ((addr as int + n as int) % 0x10000) as u16
}

/// Length in bytes of the instruction that starts with `opcode`.
pub open spec fn instruction_length(opcode: u8) -> u16 {
    (1 + spec_immediate_len(opcode)) as u16
}

/// Fetching an opcode and decoding it leaves PC just past the instruction, which is
/// one to three bytes long.
pub proof fn lemma_fetch_decode_advance(pc: u16, opcode: u8)
    ensures
        1 <= instruction_length(opcode) <= 3,
        advance(next_addr(pc), spec_immediate_len(opcode)) == advance(
            pc,
            instruction_length(opcode),
        ),
{
}

impl MachineState {
    /// The bytes at PC and after it, as the decoder fetches them.
    pub open spec fn byte_at_pc(self, k: u16) -> u8 {
        self.read(advance(self.regs.pc.value, k))
    }

    /// What decoding `opcode`, fetched at the address before PC, yields.
    pub open spec fn decoded(self, opcode: u8) -> Result<Instruction, CpuError> {
        match spec_decode(opcode, self.byte_at_pc(0), self.byte_at_pc(1)) {
            Some(i) => Ok(i),
            None => Err(
                CpuError::UnimplementedOpcode { opcode, pc: prev_addr(self.regs.pc.value) },
            ),
        }
    }
}

impl GameBoy {
    /// Returns the byte at PC and advances PC by one.
    pub fn fetch(&mut self) -> (r: u8)
        requires
            old(self)@.wf(),
        ensures
            r == old(self)@.read(old(self)@.regs.pc.value),
            final(self)@ == old(self)@.with_pc(next_addr(old(self)@.regs.pc.value)),
            final(self)@.wf(),
    {
        let pc = self.registers.pc.value;
        let r = self.read_u8(pc);
        self.registers.pc.value = if pc == 0xFFFF {
            0
        } else {
            pc + 1
        };
        r
    }

    /// Decodes `opcode`, fetching its immediate bytes (or the second byte of a CB
    /// opcode) from PC onwards.
    pub fn decode(&mut self, opcode: u8) -> (r: Result<Instruction, CpuError>)
        requires
            old(self)@.wf(),
        ensures
            r == old(self)@.decoded(opcode),
            final(self)@ == old(self)@.with_pc(
                advance(old(self)@.regs.pc.value, spec_immediate_len(opcode)),
            ),
            final(self)@.wf(),
    {
        let n = immediate_len(opcode);
        let pc = self.registers.pc.value;
        let b1 = if n >= 1 {
            self.fetch()
        } else {
            0
        };
        let b2 = if n >= 2 {
            self.fetch()
        } else {
            0
        };
        proof {
            let s0 = old(self)@;
            assert(advance(pc, 0) == pc);
            lemma_read_frame(s0, s0.with_pc(next_addr(pc)), next_addr(pc));
            assert(advance(pc, 1) == next_addr(pc));
            assert(advance(pc, 2) == advance(next_addr(pc), 1));
            assert(advance(pc, 2) == next_addr(next_addr(pc)));
            lemma_decode_reads_immediates(opcode, b1, b2, s0.byte_at_pc(0), s0.byte_at_pc(1));
        }
        match decode_bytes(opcode, b1, b2) {
            Some(i) => Ok(i),
            None => {
                let at = if pc == 0 {
                    0xFFFF
                } else {
                    pc - 1
                };
                Err(CpuError::UnimplementedOpcode { opcode, pc: at })
            },
        }
    }
}

} // verus!
