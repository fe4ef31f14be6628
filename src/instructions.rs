use vstd::prelude::*;

use crate::cpu::{word, Register, RegisterFile};
use crate::{GameBoy, MachineState};

pub mod decode;
pub mod execute;

verus! {

/// An 8-bit operand: a register half, or the byte that HL points to.
#[derive(Debug, Clone, Copy, PartialEq, Eq, Structural)]
pub enum Register8Index {
    A,
    B,
    C,
    D,
    E,
    H,
    L,
    F,
    HL,
}

/// A 16-bit register.
#[derive(Debug, Clone, Copy, PartialEq, Eq, Structural)]
pub enum Register16Index {
    AF,
    BC,
    DE,
    HL,
    SP,
    PC,
}

/// The eight 8-bit arithmetic and logic operations on A.
#[derive(Debug, Clone, Copy, PartialEq, Eq, Structural)]
pub enum AluOp {
    Add,
    Adc,
    Sub,
    Sbc,
    And,
    Xor,
    Or,
    Cp,
}

/// The rotates, shifts and nibble swap of the CB-prefixed table.
#[derive(Debug, Clone, Copy, PartialEq, Eq, Structural)]
pub enum ShiftOp {
    Rlc,
    Rrc,
    Rl,
    Rr,
    Sla,
    Sra,
    Swap,
    Srl,
}

/// Condition of a conditional jump, call or return.
#[derive(Debug, Clone, Copy, PartialEq, Eq, Structural)]
pub enum Condition {
    NotZero,
    Zero,
    NotCarry,
    Carry,
}

/// Direction of a transfer between A and memory.
#[derive(Debug, Clone, Copy, PartialEq, Eq, Structural)]
pub enum LoadDirection {
    /// A is loaded from memory.
    From,
    /// A is stored into memory.
    Into,
}

/// The address of a transfer between A and memory.
#[derive(Debug, Clone, Copy, PartialEq, Eq, Structural)]
pub enum Pointer {
    /// A 16-bit immediate address.
    Address(u16),
    /// 0xFF00 plus an immediate offset.
    HighOffset(u8),
    /// 0xFF00 plus C.
    HighC,
    /// The address in a 16-bit register.
    Register(Register16Index),
    /// The address in HL, which is then incremented.
    HlIncrement,
    /// The address in HL, which is then decremented.
    HlDecrement,
}

/// A decoded instruction.
#[derive(Debug, Clone, Copy, PartialEq, Eq, Structural)]
pub enum Instruction {
    Nop,
    Stop,
    Halt,
    Di,
    Ei,
    /// ALU operation on A and a register or (HL).
    Alu(AluOp, Register8Index),
    /// ALU operation on A and an immediate byte.
    AluImmediate(AluOp, u8),
    Inc8(Register8Index),
    Dec8(Register8Index),
    Inc16(Register16Index),
    Dec16(Register16Index),
    /// ADD HL, rr
    AddHl(Register16Index),
    /// ADD SP, e8
    AddSp(i8),
    Daa,
    Cpl,
    Scf,
    Ccf,
    /// RLCA, RRCA, RLA, RRA: a rotate of A that clears Z.
    RotateA(ShiftOp),
    /// A CB-prefixed rotate, shift or swap.
    Shift(ShiftOp, Register8Index),
    /// BIT b, r
    TestBit(u8, Register8Index),
    /// RES b, r
    ResetBit(u8, Register8Index),
    /// SET b, r
    SetBit(u8, Register8Index),
    /// LD dst, src
    Load8(Register8Index, Register8Index),
    /// LD dst, n
    Load8Immediate(Register8Index, u8),
    /// Transfer between A and memory.
    LoadA(Pointer, LoadDirection),
    /// LD rr, nn
    Load16Immediate(Register16Index, u16),
    /// LD (nn), SP
    StoreSp(u16),
    /// LD SP, HL
    LoadSpHl,
    /// LD HL, SP+e8
    LoadHlSpOffset(i8),
    Push(Register16Index),
    Pop(Register16Index),
    /// JP cc, nn
    Jump(Option<Condition>, u16),
    /// JP HL
    JumpHl,
    /// JR cc, e8
    JumpRelative(Option<Condition>, i8),
    /// CALL cc, nn
    Call(Option<Condition>, u16),
    /// RET cc
    Ret(Option<Condition>),
    Reti,
    /// RST to one of the vectors 0x00, 0x08, ..., 0x38.
    Rst(u8),
}

/// A fatal condition met while running the CPU.
#[derive(Debug, Clone, Copy, PartialEq, Eq, Structural)]
pub enum CpuError {
    /// The byte at `pc` is not an opcode.
    UnimplementedOpcode { opcode: u8, pc: u16 },
    /// STOP or HALT, which this emulator does not model, at `pc`.
    UnsupportedControl { pc: u16 },
}

/// The address before `addr`, wrapping from 0 to 0xFFFF.
pub open spec fn prev_addr(addr: u16) -> u16 {
    if addr == 0 {
        0xFFFF
    } else {
        (addr - 1) as u16
    }
}

/// The operand of index `i` in an opcode: B, C, D, E, H, L, (HL), A.
pub open spec fn spec_r8(i: u8) -> Register8Index {
    if i == 0 {
        Register8Index::B
    } else if i == 1 {
        Register8Index::C
    } else if i == 2 {
        Register8Index::D
    } else if i == 3 {
        Register8Index::E
    } else if i == 4 {
        Register8Index::H
    } else if i == 5 {
        Register8Index::L
    } else if i == 6 {
        Register8Index::HL
    } else {
        Register8Index::A
    }
}

/// The register pair of index `i` in an opcode: BC, DE, HL, SP.
pub open spec fn spec_r16(i: u8) -> Register16Index {
    if i == 0 {
        Register16Index::BC
    } else if i == 1 {
        Register16Index::DE
    } else if i == 2 {
        Register16Index::HL
    } else {
        Register16Index::SP
    }
}

/// The register pair of index `i` in PUSH and POP: BC, DE, HL, AF.
pub open spec fn spec_stack_r16(i: u8) -> Register16Index {
    if i == 0 {
        Register16Index::BC
    } else if i == 1 {
        Register16Index::DE
    } else if i == 2 {
        Register16Index::HL
    } else {
        Register16Index::AF
    }
}

impl Register8Index {
    pub open spec fn spec_from_index(value: u8) -> Register8Index {
        spec_r8(value)
    }

    /// Decodes the 3-bit operand field of an opcode.
    #[verifier::when_used_as_spec(spec_from_index)]
    pub fn from_index(value: u8) -> (r: Register8Index)
        ensures
            r == spec_r8(value),
    {
        if value == 0 {
            Register8Index::B
        } else if value == 1 {
            Register8Index::C
        } else if value == 2 {
            Register8Index::D
        } else if value == 3 {
            Register8Index::E
        } else if value == 4 {
            Register8Index::H
        } else if value == 5 {
            Register8Index::L
        } else if value == 6 {
            Register8Index::HL
        } else {
            Register8Index::A
        }
    }

    /// Reads the operand.
    pub fn get(self, cpu: &GameBoy) -> (r: u8)
        requires
            cpu@.wf(),
        ensures
            r == cpu@.get8(self),
    {
        match self {
            Register8Index::A => cpu.registers.af.hi(),
            Register8Index::B => cpu.registers.bc.hi(),
            Register8Index::C => cpu.registers.bc.lo(),
            Register8Index::D => cpu.registers.de.hi(),
            Register8Index::E => cpu.registers.de.lo(),
            Register8Index::H => cpu.registers.hl.hi(),
            Register8Index::L => cpu.registers.hl.lo(),
            Register8Index::F => cpu.registers.af.lo(),
            Register8Index::HL => cpu.read_u8(cpu.registers.hl.value),
        }
    }

    /// Writes the operand; a write to F keeps its low nibble zero.
    pub fn set(self, cpu: &mut GameBoy, value: u8)
        requires
            old(cpu)@.wf(),
        ensures
            final(cpu)@ == old(cpu)@.set8(self, value),
            final(cpu)@.wf(),
    {
        match self {
            Register8Index::A => cpu.registers.af.set_hi(value),
            Register8Index::B => cpu.registers.bc.set_hi(value),
            Register8Index::C => cpu.registers.bc.set_lo(value),
            Register8Index::D => cpu.registers.de.set_hi(value),
            Register8Index::E => cpu.registers.de.set_lo(value),
            Register8Index::H => cpu.registers.hl.set_hi(value),
            Register8Index::L => cpu.registers.hl.set_lo(value),
            Register8Index::F => cpu.registers.af.set_lo(value - value % 16),
            Register8Index::HL => {
                let address = cpu.registers.hl.value;
                cpu.write_u8(address, value);
            },
        }
    }
}

impl Register16Index {
    pub open spec fn spec_from_index(value: u8) -> Register16Index {
        spec_r16(value)
    }

    pub open spec fn spec_from_stack_index(value: u8) -> Register16Index {
        spec_stack_r16(value)
    }

    /// Decodes the 2-bit register pair field of an opcode.
    #[verifier::when_used_as_spec(spec_from_index)]
    pub fn from_index(value: u8) -> (r: Register16Index)
        ensures
            r == spec_r16(value),
    {
        if value == 0 {
            Register16Index::BC
        } else if value == 1 {
            Register16Index::DE
        } else if value == 2 {
            Register16Index::HL
        } else {
            Register16Index::SP
        }
    }

    /// Decodes the 2-bit register pair field of PUSH and POP.
    #[verifier::when_used_as_spec(spec_from_stack_index)]
    pub fn from_stack_index(value: u8) -> (r: Register16Index)
        ensures
            r == spec_stack_r16(value),
    {
        if value == 0 {
            Register16Index::BC
        } else if value == 1 {
            Register16Index::DE
        } else if value == 2 {
            Register16Index::HL
        } else {
            Register16Index::AF
        }
    }

    /// Reads the register.
    pub fn get(self, cpu: &GameBoy) -> (r: u16)
        ensures
            r == cpu@.get16(self),
    {
        match self {
            Register16Index::AF => cpu.registers.af.value,
            Register16Index::BC => cpu.registers.bc.value,
            Register16Index::DE => cpu.registers.de.value,
            Register16Index::HL => cpu.registers.hl.value,
            Register16Index::SP => cpu.registers.sp.value,
            Register16Index::PC => cpu.registers.pc.value,
        }
    }

    /// Writes the register; a write to AF keeps the low nibble of F zero.
    pub fn set(self, cpu: &mut GameBoy, value: u16)
        requires
            old(cpu)@.wf(),
        ensures
            final(cpu)@ == old(cpu)@.set16(self, value),
            final(cpu)@.wf(),
    {
        match self {
            Register16Index::AF => cpu.registers.af.value = value - value % 16,
            Register16Index::BC => cpu.registers.bc.value = value,
            Register16Index::DE => cpu.registers.de.value = value,
            Register16Index::HL => cpu.registers.hl.value = value,
            Register16Index::SP => cpu.registers.sp.value = value,
            Register16Index::PC => cpu.registers.pc.value = value,
        }
    }
}

/// In a well-formed state the low nibble of F reads as zero.
pub proof fn lemma_flags_low_nibble(s: MachineState)
    requires
        s.wf(),
    ensures
        s.get8(Register8Index::F) % 16 == 0,
{
}

impl MachineState {
    /// The value of an 8-bit operand.
    pub open spec fn get8(self, r: Register8Index) -> u8 {
        match r {
            Register8Index::A => self.regs.af.spec_hi(),
            Register8Index::B => self.regs.bc.spec_hi(),
            Register8Index::C => self.regs.bc.spec_lo(),
            Register8Index::D => self.regs.de.spec_hi(),
            Register8Index::E => self.regs.de.spec_lo(),
            Register8Index::H => self.regs.hl.spec_hi(),
            Register8Index::L => self.regs.hl.spec_lo(),
            Register8Index::F => self.regs.af.spec_lo(),
            Register8Index::HL => self.read(self.regs.hl.value),
        }
    }

    /// The state after writing an 8-bit operand.
    pub open spec fn set8(self, r: Register8Index, v: u8) -> MachineState {
        let regs = self.regs;
        match r {
            Register8Index::A => MachineState {
                regs: RegisterFile {
                    af: Register { value: word(v, regs.af.spec_lo()) },
                    ..regs
                },
                ..self
            },
            Register8Index::B => MachineState {
                regs: RegisterFile {
                    bc: Register { value: word(v, regs.bc.spec_lo()) },
                    ..regs
                },
                ..self
            },
            Register8Index::C => MachineState {
                regs: RegisterFile {
                    bc: Register { value: word(regs.bc.spec_hi(), v) },
                    ..regs
                },
                ..self
            },
            Register8Index::D => MachineState {
                regs: RegisterFile {
                    de: Register { value: word(v, regs.de.spec_lo()) },
                    ..regs
                },
                ..self
            },
            Register8Index::E => MachineState {
                regs: RegisterFile {
                    de: Register { value: word(regs.de.spec_hi(), v) },
                    ..regs
                },
                ..self
            },
            Register8Index::H => MachineState {
                regs: RegisterFile {
                    hl: Register { value: word(v, regs.hl.spec_lo()) },
                    ..regs
                },
                ..self
            },
            Register8Index::L => MachineState {
                regs: RegisterFile {
                    hl: Register { value: word(regs.hl.spec_hi(), v) },
                    ..regs
                },
                ..self
            },
            Register8Index::F => MachineState {
                regs: RegisterFile {
                    af: Register { value: word(regs.af.spec_hi(), (v - v % 16) as u8) },
                    ..regs
                },
                ..self
            },
            Register8Index::HL => self.write(regs.hl.value, v),
        }
    }

    /// The value of a 16-bit register.
    pub open spec fn get16(self, r: Register16Index) -> u16 {
        match r {
            Register16Index::AF => self.regs.af.value,
            Register16Index::BC => self.regs.bc.value,
            Register16Index::DE => self.regs.de.value,
            Register16Index::HL => self.regs.hl.value,
            Register16Index::SP => self.regs.sp.value,
            Register16Index::PC => self.regs.pc.value,
        }
    }

    /// The state after writing a 16-bit register.
    pub open spec fn set16(self, r: Register16Index, v: u16) -> MachineState {
        let regs = self.regs;
        let x = Register { value: v };
        MachineState {
            regs: match r {
                Register16Index::AF => RegisterFile {
                    af: Register { value: (v - v % 16) as u16 },
                    ..regs
                },
                Register16Index::BC => RegisterFile { bc: x, ..regs },
                Register16Index::DE => RegisterFile { de: x, ..regs },
                Register16Index::HL => RegisterFile { hl: x, ..regs },
                Register16Index::SP => RegisterFile { sp: x, ..regs },
                Register16Index::PC => RegisterFile { pc: x, ..regs },
            },
            ..self
        }
    }

    /// The state with PC replaced.
    pub open spec fn with_pc(self, pc: u16) -> MachineState {
        self.set16(Register16Index::PC, pc)
    }
}

} // verus!
