use vstd::prelude::*;

verus! {

/// The five interrupt sources, in priority order (V-Blank first).
#[derive(Debug, Clone, Copy, PartialEq, Eq, Structural)]
pub enum Interrupt {
    VBlank,
    LCDStat,
    TimerOverflow,
    SerialTranferComplete,
    Joypad,
}

impl Interrupt {
    /// Bit of the interrupt in IF and IE.
    pub open spec fn spec_bit(self) -> u8 {
        match self {
            Interrupt::VBlank => 0,
            Interrupt::LCDStat => 1,
            Interrupt::TimerOverflow => 2,
            Interrupt::SerialTranferComplete => 3,
            Interrupt::Joypad => 4,
        }
    }

    #[verifier::when_used_as_spec(spec_bit)]
    pub fn bit(self) -> (r: u8)
        ensures
            r == self.spec_bit(),
    {
        match self {
            Interrupt::VBlank => 0,
            Interrupt::LCDStat => 1,
            Interrupt::TimerOverflow => 2,
            Interrupt::SerialTranferComplete => 3,
            Interrupt::Joypad => 4,
        }
    }
}

/// The four flags of the F register.
#[derive(Debug, Clone, Copy, PartialEq, Eq, Structural)]
pub enum Flag {
    Zero,
    Subtract,
    HalfCarry,
    Carry,
}

impl Flag {
    /// Weight of the flag's bit in F: Z is bit 7, N bit 6, H bit 5, C bit 4.
    pub open spec fn spec_mask(self) -> u8 {
        match self {
            Flag::Zero => 0x80,
            Flag::Subtract => 0x40,
            Flag::HalfCarry => 0x20,
            Flag::Carry => 0x10,
        }
    }

    #[verifier::when_used_as_spec(spec_mask)]
    pub fn mask(self) -> (r: u8)
        ensures
            r == self.spec_mask(),
    {
        match self {
            Flag::Zero => 0x80,
            Flag::Subtract => 0x40,
            Flag::HalfCarry => 0x20,
            Flag::Carry => 0x10,
        }
    }
}

/// Whether the bit of weight `mask` is set in `f`.
pub open spec fn has_bit(f: u8, mask: u8) -> bool {
    (f as int / mask as int) % 2 == 1
}

/// The F register holding the given flags, with its low nibble zero.
pub open spec fn flags_byte(z: bool, n: bool, h: bool, c: bool) -> u8 {
    ((if z { 0x80int } else { 0 }) + (if n { 0x40int } else { 0 }) + (if h { 0x20int } else { 0 })
        + (if c { 0x10int } else { 0 })) as u8
}

/// The word made of a high and a low byte.
pub open spec fn word(hi: u8, lo: u8) -> u16 {
    (hi as int * 256 + lo as int) as u16
}

pub proof fn lemma_flags_byte(z: bool, n: bool, h: bool, c: bool)
    ensures
        has_bit(flags_byte(z, n, h, c), 0x80) == z,
        has_bit(flags_byte(z, n, h, c), 0x40) == n,
        has_bit(flags_byte(z, n, h, c), 0x20) == h,
        has_bit(flags_byte(z, n, h, c), 0x10) == c,
        flags_byte(z, n, h, c) % 16 == 0,
{
}

/// A 16-bit register, also addressable as a high and a low byte.
#[derive(Debug, Clone, Copy, PartialEq, Eq, Structural)]
pub struct Register {
    pub value: u16,
}

impl Register {
    pub open spec fn spec_hi(self) -> u8 {
        (self.value / 256) as u8
    }

    pub open spec fn spec_lo(self) -> u8 {
        (self.value % 256) as u8
    }

    /// The high byte.
    #[verifier::when_used_as_spec(spec_hi)]
    pub fn hi(self) -> (r: u8)
        ensures
            r == self.spec_hi(),
    {
        (self.value / 256) as u8
    }

    /// The low byte.
    #[verifier::when_used_as_spec(spec_lo)]
    pub fn lo(self) -> (r: u8)
        ensures
            r == self.spec_lo(),
    {
        (self.value % 256) as u8
    }

    /// Replaces the high byte, keeping the low one.
    pub fn set_hi(&mut self, v: u8)
        ensures
            final(self).value == word(v, old(self).spec_lo()),
    {
        self.value = (v as u16) * 256 + self.value % 256;
    }

    /// Replaces the low byte, keeping the high one.
    pub fn set_lo(&mut self, v: u8)
        ensures
            final(self).value == word(old(self).spec_hi(), v),
    {
        self.value = (self.value / 256) * 256 + v as u16;
    }
}

/// The registers of the Game Boy CPU
#[derive(Debug, Clone, Copy, PartialEq, Eq, Structural)]
pub struct RegisterFile {
    /// Accumulator and Flags Register
    pub af: Register,
    /// BC Register
    pub bc: Register,
    /// DE Register
    pub de: Register,
    /// HL Register
    pub hl: Register,
    /// Stack Pointer
    pub sp: Register,
    /// Program Counter
    pub pc: Register,
    /// Interrupt Master Enable
    pub ime: bool,
}

impl Default for RegisterFile {
    fn default() -> (r: Self)
        ensures
            r.af.value == 0 && r.bc.value == 0 && r.de.value == 0 && r.hl.value == 0,
            r.sp.value == 0 && r.pc.value == 0 && !r.ime,
    {
        RegisterFile {
            af: Register { value: 0 },
            bc: Register { value: 0 },
            de: Register { value: 0 },
            hl: Register { value: 0 },
            sp: Register { value: 0 },
            pc: Register { value: 0 },
            ime: false,
        }
    }
}

impl RegisterFile {
    /// The low nibble of F is zero.
    pub open spec fn wf(self) -> bool {
        self.af.value % 16 == 0
    }

    pub open spec fn spec_test_flag(self, flag: Flag) -> bool {
        has_bit(self.af.spec_lo(), flag.spec_mask())
    }

    /// The registers with F replaced by the given flags.
    pub open spec fn with_flags(self, z: bool, n: bool, h: bool, c: bool) -> RegisterFile {
        RegisterFile { af: Register { value: word(self.af.spec_hi(), flags_byte(z, n, h, c)) }, ..self }
    }

    /// The registers with one flag set to `value` and the others kept.
    pub open spec fn spec_set_flag(self, flag: Flag, value: bool) -> RegisterFile {
        let z = if flag == Flag::Zero { value } else { self.spec_test_flag(Flag::Zero) };
        let n = if flag == Flag::Subtract { value } else { self.spec_test_flag(Flag::Subtract) };
        let h = if flag == Flag::HalfCarry { value } else { self.spec_test_flag(Flag::HalfCarry) };
        let c = if flag == Flag::Carry { value } else { self.spec_test_flag(Flag::Carry) };
        self.with_flags(z, n, h, c)
    }

    /// Whether `flag` is set in F.
    #[verifier::when_used_as_spec(spec_test_flag)]
    pub fn test_flag(self, flag: Flag) -> (r: bool)
        ensures
            r == self.spec_test_flag(flag),
    {
        (self.af.lo() / flag.mask()) % 2 == 1
    }

    /// Replaces all four flags.
    pub fn set_flags(&mut self, z: bool, n: bool, h: bool, c: bool)
        ensures
            *final(self) == old(self).with_flags(z, n, h, c),
            final(self).wf(),
            final(self).spec_test_flag(Flag::Zero) == z,
            final(self).spec_test_flag(Flag::Subtract) == n,
            final(self).spec_test_flag(Flag::HalfCarry) == h,
            final(self).spec_test_flag(Flag::Carry) == c,
    {
        proof {
            lemma_flags_byte(z, n, h, c);
        }
        let f: u8 = (if z { 0x80u8 } else { 0 }) + (if n { 0x40u8 } else { 0 }) + (if h {
            0x20u8
        } else {
            0
        }) + (if c { 0x10u8 } else { 0 });
        self.af.set_lo(f);
    }

    /// Sets or clears one flag, keeping the others.
    pub fn set_flag(&mut self, flag: Flag, value: bool)
        ensures
            *final(self) == old(self).spec_set_flag(flag, value),
            final(self).wf(),
            final(self).spec_test_flag(flag) == value,
    {
        let z = if flag == Flag::Zero { value } else { self.test_flag(Flag::Zero) };
        let n = if flag == Flag::Subtract { value } else { self.test_flag(Flag::Subtract) };
        let h = if flag == Flag::HalfCarry { value } else { self.test_flag(Flag::HalfCarry) };
        let c = if flag == Flag::Carry { value } else { self.test_flag(Flag::Carry) };
        self.set_flags(z, n, h, c);
    }
}

} // verus!
