use vstd::prelude::*;

use crate::cartridge::{
    ascii_chars, header_fields_match, header_ok, is_ascii_bytes, spec_title, CartridgeError,
    CartridgeHeader, CartridgeType, RamSize, RomSize,
};
use crate::cpu::{Register, RegisterFile};
use crate::memory::locations;
use crate::memory::{MemoryMode, MBC2_RAM_SIZE};
use crate::{
    GameBoy, MachineState, ADDRESS_SPACE_SIZE, MAX_RAM_BANKS, MAX_ROM_BANKS, RAM_BANK_SIZE,
    ROM_BANK_SIZE,
};

verus! {

/// Relies on rand::random: one byte drawn from the thread-local generator, about
/// which nothing is promised.
#[verifier::external_body]
fn random_byte() -> u8 {
    rand::random::<u8>()
}

/// `n` bytes of noise, as memory holds at power-up.
fn random_bytes(n: usize) -> (r: Vec<u8>)
    ensures
        r@.len() == n,
{
    let mut v: Vec<u8> = Vec::new();
    let mut i: usize = 0;
    while i < n
        invariant
            i <= n,
            v@.len() == i,
        decreases n - i,
    {
        v.push(random_byte());
        i = i + 1;
    }
    v
}

/// The registers at power-up; F is 0x80 when the header checksum byte is zero.
pub open spec fn power_up_registers(header_checksum: u8) -> RegisterFile {
    RegisterFile {
        af: Register { value: if header_checksum == 0 { 0x0180 } else { 0x01B0 } },
        bc: Register { value: 0x0013 },
        de: Register { value: 0x00D8 },
        hl: Register { value: 0x014D },
        sp: Register { value: 0xFFFE },
        pc: Register { value: 0x0100 },
        ime: false,
    }
}

/// The memory-mapped I/O registers set to their DMG power-up values, other bytes kept.
pub open spec fn with_io_defaults(m: Seq<u8>) -> Seq<u8> {
    m
        .update(locations::P1 as int, 0xCF)
        .update(locations::SB as int, 0x00)
        .update(locations::SC as int, 0x7E)
        .update(locations::DIV as int, 0xAB)
        .update(locations::TIMA as int, 0x00)
        .update(locations::TMA as int, 0x00)
        .update(locations::TAC as int, 0xF8)
        .update(locations::IF as int, 0xE1)
        .update(locations::NR10 as int, 0x80)
        .update(locations::NR11 as int, 0xBF)
        .update(locations::NR12 as int, 0xF3)
        .update(locations::NR13 as int, 0xFF)
        .update(locations::NR14 as int, 0xBF)
        .update(locations::NR21 as int, 0x3F)
        .update(locations::NR22 as int, 0x00)
        .update(locations::NR23 as int, 0xFF)
        .update(locations::NR24 as int, 0xBF)
        .update(locations::NR30 as int, 0x7F)
        .update(locations::NR31 as int, 0xFF)
        .update(locations::NR32 as int, 0x9F)
        .update(locations::NR33 as int, 0xFF)
        .update(locations::NR34 as int, 0xBF)
        .update(locations::NR41 as int, 0xFF)
        .update(locations::NR42 as int, 0x00)
        .update(locations::NR43 as int, 0x00)
        .update(locations::NR44 as int, 0xBF)
        .update(locations::NR50 as int, 0x77)
        .update(locations::NR51 as int, 0xF3)
        .update(locations::NR52 as int, 0xF1)
        .update(locations::LCDC as int, 0x91)
        .update(locations::STAT as int, 0x85)
        .update(locations::SCY as int, 0x00)
        .update(locations::SCX as int, 0x00)
        .update(locations::LY as int, 0x00)
        .update(locations::LYC as int, 0x00)
        .update(locations::DMA as int, 0xFF)
        .update(locations::BGP as int, 0xFC)
        .update(locations::OBP0 as int, 0xFF)
        .update(locations::OBP1 as int, 0xFF)
        .update(locations::WY as int, 0x00)
        .update(locations::WX as int, 0x00)
        .update(locations::IE as int, 0x00)
}

/// Number of bytes of external RAM a cartridge gets: its declared banks, and at
/// least the 512 built-in cells of an MBC2.
pub open spec fn external_ram_len(t: CartridgeType, ram: RamSize) -> int {
    let declared = ram.spec_banks() as int * RAM_BANK_SIZE;
    if t == CartridgeType::MBC2 && declared < MBC2_RAM_SIZE {
        MBC2_RAM_SIZE as int
    } else {
        declared
    }
}

/// Why the image `b` cannot be booted, if it cannot.
pub open spec fn boot_error(b: Seq<u8>) -> Option<CartridgeError> {
    if !header_ok(b) {
        Some(CartridgeError::InvalidCartridge)
    } else {
        let t = CartridgeType::spec_from_code(b[locations::CARTRIDGE_TYPE as int]);
        let rom = RomSize::spec_from_code(b[locations::ROM_SIZE as int])->Some_0;
        let ram = RamSize::spec_from_code(b[locations::RAM_SIZE as int])->Some_0;
        if t == CartridgeType::NotSupported {
            Some(CartridgeError::UnsupportedMbc)
        } else if t == CartridgeType::Unknown {
            Some(CartridgeError::InvalidCartridge)
        } else if rom.spec_banks() > MAX_ROM_BANKS || ram.spec_banks() > MAX_RAM_BANKS {
            Some(CartridgeError::InvalidCartridge)
        } else if b.len() != rom.spec_banks() as int * ROM_BANK_SIZE {
            Some(CartridgeError::InvalidCartridge)
        } else {
            None
        }
    }
}

impl MachineState {
    /// The machine just after a reset that drew `memory` and `ram` as noise.
    pub open spec fn after_reset(self, memory: Seq<u8>, ram: Seq<u8>) -> MachineState {
        MachineState {
            regs: power_up_registers(self.header.header_checksum),
            memory: with_io_defaults(memory),
            ram,
            div_cycles: 0,
            timer_cycles: 0,
            ..self
        }
    }
}

impl GameBoy {
    /// Boots a cartridge image: decodes its header, checks that this emulator can run
    /// it, loads it and resets the machine.
    pub fn new(cartridge: &[u8]) -> (r: Result<GameBoy, CartridgeError>)
        ensures
            boot_error(cartridge@) is Some <==> r is Err,
            r is Err ==> r == Err::<GameBoy, CartridgeError>(boot_error(cartridge@)->Some_0),
            r is Ok ==> {
                let s = r->Ok_0@;
                &&& s.wf()
                &&& header_fields_match(s.header, cartridge@)
                &&& s.rom == cartridge@
                &&& Some(s.mode) == MemoryMode::spec_from_cartridge_type(s.header.cart_type)
                &&& s.ram.len() == external_ram_len(s.header.cart_type, s.header.ram_size)
                &&& s.regs == power_up_registers(s.header.header_checksum)
                &&& (exists|m: Seq<u8>| s.memory == with_io_defaults(m))
                &&& s.div_cycles == 0 && s.timer_cycles == 0
                &&& is_ascii_bytes(spec_title(cartridge@)) ==> s.header.title@ == ascii_chars(
                    spec_title(cartridge@),
                )
            },
    {
        let header = match CartridgeHeader::parse(cartridge) {
            Ok(h) => h,
            Err(e) => return Err(e),
        };
        let mode = match MemoryMode::from_cartridge_type(header.cart_type) {
            Some(m) => m,
            None => {
                if header.cart_type == CartridgeType::NotSupported {
                    return Err(CartridgeError::UnsupportedMbc);
                } else {
                    return Err(CartridgeError::InvalidCartridge);
                }
            },
        };
        let rom_banks = header.rom_size.banks() as usize;
        let ram_banks = header.ram_size.banks() as usize;
        if rom_banks > MAX_ROM_BANKS || ram_banks > MAX_RAM_BANKS {
            return Err(CartridgeError::InvalidCartridge);
        }
        if cartridge.len() != rom_banks * ROM_BANK_SIZE {
            return Err(CartridgeError::InvalidCartridge);
        }
        let declared = ram_banks * RAM_BANK_SIZE;
        let ram_len = if header.cart_type == CartridgeType::MBC2 && declared < MBC2_RAM_SIZE {
            MBC2_RAM_SIZE
        } else {
            declared
        };
        let mut gb = GameBoy {
            cartridge_header: header,
            memory_mode: mode,
            registers: RegisterFile::default(),
            memory: vec![0u8; ADDRESS_SPACE_SIZE],
            cartridge: vstd::slice::slice_to_vec(cartridge),
            banks: vec![0u8; ram_len],
            div_cycles: 0,
            timer_cycles: 0,
        };
        gb.reset();
        Ok(gb)
    }

    /// Power-up reset: fills memory and external RAM with noise, then installs the
    /// DMG register and I/O defaults.
    pub fn reset(&mut self)
        requires
            old(self)@.wf(),
        ensures
            exists|m: Seq<u8>, ram: Seq<u8>|
                m.len() == ADDRESS_SPACE_SIZE && ram.len() == old(self)@.ram.len()
                    && final(self)@ == old(self)@.after_reset(m, ram),
            final(self)@.regs.af.value == (if old(self)@.rom[locations::COMPLEMENT_CHECK as int]
                == 0 {
                0x0180u16
            } else {
                0x01B0u16
            }),
            final(self)@.wf(),
    {
        let memory = random_bytes(ADDRESS_SPACE_SIZE);
        let ram = random_bytes(self.banks.len());
        self.reset_with(memory, ram);
    }

    /// Reset with the given power-up noise for memory and external RAM.
    pub fn reset_with(&mut self, memory: Vec<u8>, ram: Vec<u8>)
        requires
            memory@.len() == ADDRESS_SPACE_SIZE,
            ram@.len() == old(self)@.ram.len(),
            old(self)@.wf(),
        ensures
            final(self)@ == old(self)@.after_reset(memory@, ram@),
            final(self)@.regs.af.value == (if old(self)@.rom[locations::COMPLEMENT_CHECK as int]
                == 0 {
                0x0180u16
            } else {
                0x01B0u16
            }),
            final(self)@.wf(),
    {
        let checksum = self.cartridge_header.header_checksum;
        self.registers = RegisterFile {
            af: Register { value: if checksum == 0 { 0x0180 } else { 0x01B0 } },
            bc: Register { value: 0x0013 },
            de: Register { value: 0x00D8 },
            hl: Register { value: 0x014D },
            sp: Register { value: 0xFFFE },
            pc: Register { value: 0x0100 },
            ime: false,
        };
        let mut m = memory;
        m[locations::P1 as usize] = 0xCF;
        m[locations::SB as usize] = 0x00;
        m[locations::SC as usize] = 0x7E;
        m[locations::DIV as usize] = 0xAB;
        m[locations::TIMA as usize] = 0x00;
        m[locations::TMA as usize] = 0x00;
        m[locations::TAC as usize] = 0xF8;
        m[locations::IF as usize] = 0xE1;
        m[locations::NR10 as usize] = 0x80;
        m[locations::NR11 as usize] = 0xBF;
        m[locations::NR12 as usize] = 0xF3;
        m[locations::NR13 as usize] = 0xFF;
        m[locations::NR14 as usize] = 0xBF;
        m[locations::NR21 as usize] = 0x3F;
        m[locations::NR22 as usize] = 0x00;
        m[locations::NR23 as usize] = 0xFF;
        m[locations::NR24 as usize] = 0xBF;
        m[locations::NR30 as usize] = 0x7F;
        m[locations::NR31 as usize] = 0xFF;
        m[locations::NR32 as usize] = 0x9F;
        m[locations::NR33 as usize] = 0xFF;
        m[locations::NR34 as usize] = 0xBF;
        m[locations::NR41 as usize] = 0xFF;
        m[locations::NR42 as usize] = 0x00;
        m[locations::NR43 as usize] = 0x00;
        m[locations::NR44 as usize] = 0xBF;
        m[locations::NR50 as usize] = 0x77;
        m[locations::NR51 as usize] = 0xF3;
        m[locations::NR52 as usize] = 0xF1;
        m[locations::LCDC as usize] = 0x91;
        m[locations::STAT as usize] = 0x85;
        m[locations::SCY as usize] = 0x00;
        m[locations::SCX as usize] = 0x00;
        m[locations::LY as usize] = 0x00;
        m[locations::LYC as usize] = 0x00;
        m[locations::DMA as usize] = 0xFF;
        m[locations::BGP as usize] = 0xFC;
        m[locations::OBP0 as usize] = 0xFF;
        m[locations::OBP1 as usize] = 0xFF;
        m[locations::WY as usize] = 0x00;
        m[locations::WX as usize] = 0x00;
        m[locations::IE as usize] = 0x00;
        self.memory = m;
        self.banks = ram;
        self.div_cycles = 0;
        self.timer_cycles = 0;
        proof {
            assert(final(self)@ =~= old(self)@.after_reset(memory@, ram@));
        }
    }
}

} // verus!
