//! # GameBoy Emulator
//!
//! The core of a Game Boy (DMG) emulator: cartridge header decoding, the memory bus
//! with its bank controllers, the CPU's instruction decoder and executor, and the
//! per-slice orchestration of timers and interrupts.
use vstd::prelude::*;

use crate::cartridge::CartridgeHeader;
use crate::cpu::RegisterFile;
use crate::memory::MemoryMode;

pub mod boot;
pub mod cartridge;
pub mod cpu;
pub mod instructions;
pub mod memory;
pub mod timer;

verus! {

/// Size of a ROM bank.
pub const ROM_BANK_SIZE: usize = 0x4000;
/// Size of a RAM bank.
pub const RAM_BANK_SIZE: usize = 0x2000;
/// Largest number of ROM banks handled.
pub const MAX_ROM_BANKS: usize = 0x80;
/// Largest number of RAM banks handled.
pub const MAX_RAM_BANKS: usize = 0x10;
/// Size of the address space.
pub const ADDRESS_SPACE_SIZE: usize = 0x10000;

/// The whole state of the emulated machine, as the contracts see it.
pub struct MachineState {
    pub header: CartridgeHeader,
    pub mode: MemoryMode,
    pub regs: RegisterFile,
    /// The 64 KiB internal memory, indexed by address.
    pub memory: Seq<u8>,
    /// The cartridge ROM, all banks in order.
    pub rom: Seq<u8>,
    /// The external RAM, all banks in order.
    pub ram: Seq<u8>,
    /// T-cycles elapsed towards the next DIV increment.
    pub div_cycles: u64,
    /// T-cycles elapsed towards the next TIMA increment.
    pub timer_cycles: u64,
}

impl MachineState {
    pub open spec fn wf(self) -> bool {
        &&& self.memory.len() == ADDRESS_SPACE_SIZE
        &&& self.regs.wf()
        &&& self.mode.wf()
        &&& self.div_cycles < 256
        &&& self.timer_cycles < 1024
        &&& self.rom.len() >= crate::memory::locations::HEADER_END
        &&& crate::cartridge::header_fields_match(self.header, self.rom)
    }
}

/// An emulated Game Boy with a cartridge inserted.
pub struct GameBoy {
    cartridge_header: CartridgeHeader,
    memory_mode: MemoryMode,
    registers: RegisterFile,
    /// Gameboy memory (RAM), one byte per address
    memory: Vec<u8>,
    /// Cartridge memory (ROM Banks): the whole cartridge, addressed through the bank selectors
    cartridge: Vec<u8>,
    /// RAM Banks: all of them, addressed through the bank selectors
    banks: Vec<u8>,
    div_cycles: u64,
    timer_cycles: u64,
}

impl View for GameBoy {
    type V = MachineState;

    closed spec fn view(&self) -> MachineState {
        MachineState {
            header: self.cartridge_header,
            mode: self.memory_mode,
            regs: self.registers,
            memory: self.memory@,
            rom: self.cartridge@,
            ram: self.banks@,
            div_cycles: self.div_cycles,
            timer_cycles: self.timer_cycles,
        }
    }
}

impl GameBoy {
    /// The decoded header of the inserted cartridge.
    pub fn cartridge_header(&self) -> (r: &CartridgeHeader)
        ensures
            *r == self@.header,
    {
        &self.cartridge_header
    }

    /// The cartridge ROM, all banks in order.
    pub fn cartridge(&self) -> (r: &[u8])
        ensures
            r@ == self@.rom,
    {
        self.cartridge.as_slice()
    }

    /// The external RAM, all banks in order.
    pub fn ram(&self) -> (r: &[u8])
        ensures
            r@ == self@.ram,
    {
        self.banks.as_slice()
    }

    /// The internal memory, one byte per address, as stored (without bank mapping).
    pub fn memory(&self) -> (r: &[u8])
        ensures
            r@ == self@.memory,
    {
        self.memory.as_slice()
    }

    /// The state of the bank controller.
    pub fn memory_mode(&self) -> (r: MemoryMode)
        ensures
            r == self@.mode,
    {
        self.memory_mode
    }

    /// The ROM bank mapped at 0x4000..=0x7FFF.
    pub fn rom_bank_idx(&self) -> (r: usize)
        ensures
            r == self@.mode.spec_rom_bank_idx(),
    {
        self.memory_mode.rom_bank_idx()
    }

    /// The RAM bank mapped at 0xA000..=0xBFFF.
    pub fn ram_bank_idx(&self) -> (r: usize)
        ensures
            r == self@.mode.spec_ram_bank_idx(),
    {
        self.memory_mode.ram_bank_idx()
    }

    /// The CPU registers.
    pub fn registers(&self) -> (r: RegisterFile)
        ensures
            r == self@.regs,
    {
        self.registers
    }

    /// Replaces the CPU registers; F must keep its low nibble zero.
    pub fn set_registers(&mut self, registers: RegisterFile)
        requires
            old(self)@.wf(),
            registers.wf(),
        ensures
            final(self)@ == (MachineState { regs: registers, ..old(self)@ }),
            final(self)@.wf(),
    {
        self.registers = registers;
    }
}

} // verus!
