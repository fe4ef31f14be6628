use vstd::prelude::*;

use crate::cartridge::CartridgeType;
use crate::{GameBoy, MachineState, RAM_BANK_SIZE, ROM_BANK_SIZE};

pub mod locations;

verus! {

/// Size of the built-in RAM of an MBC2 cartridge (512 half-bytes).
pub const MBC2_RAM_SIZE: usize = 0x200;

/// Registers of an MBC1 controller.
#[derive(Debug, Clone, Copy, PartialEq, Eq, Structural)]
pub struct Mbc1State {
    pub rom_bank_idx: usize,
    pub ram_bank_idx: usize,
    pub ram_enabled: bool,
    /// If true address 0x4000..=0x5FFF selects ram bank,
    /// select upper bits of ROM bank otherwise
    pub ram_banking: bool,
}

/// Registers of an MBC2 controller.
#[derive(Debug, Clone, Copy, PartialEq, Eq, Structural)]
pub struct Mbc2State {
    pub rom_bank_idx: usize,
    pub ram_enabled: bool,
}

/// Registers of an MBC3 controller.
#[derive(Debug, Clone, Copy, PartialEq, Eq, Structural)]
pub struct Mbc3State {
    pub rom_bank_idx: usize,
    pub ram_bank_idx: usize,
    pub ram_rtc_enabled: bool,
    /// The RTC register that 0xA000..=0xBFFF shows, if any,
    /// the ram bank otherwise
    pub rtc_selected: Option<u8>,
    /// Last value written to the latch register was 1
    pub rtc_latched: bool,
    /// Seconds register for RTC
    pub rtc_seconds: u8,
    /// Minutes register for RTC
    pub rtc_minutes: u8,
    /// Hours register for RTC
    pub rtc_hours: u8,
    /// Days register for RTC
    ///
    /// - Bit 0: MSB of day counter
    /// - Bit 6: Halt RTC (0 = Active, 1 = Halt)
    /// - Bit 7: Day counter carry bit (1 = Counter overflow)
    pub rtc_days: u16,
}

/// Registers of an MBC5 controller.
#[derive(Debug, Clone, Copy, PartialEq, Eq, Structural)]
pub struct Mbc5State {
    pub rom_bank_idx: usize,
    pub ram_bank_idx: usize,
    pub ram_enabled: bool,
    pub rumble_enabled: bool,
}

/// State of the bank controller of the cartridge
#[derive(Debug, Clone, Copy, PartialEq, Eq, Structural)]
pub enum MemoryMode {
    RomOnly,
    MBC1(Mbc1State),
    MBC2(Mbc2State),
    MBC3(Mbc3State),
    MBC5(Mbc5State),
}

/// A bank number of which zero is replaced by one.
pub open spec fn bump(bank: int) -> int {
    if bank == 0 {
        1
    } else {
        bank
    }
}

/// Whether a byte written to a RAM enable register enables the RAM.
pub open spec fn enables_ram(value: u8) -> bool {
    value % 16 == 0x0A
}

impl Mbc1State {
    /// The registers after a write of `value` to `addr` in 0x0000..=0x7FFF.
    pub open spec fn spec_control(self, addr: u16, value: u8) -> Mbc1State {
        if addr <= 0x1FFF {
            Mbc1State { ram_enabled: enables_ram(value), ..self }
        } else if addr <= 0x3FFF {
            Mbc1State {
                rom_bank_idx: (self.rom_bank_idx / 32 * 32 + bump(value as int % 32)) as usize,
                ..self
            }
        } else if addr <= 0x5FFF {
            if self.ram_banking {
                Mbc1State { ram_bank_idx: (value % 4) as usize, ..self }
            } else {
                Mbc1State {
                    rom_bank_idx: ((value % 4) as int * 32 + self.rom_bank_idx % 32) as usize,
                    ..self
                }
            }
        } else {
            Mbc1State { ram_banking: value % 2 == 1, ..self }
        }
    }

    pub fn control(self, addr: u16, value: u8) -> (r: Mbc1State)
        requires
            self.rom_bank_idx < 128,
            self.ram_bank_idx < 4,
        ensures
            r == self.spec_control(addr, value),
            r.rom_bank_idx < 128,
            r.ram_bank_idx < 4,
    {
        if addr <= 0x1FFF {
            Mbc1State { ram_enabled: value % 16 == 0x0A, ..self }
        } else if addr <= 0x3FFF {
            let low = value as usize % 32;
            let low = if low == 0 {
                1
            } else {
                low
            };
            Mbc1State { rom_bank_idx: self.rom_bank_idx / 32 * 32 + low, ..self }
        } else if addr <= 0x5FFF {
            let bank = value as usize % 4;
            if self.ram_banking {
                Mbc1State { ram_bank_idx: bank, ..self }
            } else {
                Mbc1State { rom_bank_idx: bank * 32 + self.rom_bank_idx % 32, ..self }
            }
        } else {
            Mbc1State { ram_banking: value % 2 == 1, ..self }
        }
    }
}

impl Mbc2State {
    /// The registers after a write of `value` to `addr` in 0x0000..=0x7FFF:
    /// bit 8 of the address tells RAM enable (0) from ROM bank select (1).
    pub open spec fn spec_control(self, addr: u16, value: u8) -> Mbc2State {
        if addr > 0x3FFF {
            self
        } else if (addr / 256) % 2 == 0 {
            Mbc2State { ram_enabled: enables_ram(value), ..self }
        } else {
            Mbc2State { rom_bank_idx: bump(value as int % 16) as usize, ..self }
        }
    }

    pub fn control(self, addr: u16, value: u8) -> (r: Mbc2State)
        requires
            self.rom_bank_idx < 16,
        ensures
            r == self.spec_control(addr, value),
            r.rom_bank_idx < 16,
    {
        if addr > 0x3FFF {
            self
        } else if (addr / 256) % 2 == 0 {
            Mbc2State { ram_enabled: value % 16 == 0x0A, ..self }
        } else {
            let bank = value as usize % 16;
            Mbc2State {
                rom_bank_idx: if bank == 0 {
                    1
                } else {
                    bank
                },
                ..self
            }
        }
    }
}

impl Mbc3State {
    /// The registers after a write of `value` to `addr` in 0x0000..=0x7FFF.
    pub open spec fn spec_control(self, addr: u16, value: u8) -> Mbc3State {
        if addr <= 0x1FFF {
            Mbc3State { ram_rtc_enabled: enables_ram(value), ..self }
        } else if addr <= 0x3FFF {
            Mbc3State { rom_bank_idx: bump(value as int % 128) as usize, ..self }
        } else if addr <= 0x5FFF {
            if value <= 0x03 {
                Mbc3State { ram_bank_idx: value as usize, rtc_selected: None, ..self }
            } else if 0x08 <= value <= 0x0C {
                Mbc3State { rtc_selected: Some(value), ..self }
            } else {
                self
            }
        } else {
            Mbc3State { rtc_latched: value % 2 == 1, ..self }
        }
    }

    pub fn control(self, addr: u16, value: u8) -> (r: Mbc3State)
        requires
            self.rom_bank_idx < 128,
            self.ram_bank_idx < 4,
        ensures
            r == self.spec_control(addr, value),
            r.rom_bank_idx < 128,
            r.ram_bank_idx < 4,
    {
        if addr <= 0x1FFF {
            Mbc3State { ram_rtc_enabled: value % 16 == 0x0A, ..self }
        } else if addr <= 0x3FFF {
            let bank = value as usize % 128;
            Mbc3State {
                rom_bank_idx: if bank == 0 {
                    1
                } else {
                    bank
                },
                ..self
            }
        } else if addr <= 0x5FFF {
            if value <= 0x03 {
                Mbc3State { ram_bank_idx: value as usize, rtc_selected: None, ..self }
            } else if 0x08 <= value && value <= 0x0C {
                Mbc3State { rtc_selected: Some(value), ..self }
            } else {
                self
            }
        } else {
            Mbc3State { rtc_latched: value % 2 == 1, ..self }
        }
    }

    /// The value of the RTC register `selected` (0x08 seconds, 0x09 minutes,
    /// 0x0A hours, 0x0B days low, 0x0C days high).
    pub open spec fn spec_rtc_register(self, selected: u8) -> u8 {
        if selected == 0x08 {
            self.rtc_seconds
        } else if selected == 0x09 {
            self.rtc_minutes
        } else if selected == 0x0A {
            self.rtc_hours
        } else if selected == 0x0B {
            (self.rtc_days % 256) as u8
        } else if selected == 0x0C {
            (self.rtc_days / 256) as u8
        } else {
            0xFF
        }
    }

    #[verifier::when_used_as_spec(spec_rtc_register)]
    pub fn rtc_register(self, selected: u8) -> (r: u8)
        ensures
            r == self.spec_rtc_register(selected),
    {
        if selected == 0x08 {
            self.rtc_seconds
        } else if selected == 0x09 {
            self.rtc_minutes
        } else if selected == 0x0A {
            self.rtc_hours
        } else if selected == 0x0B {
            (self.rtc_days % 256) as u8
        } else if selected == 0x0C {
            (self.rtc_days / 256) as u8
        } else {
            0xFF
        }
    }

    /// The registers after a write of `value` to the RTC register `selected`.
    pub open spec fn spec_rtc_write(self, selected: u8, value: u8) -> Mbc3State {
        if selected == 0x08 {
            Mbc3State { rtc_seconds: value, ..self }
        } else if selected == 0x09 {
            Mbc3State { rtc_minutes: value, ..self }
        } else if selected == 0x0A {
            Mbc3State { rtc_hours: value, ..self }
        } else if selected == 0x0B {
            Mbc3State { rtc_days: (self.rtc_days / 256 * 256 + value as int) as u16, ..self }
        } else if selected == 0x0C {
            Mbc3State { rtc_days: (value as int * 256 + self.rtc_days % 256) as u16, ..self }
        } else {
            self
        }
    }

    pub fn rtc_write(self, selected: u8, value: u8) -> (r: Mbc3State)
        ensures
            r == self.spec_rtc_write(selected, value),
    {
        if selected == 0x08 {
            Mbc3State { rtc_seconds: value, ..self }
        } else if selected == 0x09 {
            Mbc3State { rtc_minutes: value, ..self }
        } else if selected == 0x0A {
            Mbc3State { rtc_hours: value, ..self }
        } else if selected == 0x0B {
            Mbc3State { rtc_days: self.rtc_days / 256 * 256 + value as u16, ..self }
        } else if selected == 0x0C {
            Mbc3State { rtc_days: (value as u16) * 256 + self.rtc_days % 256, ..self }
        } else {
            self
        }
    }
}

impl Mbc5State {
    /// The registers after a write of `value` to `addr` in 0x0000..=0x7FFF.
    pub open spec fn spec_control(self, addr: u16, value: u8) -> Mbc5State {
        if addr <= 0x1FFF {
            Mbc5State { ram_enabled: enables_ram(value), ..self }
        } else if addr <= 0x2FFF {
            Mbc5State { rom_bank_idx: (self.rom_bank_idx / 256 * 256 + value as int) as usize, ..self }
        } else if addr <= 0x3FFF {
            Mbc5State {
                rom_bank_idx: ((value % 2) as int * 256 + self.rom_bank_idx % 256) as usize,
                ..self
            }
        } else if addr <= 0x5FFF {
            Mbc5State {
                ram_bank_idx: (value % 16) as usize,
                rumble_enabled: (value / 8) % 2 == 1,
                ..self
            }
        } else {
            self
        }
    }

    pub fn control(self, addr: u16, value: u8) -> (r: Mbc5State)
        requires
            self.rom_bank_idx < 512,
            self.ram_bank_idx < 16,
        ensures
            r == self.spec_control(addr, value),
            r.rom_bank_idx < 512,
            r.ram_bank_idx < 16,
    {
        if addr <= 0x1FFF {
            Mbc5State { ram_enabled: value % 16 == 0x0A, ..self }
        } else if addr <= 0x2FFF {
            Mbc5State { rom_bank_idx: self.rom_bank_idx / 256 * 256 + value as usize, ..self }
        } else if addr <= 0x3FFF {
            Mbc5State { rom_bank_idx: (value as usize % 2) * 256 + self.rom_bank_idx % 256, ..self }
        } else if addr <= 0x5FFF {
            Mbc5State {
                ram_bank_idx: value as usize % 16,
                rumble_enabled: (value / 8) % 2 == 1,
                ..self
            }
        } else {
            self
        }
    }
}

impl MemoryMode {
    /// Bank selectors stay within the widths of their registers.
    pub open spec fn wf(self) -> bool {
        match self {
            MemoryMode::RomOnly => true,
            MemoryMode::MBC1(m) => m.rom_bank_idx < 128 && m.ram_bank_idx < 4,
            MemoryMode::MBC2(m) => m.rom_bank_idx < 16,
            MemoryMode::MBC3(m) => m.rom_bank_idx < 128 && m.ram_bank_idx < 4,
            MemoryMode::MBC5(m) => m.rom_bank_idx < 512 && m.ram_bank_idx < 16,
        }
    }

    pub open spec fn spec_from_cartridge_type(t: CartridgeType) -> Option<MemoryMode> {
        match t {
            CartridgeType::RomOnly => Some(MemoryMode::RomOnly),
            CartridgeType::MBC1 => Some(
                MemoryMode::MBC1(
                    Mbc1State {
                        rom_bank_idx: 1,
                        ram_bank_idx: 0,
                        ram_enabled: false,
                        ram_banking: true,
                    },
                ),
            ),
            CartridgeType::MBC2 => Some(
                MemoryMode::MBC2(Mbc2State { rom_bank_idx: 1, ram_enabled: false }),
            ),
            CartridgeType::MBC3 => Some(
                MemoryMode::MBC3(
                    Mbc3State {
                        rom_bank_idx: 1,
                        ram_bank_idx: 0,
                        ram_rtc_enabled: false,
                        rtc_selected: None,
                        rtc_latched: false,
                        rtc_seconds: 0,
                        rtc_minutes: 0,
                        rtc_hours: 0,
                        rtc_days: 0,
                    },
                ),
            ),
            CartridgeType::MBC5 => Some(
                MemoryMode::MBC5(
                    Mbc5State {
                        rom_bank_idx: 1,
                        ram_bank_idx: 0,
                        ram_enabled: false,
                        rumble_enabled: false,
                    },
                ),
            ),
            CartridgeType::NotSupported | CartridgeType::Unknown => None,
        }
    }

    /// The power-up controller state for a mapper; `None` for a mapper that is not handled.
    pub fn from_cartridge_type(t: CartridgeType) -> (r: Option<MemoryMode>)
        ensures
            r == Self::spec_from_cartridge_type(t),
            r is Some ==> r->Some_0.wf(),
    {
        match t {
            CartridgeType::RomOnly => Some(MemoryMode::RomOnly),
            CartridgeType::MBC1 => Some(
                MemoryMode::MBC1(
                    Mbc1State {
                        rom_bank_idx: 1,
                        ram_bank_idx: 0,
                        ram_enabled: false,
                        ram_banking: true,
                    },
                ),
            ),
            CartridgeType::MBC2 => Some(
                MemoryMode::MBC2(Mbc2State { rom_bank_idx: 1, ram_enabled: false }),
            ),
            CartridgeType::MBC3 => Some(
                MemoryMode::MBC3(
                    Mbc3State {
                        rom_bank_idx: 1,
                        ram_bank_idx: 0,
                        ram_rtc_enabled: false,
                        rtc_selected: None,
                        rtc_latched: false,
                        rtc_seconds: 0,
                        rtc_minutes: 0,
                        rtc_hours: 0,
                        rtc_days: 0,
                    },
                ),
            ),
            CartridgeType::MBC5 => Some(
                MemoryMode::MBC5(
                    Mbc5State {
                        rom_bank_idx: 1,
                        ram_bank_idx: 0,
                        ram_enabled: false,
                        rumble_enabled: false,
                    },
                ),
            ),
            CartridgeType::NotSupported | CartridgeType::Unknown => None,
        }
    }

    pub open spec fn spec_rom_bank_idx(self) -> usize {
        match self {
            MemoryMode::RomOnly => 1,
            MemoryMode::MBC1(m) => m.rom_bank_idx,
            MemoryMode::MBC2(m) => m.rom_bank_idx,
            MemoryMode::MBC3(m) => m.rom_bank_idx,
            MemoryMode::MBC5(m) => m.rom_bank_idx,
        }
    }

    pub open spec fn spec_ram_bank_idx(self) -> usize {
        match self {
            MemoryMode::RomOnly => 0,
            MemoryMode::MBC1(m) => m.ram_bank_idx,
            MemoryMode::MBC2(_) => 0,
            MemoryMode::MBC3(m) => m.ram_bank_idx,
            MemoryMode::MBC5(m) => m.ram_bank_idx,
        }
    }

    /// The ROM bank shown at 0x4000..=0x7FFF.
    #[verifier::when_used_as_spec(spec_rom_bank_idx)]
    pub fn rom_bank_idx(self) -> (r: usize)
        ensures
            r == self.spec_rom_bank_idx(),
    {
        match self {
            MemoryMode::RomOnly => 1,
            MemoryMode::MBC1(m) => m.rom_bank_idx,
            MemoryMode::MBC2(m) => m.rom_bank_idx,
            MemoryMode::MBC3(m) => m.rom_bank_idx,
            MemoryMode::MBC5(m) => m.rom_bank_idx,
        }
    }

    /// The RAM bank shown at 0xA000..=0xBFFF.
    #[verifier::when_used_as_spec(spec_ram_bank_idx)]
    pub fn ram_bank_idx(self) -> (r: usize)
        ensures
            r == self.spec_ram_bank_idx(),
    {
        match self {
            MemoryMode::RomOnly => 0,
            MemoryMode::MBC1(m) => m.ram_bank_idx,
            MemoryMode::MBC2(_) => 0,
            MemoryMode::MBC3(m) => m.ram_bank_idx,
            MemoryMode::MBC5(m) => m.ram_bank_idx,
        }
    }

    /// Whether the controller has its external RAM switched off.
    pub open spec fn ram_disabled(self) -> bool {
        match self {
            MemoryMode::RomOnly => false,
            MemoryMode::MBC1(m) => !m.ram_enabled,
            MemoryMode::MBC2(m) => !m.ram_enabled,
            MemoryMode::MBC3(m) => !m.ram_rtc_enabled,
            MemoryMode::MBC5(m) => !m.ram_enabled,
        }
    }

    /// The controller after a write of `value` to `addr` in 0x0000..=0x7FFF.
    pub open spec fn spec_control(self, addr: u16, value: u8) -> MemoryMode {
        match self {
            MemoryMode::RomOnly => self,
            MemoryMode::MBC1(m) => MemoryMode::MBC1(m.spec_control(addr, value)),
            MemoryMode::MBC2(m) => MemoryMode::MBC2(m.spec_control(addr, value)),
            MemoryMode::MBC3(m) => MemoryMode::MBC3(m.spec_control(addr, value)),
            MemoryMode::MBC5(m) => MemoryMode::MBC5(m.spec_control(addr, value)),
        }
    }

    /// Applies a write of `value` to `addr` in 0x0000..=0x7FFF to the controller registers.
    pub fn control(self, addr: u16, value: u8) -> (r: MemoryMode)
        requires
            self.wf(),
        ensures
            r == self.spec_control(addr, value),
            r.wf(),
    {
        match self {
            MemoryMode::RomOnly => self,
            MemoryMode::MBC1(m) => MemoryMode::MBC1(m.control(addr, value)),
            MemoryMode::MBC2(m) => MemoryMode::MBC2(m.control(addr, value)),
            MemoryMode::MBC3(m) => MemoryMode::MBC3(m.control(addr, value)),
            MemoryMode::MBC5(m) => MemoryMode::MBC5(m.control(addr, value)),
        }
    }
}

/// The address after `addr`, wrapping from 0xFFFF to 0.
pub open spec fn next_addr(addr: u16) -> u16 {
    if addr == 0xFFFF {
        0
    } else {
        (addr + 1) as u16
    }
}

/// The address after `addr`, wrapping from 0xFFFF to 0.
fn following(addr: u16) -> (r: u16)
    ensures
        r == next_addr(addr),
{
    if addr == 0xFFFF {
        0
    } else {
        addr + 1
    }
}

impl MachineState {
    /// A byte of the ROM image; 0xFF past its end.
    pub open spec fn rom_byte(self, offset: int) -> u8 {
        if 0 <= offset < self.rom.len() {
            self.rom[offset]
        } else {
            0xFF
        }
    }

    /// A byte of the external RAM; 0xFF past its end.
    pub open spec fn ram_byte(self, offset: int) -> u8 {
        if 0 <= offset < self.ram.len() {
            self.ram[offset]
        } else {
            0xFF
        }
    }

    /// The state with a byte of the external RAM replaced; a write past its end is dropped.
    pub open spec fn with_ram_byte(self, offset: int, value: u8) -> MachineState {
        if 0 <= offset < self.ram.len() {
            MachineState { ram: self.ram.update(offset, value), ..self }
        } else {
            self
        }
    }

    /// Offset in the external RAM of `addr` in 0xA000..=0xBFFF, in the selected bank.
    pub open spec fn banked_ram_offset(self, addr: u16) -> int {
        addr - 0xA000 + self.mode.spec_ram_bank_idx() * RAM_BANK_SIZE
    }

    /// What a read of `addr` in 0xA000..=0xBFFF returns.
    pub open spec fn external_read(self, addr: u16) -> u8 {
        match self.mode {
            MemoryMode::RomOnly => self.ram_byte(addr - 0xA000),
            MemoryMode::MBC1(m) => {
                if m.ram_enabled {
                    self.ram_byte(self.banked_ram_offset(addr))
                } else {
                    0xFF
                }
            },
            MemoryMode::MBC5(m) => {
                if m.ram_enabled {
                    self.ram_byte(self.banked_ram_offset(addr))
                } else {
                    0xFF
                }
            },
            MemoryMode::MBC2(m) => {
                if m.ram_enabled {
                    (0xF0 + self.ram_byte((addr - 0xA000) % MBC2_RAM_SIZE as int) % 16) as u8
                } else {
                    0xFF
                }
            },
            MemoryMode::MBC3(m) => {
                if !m.ram_rtc_enabled {
                    0xFF
                } else {
                    match m.rtc_selected {
                        Some(s) => m.spec_rtc_register(s),
                        None => self.ram_byte(self.banked_ram_offset(addr)),
                    }
                }
            },
        }
    }

    /// What a read of `addr` returns.
    #[verifier::opaque]
    pub open spec fn read(self, addr: u16) -> u8 {
        if addr <= 0x3FFF {
            self.rom_byte(addr as int)
        } else if addr <= 0x7FFF {
            self.rom_byte(addr - 0x4000 + self.mode.spec_rom_bank_idx() * ROM_BANK_SIZE)
        } else if 0xA000 <= addr <= 0xBFFF {
            self.external_read(addr)
        } else if 0xE000 <= addr <= 0xFDFF {
            self.memory[addr - 0x2000]
        } else {
            self.memory[addr as int]
        }
    }

    /// The state after a write of `value` to `addr` in 0xA000..=0xBFFF.
    pub open spec fn external_write(self, addr: u16, value: u8) -> MachineState {
        match self.mode {
            MemoryMode::RomOnly => self.with_ram_byte(addr - 0xA000, value),
            MemoryMode::MBC1(m) => {
                if m.ram_enabled {
                    self.with_ram_byte(self.banked_ram_offset(addr), value)
                } else {
                    self
                }
            },
            MemoryMode::MBC5(m) => {
                if m.ram_enabled {
                    self.with_ram_byte(self.banked_ram_offset(addr), value)
                } else {
                    self
                }
            },
            MemoryMode::MBC2(m) => {
                if m.ram_enabled {
                    self.with_ram_byte((addr - 0xA000) % MBC2_RAM_SIZE as int, value)
                } else {
                    self
                }
            },
            MemoryMode::MBC3(m) => {
                if !m.ram_rtc_enabled {
                    self
                } else {
                    match m.rtc_selected {
                        Some(s) => MachineState {
                            mode: MemoryMode::MBC3(m.spec_rtc_write(s, value)),
                            ..self
                        },
                        None => self.with_ram_byte(self.banked_ram_offset(addr), value),
                    }
                }
            },
        }
    }

    /// The state with one byte of the internal memory replaced.
    pub open spec fn with_memory_byte(self, addr: int, value: u8) -> MachineState {
        MachineState { memory: self.memory.update(addr, value), ..self }
    }

    /// The state after a write of `value` to `addr`.
    #[verifier::opaque]
    pub open spec fn write(self, addr: u16, value: u8) -> MachineState {
        if addr <= 0x7FFF {
            MachineState { mode: self.mode.spec_control(addr, value), ..self }
        } else if 0xA000 <= addr <= 0xBFFF {
            self.external_write(addr, value)
        } else if 0xFEA0 <= addr <= 0xFEFF {
            self
        } else if 0xE000 <= addr <= 0xFDFF {
            self.with_memory_byte(addr - 0x2000, value)
        } else if addr == locations::DIV || addr == locations::LY {
            self.with_memory_byte(addr as int, 0)
        } else if addr == locations::TAC {
            let s = if self.memory[locations::TAC as int] % 4 != value % 4 {
                self.with_memory_byte(locations::TIMA as int, 0)
            } else {
                self
            };
            s.with_memory_byte(locations::TAC as int, value)
        } else {
            self.with_memory_byte(addr as int, value)
        }
    }

    /// What a little-endian 16-bit read at `addr` returns.
    pub open spec fn read_u16(self, addr: u16) -> u16 {
        crate::cpu::word(self.read(next_addr(addr)), self.read(addr))
    }

    /// The state after writing `values` one by one from `addr` upwards, wrapping
    /// past 0xFFFF.
    pub open spec fn write_bytes(self, addr: u16, values: Seq<u8>) -> MachineState
        decreases values.len(),
    {
        if values.len() == 0 {
            self
        } else {
            self.write(addr, values[0]).write_bytes(
                next_addr(addr),
                values.subrange(1, values.len() as int),
            )
        }
    }

    /// The state after a little-endian 16-bit write at `addr`.
    pub open spec fn write_u16(self, addr: u16, value: u16) -> MachineState {
        self.write(addr, (value % 256) as u8).write(next_addr(addr), (value / 256) as u8)
    }
}

/// A read does not look at the registers nor at the timing counters.
pub proof fn lemma_read_frame(s: MachineState, t: MachineState, addr: u16)
    requires
        s.mode == t.mode,
        s.memory == t.memory,
        s.rom == t.rom,
        s.ram == t.ram,
    ensures
        s.read(addr) == t.read(addr),
{
    reveal(MachineState::read);
}

/// A write never changes the ROM, the registers nor the cartridge header.
pub broadcast proof fn lemma_write_keeps_rom(s: MachineState, addr: u16, value: u8)
    ensures
        #[trigger] s.write(addr, value).rom == s.rom,
        s.write(addr, value).regs == s.regs,
        s.write(addr, value).header == s.header,
{
    reveal(MachineState::write);
}

/// A read in echo RAM returns the byte 0x2000 below it, and a write there is the
/// write 0x2000 below it.
pub proof fn lemma_echo_ram(s: MachineState, addr: u16, value: u8)
    requires
        0xE000 <= addr <= 0xFDFF,
    ensures
        s.read(addr) == s.read((addr - 0x2000) as u16),
        s.write(addr, value) == s.write((addr - 0x2000) as u16, value),
{
    reveal(MachineState::read);
    reveal(MachineState::write);
}

/// Whatever is written to DIV, DIV then reads 0.
pub proof fn lemma_div_write_resets(s: MachineState, value: u8)
    requires
        s.wf(),
    ensures
        s.write(locations::DIV, value).read(locations::DIV) == 0,
{
    reveal(MachineState::read);
    reveal(MachineState::write);
}

/// With the controller's RAM disabled, reads of 0xA000..=0xBFFF return 0xFF whatever
/// was written there before.
pub proof fn lemma_disabled_ram_ignores_writes(s: MachineState, addr: u16, value: u8, at: u16)
    requires
        s.mode.ram_disabled(),
        0xA000 <= addr <= 0xBFFF,
        0xA000 <= at <= 0xBFFF,
    ensures
        s.read(at) == 0xFF,
        s.write(addr, value).read(at) == 0xFF,
        s.write(addr, value).mode.ram_disabled(),
{
    reveal(MachineState::read);
    reveal(MachineState::write);
}

/// A 16-bit read is the byte at `addr + 1` shifted up by eight bits over the byte at `addr`.
pub proof fn lemma_read_u16_bytes(s: MachineState, addr: u16)
    requires
        addr <= 0xFFFE,
    ensures
        s.read_u16(addr) as int == s.read((addr + 1) as u16) as int * 256 + s.read(addr) as int,
{
}

impl GameBoy {
    fn ram_byte(&self, offset: usize) -> (r: u8)
        ensures
            r == self@.ram_byte(offset as int),
    {
        if offset < self.banks.len() {
            self.banks[offset]
        } else {
            0xFF
        }
    }

    fn set_ram_byte(&mut self, offset: usize, value: u8)
        ensures
            final(self)@ == old(self)@.with_ram_byte(offset as int, value),
    {
        if offset < self.banks.len() {
            self.banks[offset] = value;
        }
        proof {
            assert(final(self)@ =~= old(self)@.with_ram_byte(offset as int, value));
        }
    }

    /// Reads one byte of the address space.
    pub fn read_u8(&self, address: u16) -> (r: u8)
        requires
            self@.wf(),
        ensures
            r == self@.read(address),
    {
        reveal(MachineState::read);
        if address <= 0x3FFF {
            let a = address as usize;
            if a < self.cartridge.len() {
                self.cartridge[a]
            } else {
                0xFF
            }
        } else if address <= 0x7FFF {
            let offset = address as usize - 0x4000 + self.memory_mode.rom_bank_idx()
                * ROM_BANK_SIZE;
            if offset < self.cartridge.len() {
                self.cartridge[offset]
            } else {
                0xFF
            }
        } else if 0xA000 <= address && address <= 0xBFFF {
            let offset = address as usize - 0xA000;
            match self.memory_mode {
                MemoryMode::RomOnly => self.ram_byte(offset),
                MemoryMode::MBC1(m) => {
                    if m.ram_enabled {
                        self.ram_byte(offset + m.ram_bank_idx * RAM_BANK_SIZE)
                    } else {
                        0xFF
                    }
                },
                MemoryMode::MBC5(m) => {
                    if m.ram_enabled {
                        self.ram_byte(offset + m.ram_bank_idx * RAM_BANK_SIZE)
                    } else {
                        0xFF
                    }
                },
                MemoryMode::MBC2(m) => {
                    if m.ram_enabled {
                        0xF0 + self.ram_byte(offset % MBC2_RAM_SIZE) % 16
                    } else {
                        0xFF
                    }
                },
                MemoryMode::MBC3(m) => {
                    if !m.ram_rtc_enabled {
                        0xFF
                    } else {
                        match m.rtc_selected {
                            Some(selected) => m.rtc_register(selected),
                            None => self.ram_byte(offset + m.ram_bank_idx * RAM_BANK_SIZE),
                        }
                    }
                },
            }
        } else if 0xE000 <= address && address <= 0xFDFF {
            self.memory[address as usize - 0x2000]
        } else {
            self.memory[address as usize]
        }
    }

    /// Writes one byte of the address space: controller registers below 0x8000,
    /// external RAM, echo RAM, trapped I/O registers, or plain memory.
    pub fn write_u8(&mut self, address: u16, value: u8)
        requires
            old(self)@.wf(),
        ensures
            final(self)@ == old(self)@.write(address, value),
            final(self)@.wf(),
    {
        reveal(MachineState::write);
        if address <= 0x7FFF {
            self.memory_mode = self.memory_mode.control(address, value);
            return;
        }
        if 0xA000 <= address && address <= 0xBFFF {
            let offset = address as usize - 0xA000;
            match self.memory_mode {
                MemoryMode::RomOnly => self.set_ram_byte(offset, value),
                MemoryMode::MBC1(m) => {
                    if m.ram_enabled {
                        self.set_ram_byte(offset + m.ram_bank_idx * RAM_BANK_SIZE, value);
                    }
                },
                MemoryMode::MBC5(m) => {
                    if m.ram_enabled {
                        self.set_ram_byte(offset + m.ram_bank_idx * RAM_BANK_SIZE, value);
                    }
                },
                MemoryMode::MBC2(m) => {
                    if m.ram_enabled {
                        self.set_ram_byte(offset % MBC2_RAM_SIZE, value);
                    }
                },
                MemoryMode::MBC3(m) => {
                    if m.ram_rtc_enabled {
                        match m.rtc_selected {
                            Some(selected) => {
                                self.memory_mode = MemoryMode::MBC3(m.rtc_write(selected, value));
                            },
                            None => self.set_ram_byte(
                                offset + m.ram_bank_idx * RAM_BANK_SIZE,
                                value,
                            ),
                        }
                    }
                },
            }
            return;
        }
        if 0xFEA0 <= address && address <= 0xFEFF {
            return;
        }
        if 0xE000 <= address && address <= 0xFDFF {
            self.memory[address as usize - 0x2000] = value;
        } else if address == locations::DIV || address == locations::LY {
            self.memory[address as usize] = 0;
        } else if address == locations::TAC {
            if self.memory[locations::TAC as usize] % 4 != value % 4 {
                self.memory[locations::TIMA as usize] = 0;
            }
            self.memory[locations::TAC as usize] = value;
        } else {
            self.memory[address as usize] = value;
        }
        proof {
            assert(final(self)@ =~= old(self)@.write(address, value));
        }
    }

    /// Reads a little-endian 16-bit value at `address` and the address after it.
    pub fn read_u16(&self, address: u16) -> (r: u16)
        requires
            self@.wf(),
        ensures
            r == self@.read_u16(address),
    {
        let lower = self.read_u8(address);
        let upper = self.read_u8(following(address));
        (upper as u16) * 256 + lower as u16
    }

    /// Reads the addresses `first..=last`, in order; empty when `first > last`.
    pub fn read_bytes(&self, first: u16, last: u16) -> (r: Vec<u8>)
        requires
            self@.wf(),
        ensures
            r@.len() == if first <= last {
                last - first + 1
            } else {
                0
            },
            forall|i: int| 0 <= i < r@.len() ==> r@[i] == self@.read((first + i) as u16),
    {
        let mut r: Vec<u8> = Vec::new();
        if first > last {
            return r;
        }
        let mut a: u16 = first;
        loop
            invariant
                self@.wf(),
                first <= a <= last,
                r@.len() == a - first,
                forall|i: int| 0 <= i < r@.len() ==> r@[i] == self@.read((first + i) as u16),
            decreases last - a,
        {
            r.push(self.read_u8(a));
            if a == last {
                return r;
            }
            a = a + 1;
        }
    }

    /// Writes `values` to the addresses `first..=last` in order, stopping at the end
    /// of the range or of `values`, whichever comes first.
    pub fn write_bytes(&mut self, first: u16, last: u16, values: &[u8])
        requires
            old(self)@.wf(),
        ensures
            final(self)@ == old(self)@.write_bytes(
                first,
                values@.take(
                    if first > last {
                        0
                    } else if values@.len() < last - first + 1 {
                        values@.len() as int
                    } else {
                        last - first + 1
                    },
                ),
            ),
            final(self)@.wf(),
    {
        let ghost s0 = self@;
        let n: usize = if first > last {
            0
        } else if values.len() < (last - first) as usize + 1 {
            values.len()
        } else {
            (last - first) as usize + 1
        };
        let ghost vs = values@.take(n as int);
        let mut i: usize = 0;
        let mut a: u16 = first;
        proof {
            assert(vs.subrange(0, n as int) =~= vs);
        }
        while i < n
            invariant
                self@.wf(),
                n <= values@.len(),
                n > 0 ==> first + n <= last + 1,
                i <= n,
                i < n ==> a as int == first + i,
                vs == values@.take(n as int),
                self@.write_bytes(a, vs.subrange(i as int, n as int)) == s0.write_bytes(first, vs),
            decreases n - i,
        {
            let ghost rest = vs.subrange(i as int, n as int);
            proof {
                assert(rest.subrange(1, rest.len() as int) =~= vs.subrange(i + 1, n as int));
            }
            self.write_u8(a, values[i]);
            a = following(a);
            i = i + 1;
        }
        proof {
            assert(vs.subrange(n as int, n as int) =~= Seq::<u8>::empty());
            assert(vs.subrange(0, n as int) =~= vs);
        }
    }

    /// Writes a little-endian 16-bit value: the low byte at `address`, then the high
    /// byte at the address after it.
    pub fn write_u16(&mut self, address: u16, value: u16)
        requires
            old(self)@.wf(),
        ensures
            final(self)@ == old(self)@.write_u16(address, value),
            final(self)@.wf(),
    {
        self.write_u8(address, (value % 256) as u8);
        self.write_u8(following(address), (value / 256) as u8);
    }
}

} // verus!
