use vstd::prelude::*;

verus! {

/// Start of the title in the cartridge header.
pub const GAME_TITLE_START: usize = 0x0134;
/// Length of the title in the newer header layout.
pub const GAME_TITLE_LEN: usize = 11;
/// Length of the title in the older header layout.
pub const GAME_TITLE_OLDER_LEN: usize = 16;
/// Indicates if the game is Color GB
pub const COLOR_INDICATOR: usize = 0x0143;
/// Indicates if the game is SGB or GB
pub const GB_SGB_INDICATOR: usize = 0x0146;
/// Cartridge type
pub const CARTRIDGE_TYPE: usize = 0x0147;
/// Rom size in banks
pub const ROM_SIZE: usize = 0x0148;
/// Ram size in banks
pub const RAM_SIZE: usize = 0x0149;
/// Destination code
pub const DESTINATION_CODE: usize = 0x014A;
/// Old licensee code; 0x33 marks the newer header layout
pub const LICENSEE_CODE_OLDER: usize = 0x014B;
pub const MASK_ROM_VERSION_NUMBER: usize = 0x014C;
/// Header checksum byte
pub const COMPLEMENT_CHECK: usize = 0x014D;
/// First byte (high) of the big-endian global checksum
pub const CHECKSUM_HI: usize = 0x014E;
/// Second byte (low) of the big-endian global checksum
pub const CHECKSUM_LO: usize = 0x014F;
/// Length of the header region, counted from the start of the image
pub const HEADER_END: usize = 0x0150;

/// Register for reading joy pad info and determining system type.
pub const P1: u16 = 0xFF00;
/// Serial transfer data
pub const SB: u16 = 0xFF01;
/// Serial transfer control
pub const SC: u16 = 0xFF02;
/// Divider Register: incremented 16384 times a second, writing any value sets it to 0.
pub const DIV: u16 = 0xFF04;
/// Timer counter, incremented at the frequency selected by TAC.
pub const TIMA: u16 = 0xFF05;
/// Timer Modulo, loaded into TIMA when it overflows.
pub const TMA: u16 = 0xFF06;
/// Timer control: bit 2 starts the timer, bits 1-0 select its frequency.
pub const TAC: u16 = 0xFF07;
/// Interrupt Flag: bit 0 V-Blank, 1 LCD STAT, 2 timer, 3 serial, 4 joypad.
pub const IF: u16 = 0xFF0F;

pub const NR10: u16 = 0xFF10;
pub const NR11: u16 = 0xFF11;
pub const NR12: u16 = 0xFF12;
pub const NR13: u16 = 0xFF13;
pub const NR14: u16 = 0xFF14;
pub const NR21: u16 = 0xFF16;
pub const NR22: u16 = 0xFF17;
pub const NR23: u16 = 0xFF18;
pub const NR24: u16 = 0xFF19;
pub const NR30: u16 = 0xFF1A;
pub const NR31: u16 = 0xFF1B;
pub const NR32: u16 = 0xFF1C;
pub const NR33: u16 = 0xFF1D;
pub const NR34: u16 = 0xFF1E;
pub const NR41: u16 = 0xFF20;
pub const NR42: u16 = 0xFF21;
pub const NR43: u16 = 0xFF22;
pub const NR44: u16 = 0xFF23;
pub const NR50: u16 = 0xFF24;
pub const NR51: u16 = 0xFF25;
pub const NR52: u16 = 0xFF26;

/// LCD control
pub const LCDC: u16 = 0xFF40;
/// LCDC Status
pub const STAT: u16 = 0xFF41;
/// Scroll Y
pub const SCY: u16 = 0xFF42;
/// Scroll X
pub const SCX: u16 = 0xFF43;
/// LCDC Y-Coordinate; writing any value sets it to 0.
pub const LY: u16 = 0xFF44;
/// LY Compare
pub const LYC: u16 = 0xFF45;
/// DMA Transfer and Start Address
pub const DMA: u16 = 0xFF46;
/// BG & Window Palette Data
pub const BGP: u16 = 0xFF47;
/// Object Palette 0 Data
pub const OBP0: u16 = 0xFF48;
/// Object Palette 1 Data
pub const OBP1: u16 = 0xFF49;
/// Window Y Position
pub const WY: u16 = 0xFF4A;
/// Window X Position
pub const WX: u16 = 0xFF4B;
/// Interrupt Enable
pub const IE: u16 = 0xFFFF;

} // verus!
