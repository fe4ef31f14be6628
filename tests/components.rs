use gbemu::cartridge::{
    CartridgeError, CartridgeHeader, CartridgeType, Destination, RamSize, RomSize,
};
use gbemu::cpu::{Flag, Register, RegisterFile};
use gbemu::instructions::decode::{decode_bytes, immediate_len};
use gbemu::instructions::{
    AluOp, Condition, CpuError, Instruction, LoadDirection, Pointer, Register16Index,
    Register8Index, ShiftOp,
};
use gbemu::memory::{locations, MemoryMode};
use gbemu::GameBoy;

fn cartridge(kind: u8, rom_code: u8, ram_code: u8, banks: usize) -> Vec<u8> {
    let mut rom = vec![0u8; banks * 0x4000];
    rom[0x147] = kind;
    rom[0x148] = rom_code;
    rom[0x149] = ram_code;
    rom[0x14D] = 0x33;
    rom
}

fn machine() -> GameBoy {
    GameBoy::new(&cartridge(0x00, 0x00, 0x00, 2)).unwrap()
}

fn with_registers(gb: &mut GameBoy, a: u8, f: u8) {
    let mut r = gb.registers();
    r.af.value = (a as u16) << 8 | f as u16;
    gb.set_registers(r);
}

fn run(gb: &mut GameBoy, i: Instruction) -> u32 {
    gb.execute(i).unwrap()
}

fn flags(gb: &GameBoy) -> (bool, bool, bool, bool) {
    let r = gb.registers();
    (
        r.test_flag(Flag::Zero),
        r.test_flag(Flag::Subtract),
        r.test_flag(Flag::HalfCarry),
        r.test_flag(Flag::Carry),
    )
}

#[test]
fn header_fields_are_decoded() {
    let mut rom = cartridge(0x13, 0x05, 0x03, 64);
    rom[0x134..0x134 + 11].copy_from_slice(b"  POKEMON  ");
    rom[0x14B] = 0x33;
    rom[0x143] = 0x80;
    rom[0x146] = 0x03;
    rom[0x14A] = 0x01;
    rom[0x14C] = 0x02;
    rom[0x14E] = 0x12;
    rom[0x14F] = 0x34;
    let h = CartridgeHeader::parse(&rom).unwrap();
    assert_eq!(h.title, "POKEMON");
    assert!(h.color);
    assert!(h.sgb);
    assert_eq!(h.cart_type, CartridgeType::MBC3);
    assert_eq!(h.rom_size, RomSize::MiB1);
    assert_eq!(h.ram_size, RamSize::KiB32);
    assert_eq!(h.destination, Destination::NonJapanese);
    assert_eq!(h.version, 0x02);
    assert_eq!(h.header_checksum, 0x33);
    assert_eq!(h.global_checksum, 0x1234);
}

#[test]
fn older_header_has_a_sixteen_byte_title() {
    let mut rom = cartridge(0x00, 0x00, 0x00, 2);
    rom[0x134..0x144].copy_from_slice(b"TETRIS  LONGNAME");
    rom[0x146] = 0x03;
    let h = CartridgeHeader::parse(&rom).unwrap();
    assert_eq!(h.title, "TETRIS  LONGNAME");
    assert!(h.sgb);
}

#[test]
fn non_utf8_title_is_unknown() {
    let mut rom = cartridge(0x00, 0x00, 0x00, 2);
    rom[0x134] = 0xFF;
    assert_eq!(CartridgeHeader::parse(&rom).unwrap().title, "Unknown");
}

#[test]
fn header_rejects_reserved_codes_and_short_images() {
    assert_eq!(CartridgeHeader::parse(&[0u8; 0x14F]).err(), Some(CartridgeError::InvalidCartridge));
    let mut rom = cartridge(0x00, 0x09, 0x00, 2);
    assert_eq!(CartridgeHeader::parse(&rom).err(), Some(CartridgeError::InvalidCartridge));
    rom[0x148] = 0x00;
    rom[0x149] = 0x01;
    assert_eq!(CartridgeHeader::parse(&rom).err(), Some(CartridgeError::InvalidCartridge));
    rom[0x149] = 0x00;
    rom[0x14A] = 0x02;
    assert_eq!(CartridgeHeader::parse(&rom).err(), Some(CartridgeError::InvalidCartridge));
}

#[test]
fn code_tables() {
    assert_eq!(CartridgeType::from_code(0x00), CartridgeType::RomOnly);
    assert_eq!(CartridgeType::from_code(0x03), CartridgeType::MBC1);
    assert_eq!(CartridgeType::from_code(0x06), CartridgeType::MBC2);
    assert_eq!(CartridgeType::from_code(0x0F), CartridgeType::MBC3);
    assert_eq!(CartridgeType::from_code(0x1E), CartridgeType::MBC5);
    assert_eq!(CartridgeType::from_code(0x22), CartridgeType::NotSupported);
    assert_eq!(CartridgeType::from_code(0xFC), CartridgeType::NotSupported);
    assert_eq!(CartridgeType::from_code(0x04), CartridgeType::Unknown);
    assert_eq!(RomSize::from_code(0x05).unwrap().banks(), 0x40);
    assert_eq!(RomSize::from_code(0x52).unwrap().banks(), 0x48);
    assert_eq!(RomSize::from_code(0x09), None);
    assert_eq!(RamSize::from_code(0x04).unwrap().banks(), 0x10);
    assert_eq!(RamSize::from_code(0x00), Some(RamSize::NoRam));
    assert_eq!(Destination::from_code(0x00), Some(Destination::Japanese));
}

#[test]
fn boot_errors() {
    assert_eq!(
        GameBoy::new(&cartridge(0x08, 0x00, 0x00, 2)).err(),
        Some(CartridgeError::UnsupportedMbc)
    );
    assert_eq!(
        GameBoy::new(&cartridge(0x04, 0x00, 0x00, 2)).err(),
        Some(CartridgeError::InvalidCartridge)
    );
    assert_eq!(
        GameBoy::new(&cartridge(0x00, 0x01, 0x00, 2)).err(),
        Some(CartridgeError::InvalidCartridge)
    );
    assert_eq!(
        GameBoy::new(&cartridge(0x19, 0x07, 0x00, 256)).err(),
        Some(CartridgeError::InvalidCartridge)
    );
    assert!(GameBoy::new(&cartridge(0x19, 0x06, 0x04, 128)).is_ok());
}

#[test]
fn power_up_state() {
    let gb = machine();
    let r = gb.registers();
    assert_eq!(r.af.value, 0x01B0);
    assert_eq!(r.bc.value, 0x0013);
    assert_eq!(r.de.value, 0x00D8);
    assert_eq!(r.hl.value, 0x014D);
    assert_eq!(r.sp.value, 0xFFFE);
    assert_eq!(r.pc.value, 0x0100);
    assert!(!r.ime);
    assert_eq!(gb.read_u8(locations::P1), 0xCF);
    assert_eq!(gb.read_u8(locations::TAC), 0xF8);
    assert_eq!(gb.read_u8(locations::IF), 0xE1);
    assert_eq!(gb.read_u8(locations::NR31), 0xFF);
    assert_eq!(gb.read_u8(locations::NR52), 0xF1);
    assert_eq!(gb.read_u8(locations::LCDC), 0x91);
    assert_eq!(gb.read_u8(locations::BGP), 0xFC);
    assert_eq!(gb.read_u8(locations::IE), 0x00);
    assert_eq!(gb.memory().len(), 0x10000);
    let mut rom = cartridge(0x00, 0x00, 0x00, 2);
    rom[0x14D] = 0x00;
    assert_eq!(GameBoy::new(&rom).unwrap().registers().af.value, 0x0180);
}

#[test]
fn echo_ram_mirrors_work_ram() {
    let mut gb = machine();
    gb.write_u8(0xC123, 0x77);
    assert_eq!(gb.read_u8(0xE123), 0x77);
    gb.write_u8(0xE200, 0x99);
    assert_eq!(gb.read_u8(0xC200), 0x99);
}

#[test]
fn trapped_and_dropped_writes() {
    let mut gb = machine();
    gb.write_u8(locations::DIV, 0x55);
    assert_eq!(gb.read_u8(locations::DIV), 0);
    gb.write_u8(locations::LY, 0x55);
    assert_eq!(gb.read_u8(locations::LY), 0);
    let before = gb.read_u8(0xFEA5);
    gb.write_u8(0xFEA5, before.wrapping_add(1));
    assert_eq!(gb.read_u8(0xFEA5), before);
    gb.write_u8(locations::TIMA, 0x40);
    gb.write_u8(locations::TAC, 0xF9);
    assert_eq!(gb.read_u8(locations::TIMA), 0);
    assert_eq!(gb.read_u8(locations::TAC), 0xF9);
    gb.write_u8(locations::TIMA, 0x40);
    gb.write_u8(locations::TAC, 0x05);
    assert_eq!(gb.read_u8(locations::TIMA), 0x40);
}

#[test]
fn rom_is_never_written() {
    let rom = cartridge(0x00, 0x00, 0x00, 2);
    let mut gb = GameBoy::new(&rom).unwrap();
    gb.write_u8(0x0150, 0xAA);
    gb.write_u8(0x4000, 0xAA);
    assert_eq!(gb.read_u8(0x0150), 0x00);
    assert_eq!(gb.cartridge(), &rom[..]);
}

#[test]
fn sixteen_bit_round_trip() {
    let mut gb = machine();
    gb.write_u16(0xC000, 0xBEEF);
    assert_eq!(gb.read_u8(0xC000), 0xEF);
    assert_eq!(gb.read_u8(0xC001), 0xBE);
    assert_eq!(gb.read_u16(0xC000), 0xBEEF);
    assert_eq!(
        gb.read_u16(0xC000),
        (gb.read_u8(0xC001) as u16) << 8 | gb.read_u8(0xC000) as u16
    );
}

#[test]
fn disabled_ram_reads_ff() {
    let mut gb = GameBoy::new(&cartridge(0x03, 0x00, 0x02, 2)).unwrap();
    gb.write_u8(0xA000, 0x12);
    assert_eq!(gb.read_u8(0xA000), 0xFF);
    gb.write_u8(0x0000, 0x0A);
    gb.write_u8(0xA000, 0x12);
    assert_eq!(gb.read_u8(0xA000), 0x12);
    gb.write_u8(0x0000, 0x00);
    assert_eq!(gb.read_u8(0xA000), 0xFF);
}

#[test]
fn mbc1_ram_banks() {
    let mut gb = GameBoy::new(&cartridge(0x03, 0x00, 0x03, 2)).unwrap();
    gb.write_u8(0x0000, 0x0A);
    gb.write_u8(0x4000, 0x02);
    assert_eq!(gb.ram_bank_idx(), 2);
    gb.write_u8(0xA010, 0x44);
    assert_eq!(gb.ram()[2 * 0x2000 + 0x10], 0x44);
    gb.write_u8(0x6000, 0x00);
    gb.write_u8(0x4000, 0x01);
    assert_eq!(gb.ram_bank_idx(), 2);
    assert_eq!(gb.rom_bank_idx(), 0x21);
}

#[test]
fn mbc2_ram_is_nibbles_mirrored() {
    let mut gb = GameBoy::new(&cartridge(0x06, 0x01, 0x00, 4)).unwrap();
    gb.write_u8(0x0000, 0x0A);
    gb.write_u8(0xA005, 0x3C);
    assert_eq!(gb.read_u8(0xA005), 0xFC);
    assert_eq!(gb.read_u8(0xA205), 0xFC);
    gb.write_u8(0x0100, 0x03);
    assert_eq!(gb.rom_bank_idx(), 3);
    gb.write_u8(0x0100, 0x00);
    assert_eq!(gb.rom_bank_idx(), 1);
}

#[test]
fn mbc3_rtc_registers() {
    let mut gb = GameBoy::new(&cartridge(0x10, 0x00, 0x02, 2)).unwrap();
    gb.write_u8(0x0000, 0x0A);
    gb.write_u8(0x4000, 0x08);
    gb.write_u8(0xA000, 0x2A);
    assert_eq!(gb.read_u8(0xA000), 0x2A);
    gb.write_u8(0x4000, 0x0C);
    gb.write_u8(0xA000, 0x01);
    gb.write_u8(0x4000, 0x0B);
    gb.write_u8(0xA000, 0x05);
    match gb.memory_mode() {
        MemoryMode::MBC3(m) => {
            assert_eq!(m.rtc_seconds, 0x2A);
            assert_eq!(m.rtc_days, 0x0105);
        }
        _ => panic!("expected an MBC3 controller"),
    }
    gb.write_u8(0x4000, 0x00);
    gb.write_u8(0xA000, 0x77);
    assert_eq!(gb.read_u8(0xA000), 0x77);
    gb.write_u8(0x2000, 0x00);
    assert_eq!(gb.rom_bank_idx(), 1);
}

#[test]
fn mbc5_nine_bit_rom_bank() {
    let mut gb = GameBoy::new(&cartridge(0x19, 0x00, 0x00, 2)).unwrap();
    gb.write_u8(0x2000, 0x00);
    assert_eq!(gb.rom_bank_idx(), 0);
    gb.write_u8(0x2000, 0x34);
    gb.write_u8(0x3000, 0x01);
    assert_eq!(gb.rom_bank_idx(), 0x134);
    assert_eq!(gb.read_u8(0x4000), 0xFF);
    gb.write_u8(0x4000, 0x0B);
    assert_eq!(gb.ram_bank_idx(), 0x0B);
    match gb.memory_mode() {
        MemoryMode::MBC5(m) => assert!(m.rumble_enabled),
        _ => panic!("expected an MBC5 controller"),
    }
}

#[test]
fn alu_flags() {
    let mut gb = machine();
    with_registers(&mut gb, 0x10, 0x00);
    assert_eq!(run(&mut gb, Instruction::AluImmediate(AluOp::Sub, 0x01)), 8);
    assert_eq!(gb.registers().af.hi(), 0x0F);
    assert_eq!(flags(&gb), (false, true, true, false));
    with_registers(&mut gb, 0x00, 0x10);
    run(&mut gb, Instruction::AluImmediate(AluOp::Sbc, 0xFF));
    assert_eq!(gb.registers().af.hi(), 0x00);
    assert_eq!(flags(&gb), (true, true, true, true));
    with_registers(&mut gb, 0xFF, 0x10);
    run(&mut gb, Instruction::AluImmediate(AluOp::Adc, 0xFF));
    assert_eq!(gb.registers().af.hi(), 0xFF);
    assert_eq!(flags(&gb), (false, false, true, true));
    with_registers(&mut gb, 0x3C, 0x00);
    run(&mut gb, Instruction::AluImmediate(AluOp::Cp, 0x3C));
    assert_eq!(gb.registers().af.hi(), 0x3C);
    assert_eq!(flags(&gb), (true, true, false, false));
    run(&mut gb, Instruction::AluImmediate(AluOp::And, 0x0F));
    assert_eq!(gb.registers().af.hi(), 0x0C);
    assert_eq!(flags(&gb), (false, false, true, false));
    run(&mut gb, Instruction::AluImmediate(AluOp::Xor, 0x0C));
    assert_eq!(flags(&gb), (true, false, false, false));
    run(&mut gb, Instruction::AluImmediate(AluOp::Or, 0x81));
    assert_eq!(gb.registers().af.hi(), 0x81);
    assert_eq!(run(&mut gb, Instruction::Alu(AluOp::Add, Register8Index::HL)), 8);
    assert_eq!(run(&mut gb, Instruction::Alu(AluOp::Add, Register8Index::B)), 4);
}

#[test]
fn daa_adjusts_after_add_and_sub() {
    let mut gb = machine();
    with_registers(&mut gb, 0x45, 0x00);
    run(&mut gb, Instruction::AluImmediate(AluOp::Add, 0x38));
    run(&mut gb, Instruction::Daa);
    assert_eq!(gb.registers().af.hi(), 0x83);
    assert_eq!(flags(&gb), (false, false, false, false));
    with_registers(&mut gb, 0x83, 0x00);
    run(&mut gb, Instruction::AluImmediate(AluOp::Sub, 0x38));
    run(&mut gb, Instruction::Daa);
    assert_eq!(gb.registers().af.hi(), 0x45);
    with_registers(&mut gb, 0x99, 0x00);
    run(&mut gb, Instruction::AluImmediate(AluOp::Add, 0x01));
    run(&mut gb, Instruction::Daa);
    assert_eq!(gb.registers().af.hi(), 0x00);
    assert_eq!(flags(&gb), (true, false, false, true));
}

#[test]
fn sixteen_bit_arithmetic() {
    let mut gb = machine();
    let mut r = gb.registers();
    r.hl.value = 0x0FFF;
    r.bc.value = 0x0001;
    r.sp.value = 0xFFF8;
    gb.set_registers(r);
    assert_eq!(run(&mut gb, Instruction::AddHl(Register16Index::BC)), 8);
    assert_eq!(gb.registers().hl.value, 0x1000);
    let (z, n, h, c) = flags(&gb);
    assert_eq!((z, n, h, c), (true, false, true, false));
    assert_eq!(run(&mut gb, Instruction::AddSp(0x08)), 16);
    assert_eq!(gb.registers().sp.value, 0x0000);
    assert_eq!(flags(&gb), (false, false, true, true));
    assert_eq!(run(&mut gb, Instruction::LoadHlSpOffset(-1)), 12);
    assert_eq!(gb.registers().hl.value, 0xFFFF);
    assert_eq!(flags(&gb), (false, false, false, false));
    run(&mut gb, Instruction::Inc16(Register16Index::HL));
    assert_eq!(gb.registers().hl.value, 0x0000);
    run(&mut gb, Instruction::Dec16(Register16Index::BC));
    assert_eq!(gb.registers().bc.value, 0x0000);
}

#[test]
fn push_pop_af_masks_low_nibble() {
    let mut gb = machine();
    let mut r = gb.registers();
    r.sp.value = 0xD000;
    r.bc.value = 0x12FF;
    gb.set_registers(r);
    assert_eq!(run(&mut gb, Instruction::Push(Register16Index::BC)), 16);
    assert_eq!(gb.read_u8(0xCFFF), 0x12);
    assert_eq!(gb.read_u8(0xCFFE), 0xFF);
    assert_eq!(run(&mut gb, Instruction::Pop(Register16Index::AF)), 12);
    assert_eq!(gb.registers().af.value, 0x12F0);
    assert_eq!(gb.registers().sp.value, 0xD000);
}

#[test]
fn calls_jumps_and_returns() {
    let mut gb = machine();
    let mut r = gb.registers();
    r.sp.value = 0xD000;
    r.pc.value = 0x0150;
    r.af.value = 0x0000;
    gb.set_registers(r);
    assert_eq!(run(&mut gb, Instruction::Call(Some(Condition::Zero), 0x2000)), 12);
    assert_eq!(gb.registers().pc.value, 0x0150);
    assert_eq!(run(&mut gb, Instruction::Call(Some(Condition::NotZero), 0x2000)), 24);
    assert_eq!(gb.registers().pc.value, 0x2000);
    assert_eq!(gb.read_u16(0xCFFE), 0x0150);
    assert_eq!(run(&mut gb, Instruction::JumpRelative(None, -16)), 12);
    assert_eq!(gb.registers().pc.value, 0x1FF0);
    assert_eq!(run(&mut gb, Instruction::Ret(Some(Condition::Carry))), 8);
    assert_eq!(run(&mut gb, Instruction::Ret(Some(Condition::NotCarry))), 20);
    assert_eq!(gb.registers().pc.value, 0x0150);
    assert_eq!(run(&mut gb, Instruction::Rst(0x38)), 16);
    assert_eq!(gb.registers().pc.value, 0x0038);
    assert_eq!(run(&mut gb, Instruction::Reti), 16);
    assert!(gb.registers().ime);
    assert_eq!(gb.registers().pc.value, 0x0150);
    assert_eq!(run(&mut gb, Instruction::Jump(None, 0x4000)), 16);
    assert_eq!(gb.registers().pc.value, 0x4000);
    assert_eq!(run(&mut gb, Instruction::Di), 4);
    assert!(!gb.registers().ime);
}

#[test]
fn rotates_shifts_and_bits() {
    let mut gb = machine();
    let mut r = gb.registers();
    r.bc.value = 0x8100;
    r.af.value = 0x0010;
    gb.set_registers(r);
    assert_eq!(run(&mut gb, Instruction::Shift(ShiftOp::Rlc, Register8Index::B)), 8);
    assert_eq!(gb.registers().bc.hi(), 0x03);
    assert!(gb.registers().test_flag(Flag::Carry));
    run(&mut gb, Instruction::Shift(ShiftOp::Rr, Register8Index::B));
    assert_eq!(gb.registers().bc.hi(), 0x81);
    run(&mut gb, Instruction::Shift(ShiftOp::Sra, Register8Index::B));
    assert_eq!(gb.registers().bc.hi(), 0xC0);
    run(&mut gb, Instruction::Shift(ShiftOp::Srl, Register8Index::B));
    assert_eq!(gb.registers().bc.hi(), 0x60);
    run(&mut gb, Instruction::Shift(ShiftOp::Swap, Register8Index::B));
    assert_eq!(gb.registers().bc.hi(), 0x06);
    run(&mut gb, Instruction::Shift(ShiftOp::Sla, Register8Index::B));
    assert_eq!(gb.registers().bc.hi(), 0x0C);
    run(&mut gb, Instruction::Shift(ShiftOp::Rrc, Register8Index::C));
    assert_eq!(flags(&gb), (true, false, false, false));
    with_registers(&mut gb, 0x80, 0x00);
    assert_eq!(run(&mut gb, Instruction::RotateA(ShiftOp::Rl)), 4);
    assert_eq!(gb.registers().af.hi(), 0x00);
    assert_eq!(flags(&gb), (false, false, false, true));
    assert_eq!(run(&mut gb, Instruction::TestBit(7, Register8Index::B)), 8);
    assert!(gb.registers().test_flag(Flag::Zero));
    run(&mut gb, Instruction::SetBit(7, Register8Index::B));
    assert_eq!(gb.registers().bc.hi(), 0x8C);
    run(&mut gb, Instruction::ResetBit(2, Register8Index::B));
    assert_eq!(gb.registers().bc.hi(), 0x88);
    assert_eq!(run(&mut gb, Instruction::SetBit(0, Register8Index::HL)), 16);
}

#[test]
fn loads() {
    let mut gb = machine();
    let mut r = gb.registers();
    r.hl.value = 0xC000;
    r.af.value = 0x5500;
    r.bc.value = 0x0080;
    gb.set_registers(r);
    assert_eq!(run(&mut gb, Instruction::LoadA(Pointer::HlIncrement, LoadDirection::Into)), 8);
    assert_eq!(gb.read_u8(0xC000), 0x55);
    assert_eq!(gb.registers().hl.value, 0xC001);
    assert_eq!(run(&mut gb, Instruction::LoadA(Pointer::HighC, LoadDirection::Into)), 8);
    assert_eq!(gb.read_u8(0xFF80), 0x55);
    assert_eq!(run(&mut gb, Instruction::LoadA(Pointer::Address(0xC100), LoadDirection::Into)), 16);
    assert_eq!(run(&mut gb, Instruction::Load8Immediate(Register8Index::HL, 0x21)), 12);
    assert_eq!(gb.read_u8(0xC001), 0x21);
    assert_eq!(run(&mut gb, Instruction::Load8(Register8Index::D, Register8Index::HL)), 8);
    assert_eq!(gb.registers().de.hi(), 0x21);
    assert_eq!(run(&mut gb, Instruction::LoadA(Pointer::HighOffset(0x80), LoadDirection::From)), 12);
    assert_eq!(gb.registers().af.hi(), 0x55);
    assert_eq!(run(&mut gb, Instruction::StoreSp(0xC200)), 20);
    assert_eq!(gb.read_u16(0xC200), gb.registers().sp.value);
    assert_eq!(run(&mut gb, Instruction::Load16Immediate(Register16Index::DE, 0x1234)), 12);
    assert_eq!(gb.registers().de.value, 0x1234);
    assert_eq!(run(&mut gb, Instruction::LoadSpHl), 8);
    assert_eq!(gb.registers().sp.value, 0xC001);
}

#[test]
fn f_register_keeps_low_nibble_zero() {
    let mut gb = machine();
    Register8Index::F.set(&mut gb, 0xFF);
    assert_eq!(Register8Index::F.get(&gb), 0xF0);
    Register16Index::AF.set(&mut gb, 0x12FF);
    assert_eq!(Register16Index::AF.get(&gb), 0x12F0);
    let mut regs = RegisterFile::default();
    regs.set_flag(Flag::HalfCarry, true);
    assert_eq!(regs.af.lo(), 0x20);
    let mut reg = Register { value: 0x1234 };
    reg.set_hi(0xAB);
    reg.set_lo(0xCD);
    assert_eq!(reg.value, 0xABCD);
}

#[test]
fn decode_table() {
    assert_eq!(decode_bytes(0x00, 0, 0), Some(Instruction::Nop));
    assert_eq!(decode_bytes(0x3E, 0x42, 0), Some(Instruction::Load8Immediate(Register8Index::A, 0x42)));
    assert_eq!(decode_bytes(0x80, 0, 0), Some(Instruction::Alu(AluOp::Add, Register8Index::B)));
    assert_eq!(decode_bytes(0x9E, 0, 0), Some(Instruction::Alu(AluOp::Sbc, Register8Index::HL)));
    assert_eq!(decode_bytes(0x41, 0, 0), Some(Instruction::Load8(Register8Index::B, Register8Index::C)));
    assert_eq!(decode_bytes(0x36, 0x07, 0), Some(Instruction::Load8Immediate(Register8Index::HL, 0x07)));
    assert_eq!(decode_bytes(0x20, 0xFE, 0), Some(Instruction::JumpRelative(Some(Condition::NotZero), -2)));
    assert_eq!(decode_bytes(0xCD, 0x34, 0x12), Some(Instruction::Call(None, 0x1234)));
    assert_eq!(decode_bytes(0xDA, 0x00, 0x80), Some(Instruction::Jump(Some(Condition::Carry), 0x8000)));
    assert_eq!(decode_bytes(0xF5, 0, 0), Some(Instruction::Push(Register16Index::AF)));
    assert_eq!(decode_bytes(0x31, 0xFE, 0xFF), Some(Instruction::Load16Immediate(Register16Index::SP, 0xFFFE)));
    assert_eq!(decode_bytes(0xEF, 0, 0), Some(Instruction::Rst(0x28)));
    assert_eq!(decode_bytes(0xCB, 0x7C, 0), Some(Instruction::TestBit(7, Register8Index::H)));
    assert_eq!(decode_bytes(0xCB, 0x0F, 0), Some(Instruction::Shift(ShiftOp::Rrc, Register8Index::A)));
    assert_eq!(decode_bytes(0xCB, 0xFE, 0), Some(Instruction::SetBit(7, Register8Index::HL)));
    assert_eq!(decode_bytes(0x07, 0, 0), Some(Instruction::RotateA(ShiftOp::Rlc)));
    for op in [0xD3u8, 0xDB, 0xDD, 0xE3, 0xE4, 0xEB, 0xEC, 0xED, 0xF4, 0xFC, 0xFD] {
        assert_eq!(decode_bytes(op, 0, 0), None);
    }
    assert_eq!(immediate_len(0xC3), 2);
    assert_eq!(immediate_len(0xCB), 1);
    assert_eq!(immediate_len(0x80), 0);
}

#[test]
fn fetch_and_decode_advance_pc_by_length() {
    let mut rom = cartridge(0x00, 0x00, 0x00, 2);
    rom[0x100] = 0xC3;
    rom[0x101] = 0x50;
    rom[0x102] = 0x01;
    let mut gb = GameBoy::new(&rom).unwrap();
    let op = gb.fetch();
    assert_eq!(gb.decode(op), Ok(Instruction::Jump(None, 0x0150)));
    assert_eq!(gb.registers().pc.value, 0x0103);
    let mut regs = gb.registers();
    regs.pc.value = 0x0150;
    gb.set_registers(regs);
    let mut noise = vec![0u8; 0x10000];
    noise[0xC000] = 0x11;
    let ram = gb.ram().to_vec();
    gb.reset_with(noise, ram);
    assert_eq!(gb.read_u8(0xC000), 0x11);
    assert_eq!(gb.registers().pc.value, 0x0100);
    assert_eq!(
        gb.execute(Instruction::Stop),
        Err(CpuError::UnsupportedControl { pc: 0x00FF })
    );
}

#[test]
fn checksummed_header_parses() {
    let mut rom = cartridge(0x01, 0x01, 0x02, 4);
    rom[0x134..0x13F].copy_from_slice(b"CHECKSUMMED");
    rom[0x14B] = 0x33;
    let sum: u32 = rom[0x134..0x14D].iter().map(|&b| b as u32).sum();
    rom[0x14D] = ((256 - sum % 256) % 256) as u8;
    let total: u32 = sum + rom[0x14D] as u32;
    assert_eq!(total % 256, 0);
    let h = CartridgeHeader::parse(&rom).unwrap();
    assert_eq!(h.title, "CHECKSUMMED");
    assert_eq!(h.cart_type, CartridgeType::MBC1);
    assert!(GameBoy::new(&rom).is_ok());
}

#[test]
fn range_read_and_write() {
    let mut gb = machine();
    gb.write_bytes(0xC010, 0xC013, &[1, 2, 3, 4, 5]);
    assert_eq!(gb.read_bytes(0xC010, 0xC014), vec![1, 2, 3, 4, gb.read_u8(0xC014)]);
    gb.write_bytes(0xC020, 0xC02F, &[9, 8]);
    assert_eq!(gb.read_bytes(0xC020, 0xC021), vec![9, 8]);
    assert_eq!(gb.read_bytes(0xC001, 0xC000), Vec::<u8>::new());
    gb.write_bytes(0xE100, 0xE100, &[0x42]);
    assert_eq!(gb.read_u8(0xC100), 0x42);
    assert_eq!(gb.read_bytes(0xFFFF, 0xFFFF), vec![0x00]);
}

#[test]
fn booted_header_matches_parsed_header() {
    let mut rom = cartridge(0x00, 0x00, 0x00, 2);
    rom[0x134..0x13F].copy_from_slice(b"ZELDA      ");
    rom[0x14B] = 0x33;
    let gb = GameBoy::new(&rom).unwrap();
    let parsed = CartridgeHeader::parse(&rom).unwrap();
    assert_eq!(gb.cartridge_header().title, "ZELDA");
    assert_eq!(gb.cartridge_header().title, parsed.title);
    assert_eq!(gb.cartridge_header().cart_type, parsed.cart_type);
}
