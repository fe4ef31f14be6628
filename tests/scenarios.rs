use gbemu::cpu::{Flag, Interrupt, RegisterFile};
use gbemu::memory::locations;
use gbemu::GameBoy;

fn rom_with_program(program: &[u8]) -> Vec<u8> {
    let mut rom = vec![0u8; 0x8000];
    rom[0x147] = 0x00;
    rom[0x148] = 0x00;
    rom[0x149] = 0x00;
    rom[0x14A] = 0x01;
    rom[0x14D] = 0x5A;
    rom[0x100..0x100 + program.len()].copy_from_slice(program);
    rom
}

fn flags(gb: &GameBoy) -> (bool, bool, bool, bool) {
    let r = gb.registers();
    (
        r.test_flag(Flag::Zero),
        r.test_flag(Flag::Subtract),
        r.test_flag(Flag::HalfCarry),
        r.test_flag(Flag::Carry),
    )
}

#[test]
fn add_then_ret_takes_36_cycles() {
    let mut gb = GameBoy::new(&rom_with_program(&[0x3E, 0x42, 0x06, 0x08, 0x80, 0xC9])).unwrap();
    let mut cycles = 0;
    for _ in 0..3 {
        cycles += gb.step_instruction().unwrap();
    }
    let return_address = gb.read_u16(0xFFFE);
    cycles += gb.step_instruction().unwrap();
    assert_eq!(gb.registers().af.hi(), 0x4A);
    assert_eq!(flags(&gb), (false, false, false, false));
    assert_eq!(gb.registers().pc.value, return_address);
    assert_eq!(gb.registers().sp.value, 0x0000);
    assert_eq!(cycles, 36);
}

#[test]
fn add_overflow_sets_zero_half_carry_and_carry() {
    let mut gb = GameBoy::new(&rom_with_program(&[0x3E, 0xFF, 0x06, 0x01, 0x80])).unwrap();
    for _ in 0..3 {
        gb.step_instruction().unwrap();
    }
    assert_eq!(gb.registers().af.hi(), 0x00);
    assert_eq!(flags(&gb), (true, false, true, true));
}

#[test]
fn inc_keeps_carry_flag() {
    let mut gb = GameBoy::new(&rom_with_program(&[0x3E, 0x00, 0xC6, 0xFF, 0x3C])).unwrap();
    gb.step_instruction().unwrap();
    gb.step_instruction().unwrap();
    assert_eq!(gb.registers().af.hi(), 0xFF);
    let (z, _, h, c) = flags(&gb);
    assert_eq!((z, h, c), (false, false, false));
    assert_eq!(gb.step_instruction().unwrap(), 4);
    assert_eq!(gb.registers().af.hi(), 0x00);
    let (z, _, h, c) = flags(&gb);
    assert_eq!((z, h, c), (true, true, false));
}

#[test]
fn mbc1_bank_switching() {
    let mut rom = vec![0u8; 8 * 0x4000];
    rom[0x147] = 0x01;
    rom[0x148] = 0x02;
    rom[0x149] = 0x02;
    for bank in 0..8 {
        rom[bank * 0x4000 + 0x10] = 0xB0 + bank as u8;
    }
    let mut gb = GameBoy::new(&rom).unwrap();
    gb.write_u8(0x0000, 0x0A);
    match gb.memory_mode() {
        gbemu::memory::MemoryMode::MBC1(m) => assert!(m.ram_enabled),
        _ => panic!("expected an MBC1 controller"),
    }
    gb.write_u8(0x2000, 0x05);
    assert_eq!(gb.rom_bank_idx(), 5);
    assert_eq!(gb.read_u8(0x4000), rom[5 * 0x4000]);
    assert_eq!(gb.read_u8(0x4010), 0xB5);
    gb.write_u8(0x2000, 0x00);
    assert_eq!(gb.rom_bank_idx(), 1);
    assert_eq!(gb.read_u8(0x4010), 0xB1);
}

#[test]
fn timer_overflows_once_in_256_timer_ticks() {
    let mut gb = GameBoy::new(&rom_with_program(&[])).unwrap();
    gb.write_u8(locations::TAC, 0x05);
    gb.write_u8(locations::TIMA, 0x00);
    gb.write_u8(locations::TMA, 0x00);
    assert_eq!(gb.read_u8(locations::IF) & 0b100, 0);
    // 262144 Hz is one TIMA increment every 16 T-cycles.
    for _ in 0..255 {
        gb.tick(16).unwrap();
    }
    assert_eq!(gb.read_u8(locations::TIMA), 0xFF);
    assert_eq!(gb.read_u8(locations::IF) & 0b100, 0);
    gb.tick(16).unwrap();
    assert_eq!(gb.read_u8(locations::TIMA), 0x00);
    assert_ne!(gb.read_u8(locations::IF) & 0b100, 0);
}

#[test]
fn vblank_interrupt_is_serviced_at_the_slice_boundary() {
    let mut gb = GameBoy::new(&rom_with_program(&[])).unwrap();
    let mut regs: RegisterFile = gb.registers();
    regs.ime = true;
    regs.sp.value = 0xFFFE;
    regs.pc.value = 0x1234;
    gb.set_registers(regs);
    gb.write_u8(locations::IE, 0x01);
    gb.write_u8(locations::IF, 0x01);
    gb.tick(0).unwrap();
    let regs = gb.registers();
    assert_eq!(regs.pc.value, 0x0040);
    assert_eq!(gb.read_u8(locations::IF) & 0x01, 0);
    assert!(!regs.ime);
    assert_eq!(gb.read_u8(0xFFFC), 0x34);
    assert_eq!(gb.read_u8(0xFFFD), 0x12);
    assert_eq!(regs.sp.value, 0xFFFC);
}

#[test]
fn lowest_pending_interrupt_wins() {
    let mut gb = GameBoy::new(&rom_with_program(&[])).unwrap();
    let mut regs = gb.registers();
    regs.ime = true;
    regs.pc.value = 0x0200;
    gb.set_registers(regs);
    gb.write_u8(locations::IE, 0x1F);
    gb.write_u8(locations::IF, 0x14);
    gb.tick(0).unwrap();
    assert_eq!(gb.registers().pc.value, 0x0050);
    assert_eq!(gb.read_u8(locations::IF), 0x10);
}

#[test]
fn interrupt_is_not_serviced_without_ime() {
    let mut gb = GameBoy::new(&rom_with_program(&[])).unwrap();
    gb.write_u8(locations::IE, 0x1F);
    gb.interrupt(Interrupt::Joypad);
    assert_ne!(gb.read_u8(locations::IF) & 0x10, 0);
    let pc = gb.registers().pc.value;
    gb.tick(0).unwrap();
    assert_eq!(gb.registers().pc.value, pc);
}

#[test]
fn divider_advances_at_16384_hz() {
    let mut gb = GameBoy::new(&rom_with_program(&[])).unwrap();
    assert_eq!(gb.read_u8(locations::DIV), 0xAB);
    gb.tick(255).unwrap();
    assert_eq!(gb.read_u8(locations::DIV), 0xAB);
    gb.tick(1).unwrap();
    assert_eq!(gb.read_u8(locations::DIV), 0xAC);
    gb.tick(256 * 0x54).unwrap();
    assert_eq!(gb.read_u8(locations::DIV), 0x00);
}

#[test]
fn slice_runs_until_its_own_budget() {
    // Each NOP takes 4 cycles: a slice stops at the first total reaching its budget,
    // and nothing is carried into the next slice.
    let mut gb = GameBoy::new(&rom_with_program(&[])).unwrap();
    gb.tick(6).unwrap();
    assert_eq!(gb.registers().pc.value, 0x0102);
    gb.tick(2).unwrap();
    assert_eq!(gb.registers().pc.value, 0x0103);
    gb.tick(8).unwrap();
    assert_eq!(gb.registers().pc.value, 0x0105);
    gb.tick(0).unwrap();
    assert_eq!(gb.registers().pc.value, 0x0105);
}

#[test]
fn unimplemented_opcode_aborts_the_slice() {
    let mut gb = GameBoy::new(&rom_with_program(&[0x00, 0xD3])).unwrap();
    let r = gb.tick(100);
    assert_eq!(
        r,
        Err(gbemu::instructions::CpuError::UnimplementedOpcode { opcode: 0xD3, pc: 0x0101 })
    );
}

#[test]
fn halt_is_reported() {
    let mut gb = GameBoy::new(&rom_with_program(&[0x76])).unwrap();
    assert_eq!(
        gb.tick(4),
        Err(gbemu::instructions::CpuError::UnsupportedControl { pc: 0x0100 })
    );
}

#[test]
fn interrupt_service_costs_20_cycles() {
    let mut gb = GameBoy::new(&rom_with_program(&[])).unwrap();
    let mut regs = gb.registers();
    regs.ime = true;
    gb.set_registers(regs);
    gb.write_u8(locations::IE, 0x04);
    gb.write_u8(locations::IF, 0x04);
    assert_eq!(gb.tick(0), Ok(20));
    assert_eq!(gb.registers().pc.value, 0x0050);
    assert_eq!(gb.tick(8), Ok(0));
    assert_eq!(gb.registers().pc.value, 0x0052);
}
