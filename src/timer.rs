use vstd::prelude::*;

use crate::cpu::Interrupt;
use crate::instructions::decode::{advance, spec_immediate_len};
use crate::instructions::execute::{bit_set, clear_bit, with_bit};
use crate::instructions::{CpuError, Instruction};
use crate::memory::{locations, next_addr};
use crate::{GameBoy, MachineState};

verus! {

/// T-cycles that servicing an interrupt takes, reported apart from the instructions.
pub const INTERRUPT_SERVICE_CYCLES: u64 = 20;

/// T-cycles per DIV increment (4194304 Hz / 16384 Hz).
pub const DIV_PERIOD: u64 = 256;

/// T-cycles per TIMA increment for the clock selected by the low two bits of TAC:
/// 4096 Hz, 262144 Hz, 65536 Hz or 16384 Hz.
pub open spec fn spec_timer_period(tac: u8) -> u64 {
    let sel = tac % 4;
    if sel == 0 {
        1024
    } else if sel == 1 {
        16
    } else if sel == 2 {
        64
    } else {
        256
    }
}

#[verifier::when_used_as_spec(spec_timer_period)]
pub fn timer_period(tac: u8) -> (r: u64)
    ensures
        r == spec_timer_period(tac),
{
    let sel = tac % 4;
    if sel == 0 {
        1024
    } else if sel == 1 {
        16
    } else if sel == 2 {
        64
    } else {
        256
    }
}

/// The lowest-numbered interrupt both requested in `flags` and enabled in `enable`.
pub open spec fn lowest_pending(flags: u8, enable: u8) -> Option<u8> {
    if bit_set(flags, 0) && bit_set(enable, 0) {
        Some(0u8)
    } else if bit_set(flags, 1) && bit_set(enable, 1) {
        Some(1u8)
    } else if bit_set(flags, 2) && bit_set(enable, 2) {
        Some(2u8)
    } else if bit_set(flags, 3) && bit_set(enable, 3) {
        Some(3u8)
    } else if bit_set(flags, 4) && bit_set(enable, 4) {
        Some(4u8)
    } else {
        None
    }
}

impl MachineState {
    /// One fetch, decode and execute: the new state and the T-cycles taken.
    #[verifier::opaque]
    pub open spec fn cpu_step(self) -> Result<(MachineState, u32), CpuError> {
        let pc = self.regs.pc.value;
        let opcode = self.read(pc);
        let s1 = self.with_pc(next_addr(pc));
        match s1.decoded(opcode) {
            Err(e) => Err(e),
            Ok(i) => {
                let s2 = s1.with_pc(advance(next_addr(pc), spec_immediate_len(opcode)));
                match s2.outcome(i) {
                    Err(e) => Err(e),
                    Ok(c) => Ok((s2.step(i), c)),
                }
            },
        }
    }

    /// Instructions run one after the other until at least `budget` T-cycles are
    /// spent: the final state and the cycles spent, or the first error.
    pub open spec fn run(self, budget: int) -> Result<(MachineState, int), CpuError>
        decreases budget,
    {
        if budget <= 0 {
            Ok((self, 0))
        } else {
            match self.cpu_step() {
                Err(e) => Err(e),
                Ok((s2, c)) => {
                    proof {
                        lemma_cpu_step_cycles(self);
                    }
                    if c >= budget {
                        Ok((s2, c as int))
                    } else {
                        match s2.run(budget - c) {
                            Err(e) => Err(e),
                            Ok((s3, spent)) => Ok((s3, spent + c)),
                        }
                    }
                },
            }
        }
    }

    /// The instruction part of a slice of `delta` T-cycles: instructions run until
    /// their own total reaches `delta`.
    pub open spec fn instruction_phase(self, delta: u64) -> Result<MachineState, CpuError> {
        match self.run(delta as int) {
            Err(e) => Err(e),
            Ok((s, _)) => Ok(s),
        }
    }

    /// DIV advanced at 16384 Hz over `delta` T-cycles, without the write trap.
    pub open spec fn advance_div(self, delta: u64) -> MachineState {
        let total = self.div_cycles + delta;
        let ticks = total / DIV_PERIOD as int;
        MachineState {
            memory: self.memory.update(
                locations::DIV as int,
                ((self.memory[locations::DIV as int] + ticks) % 256) as u8,
            ),
            div_cycles: (total % DIV_PERIOD as int) as u64,
            ..self
        }
    }

    /// The interrupt's bit set in IF.
    pub open spec fn raise(self, kind: Interrupt) -> MachineState {
        self.write(locations::IF, with_bit(self.read(locations::IF), kind.spec_bit()))
    }

    /// One TIMA increment; from 0xFF it reloads TMA and raises the timer interrupt.
    pub open spec fn timer_tick(self) -> MachineState {
        let tima = self.read(locations::TIMA);
        if tima == 255 {
            self.write(locations::TIMA, self.read(locations::TMA)).raise(Interrupt::TimerOverflow)
        } else {
            self.write(locations::TIMA, (tima + 1) as u8)
        }
    }

    pub open spec fn timer_ticks(self, n: nat) -> MachineState
        decreases n,
    {
        if n == 0 {
            self
        } else {
            self.timer_tick().timer_ticks((n - 1) as nat)
        }
    }

    /// TIMA advanced over `delta` T-cycles, if TAC starts the timer.
    pub open spec fn advance_timer(self, delta: u64) -> MachineState {
        let tac = self.read(locations::TAC);
        if bit_set(tac, 2) {
            let period = spec_timer_period(tac) as int;
            let total = self.timer_cycles + delta;
            MachineState { timer_cycles: (total % period) as u64, ..self }.timer_ticks(
                (total / period) as nat,
            )
        } else {
            self
        }
    }

    /// With IME set, the highest-priority pending interrupt is serviced: IME is
    /// cleared, its IF bit cleared, PC pushed, and PC set to its vector.
    pub open spec fn service_interrupts(self) -> MachineState {
        let flags = self.read(locations::IF);
        if !self.regs.ime {
            self
        } else {
            match lowest_pending(flags, self.read(locations::IE)) {
                None => self,
                Some(b) => {
                    let s1 = self.with_ime(false);
                    let s2 = s1.write(locations::IF, clear_bit(flags, b));
                    s2.push(self.regs.pc.value).with_pc((0x40 + 8 * b) as u16)
                },
            }
        }
    }

    /// T-cycles that `service_interrupts` takes: 20 when it services one, else 0.
    pub open spec fn service_cycles(self) -> u32 {
        if self.regs.ime && lowest_pending(self.read(locations::IF), self.read(locations::IE))
            is Some {
            INTERRUPT_SERVICE_CYCLES as u32
        } else {
            0
        }
    }

    /// The state after a slice of `delta` T-cycles with the T-cycles spent servicing
    /// an interrupt, or the error that aborted the slice.
    pub open spec fn tick_outcome(self, delta: u64) -> Result<(MachineState, u32), CpuError> {
        match self.instruction_phase(delta) {
            Err(e) => Err(e),
            Ok(s) => {
                let t = s.advance_div(delta).advance_timer(delta);
                Ok((t.service_interrupts(), t.service_cycles()))
            },
        }
    }
}

/// An executed instruction takes between 4 and 24 T-cycles.
pub proof fn lemma_cpu_step_cycles(s: MachineState)
    ensures
        s.cpu_step() is Ok ==> 4 <= s.cpu_step()->Ok_0.1 <= 24,
{
    reveal(MachineState::cpu_step);
    let pc = s.regs.pc.value;
    let opcode = s.read(pc);
    let s1 = s.with_pc(next_addr(pc));
    if let Ok(i) = s1.decoded(opcode) {
        let s2 = s1.with_pc(advance(next_addr(pc), spec_immediate_len(opcode)));
        crate::instructions::execute::lemma_cycles_documented(s2, i);
    }
}

/// Executing an instruction never changes the ROM.
pub proof fn lemma_step_keeps_rom(s: MachineState, i: Instruction)
    ensures
        s.step(i).rom == s.rom,
{
    broadcast use crate::memory::lemma_write_keeps_rom;

    reveal(MachineState::step);
}

/// Running instructions never changes the ROM.
pub proof fn lemma_run_keeps_rom(s: MachineState, budget: int)
    ensures
        s.run(budget) is Ok ==> s.run(budget)->Ok_0.0.rom == s.rom,
    decreases budget,
{
    reveal(MachineState::cpu_step);
    if budget > 0 {
        let pc = s.regs.pc.value;
        let opcode = s.read(pc);
        let s1 = s.with_pc(next_addr(pc));
        if let Ok(i) = s1.decoded(opcode) {
            let s2 = s1.with_pc(advance(next_addr(pc), spec_immediate_len(opcode)));
            lemma_step_keeps_rom(s2, i);
        }
        if let Ok((s3, c)) = s.cpu_step() {
            lemma_cpu_step_cycles(s);
            if c < budget {
                lemma_run_keeps_rom(s3, budget - c);
            }
        }
    }
}

/// Timer increments never change the ROM.
pub proof fn lemma_timer_ticks_keep_rom(s: MachineState, n: nat)
    ensures
        s.timer_ticks(n).rom == s.rom,
    decreases n,
{
    broadcast use crate::memory::lemma_write_keeps_rom;

    if n > 0 {
        lemma_timer_ticks_keep_rom(s.timer_tick(), (n - 1) as nat);
    }
}

/// A whole slice never changes the ROM: the ROM stays as the cartridge was loaded.
pub proof fn lemma_tick_keeps_rom(s: MachineState, delta: u64)
    ensures
        s.tick_outcome(delta) is Ok ==> s.tick_outcome(delta)->Ok_0.0.rom == s.rom,
{
    broadcast use crate::memory::lemma_write_keeps_rom;

    lemma_run_keeps_rom(s, delta as int);
    if let Ok(s1) = s.instruction_phase(delta) {
        let s2 = s1.advance_div(delta);
        let tac = s2.read(locations::TAC);
        if bit_set(tac, 2) {
            let period = spec_timer_period(tac) as int;
            let total = s2.timer_cycles + delta;
            lemma_timer_ticks_keep_rom(
                MachineState { timer_cycles: (total % period) as u64, ..s2 },
                (total / period) as nat,
            );
        }
    }
}

impl GameBoy {
    /// Fetches, decodes and executes one instruction; returns the T-cycles it took.
    pub fn step_instruction(&mut self) -> (r: Result<u32, CpuError>)
        requires
            old(self)@.wf(),
        ensures
            r is Ok <==> old(self)@.cpu_step() is Ok,
            r is Ok ==> (final(self)@, r->Ok_0) == old(self)@.cpu_step()->Ok_0,
            r is Err ==> r == Err::<u32, CpuError>(old(self)@.cpu_step()->Err_0),
            final(self)@.wf(),
    {
        reveal(MachineState::cpu_step);
        let opcode = self.fetch();
        let instruction = match self.decode(opcode) {
            Ok(i) => i,
            Err(e) => return Err(e),
        };
        self.execute(instruction)
    }

    /// Sets the interrupt's bit in IF, whether or not IME is set.
    pub fn interrupt(&mut self, kind: Interrupt)
        requires
            old(self)@.wf(),
        ensures
            final(self)@ == old(self)@.raise(kind),
            final(self)@.wf(),
    {
        let flags = self.read_u8(locations::IF);
        let w = crate::instructions::execute::bit_weight(kind.bit());
        let v = if (flags / w) % 2 == 1 {
            flags
        } else {
            proof {
                crate::instructions::execute::lemma_bit_bounds(flags, kind.bit());
            }
            flags + w
        };
        self.write_u8(locations::IF, v);
    }

    fn timer_tick(&mut self)
        requires
            old(self)@.wf(),
        ensures
            final(self)@ == old(self)@.timer_tick(),
            final(self)@.wf(),
    {
        let tima = self.read_u8(locations::TIMA);
        if tima == 255 {
            let tma = self.read_u8(locations::TMA);
            self.write_u8(locations::TIMA, tma);
            self.interrupt(Interrupt::TimerOverflow);
        } else {
            self.write_u8(locations::TIMA, tima + 1);
        }
    }

    fn run_instructions(&mut self, delta: u64) -> (r: Result<(), CpuError>)
        requires
            old(self)@.wf(),
        ensures
            r is Ok <==> old(self)@.instruction_phase(delta) is Ok,
            r is Ok ==> final(self)@ == old(self)@.instruction_phase(delta)->Ok_0,
            r is Err ==> r == Err::<(), CpuError>(old(self)@.instruction_phase(delta)->Err_0),
            final(self)@.wf(),
    {
        let target = delta;
        let ghost s0 = self@;
        let mut spent: u128 = 0;
        while spent < target as u128
            invariant
                self@.wf(),
                s0 == old(self)@,
                target == delta,
                spent < target + 24,
                match self@.run(target - spent) {
                    Err(e) => s0.run(target as int) == Err::<(MachineState, int), CpuError>(e),
                    Ok((sf, sp)) => s0.run(target as int) == Ok::<(MachineState, int), CpuError>(
                        (sf, sp + spent),
                    ),
                },
            decreases target + 24 - spent,
        {
            let ghost cur = self@;
            let ghost budget = target - spent;
            proof {
                lemma_cpu_step_cycles(cur);
            }
            let c = match self.step_instruction() {
                Ok(c) => c,
                Err(e) => {
                    proof {
                        assert(cur.run(budget) == Err::<(MachineState, int), CpuError>(e));
                        assert(s0.run(target as int) == Err::<(MachineState, int), CpuError>(e));
                        assert(old(self)@.instruction_phase(delta) == Err::<MachineState, CpuError>(e));
                    }
                    return Err(e);
                },
            };
            proof {
                assert(cur.cpu_step() == Ok::<(MachineState, u32), CpuError>((self@, c)));
                assert(c >= 4);
                if c < budget {
                    assert(cur.run(budget) == match self@.run(budget - c) {
                        Err(e) => Err(e),
                        Ok((s3, sp)) => Ok::<(MachineState, int), CpuError>((s3, sp + c)),
                    });
                } else {
                    assert(cur.run(budget) == Ok::<(MachineState, int), CpuError>((self@, c as int)));
                    assert(self@.run(budget - c) == Ok::<(MachineState, int), CpuError>((self@, 0)));
                }
            }
            spent = spent + c as u128;
        }
        proof {
            assert(self@.run(target - spent) == Ok::<(MachineState, int), CpuError>((self@, 0)));
        }
        Ok(())
    }

    /// Advances the machine by `delta` T-cycles (4194304 per second): runs
    /// instructions until their total reaches `delta`, advances DIV and TIMA over
    /// the slice, then services one pending interrupt if IME is set. Returns the
    /// T-cycles of that service (20, or 0 when none was serviced).
    ///
    /// An instruction error aborts the slice and is returned.
    pub fn tick(&mut self, delta: u64) -> (r: Result<u32, CpuError>)
        requires
            old(self)@.wf(),
        ensures
            r is Ok <==> old(self)@.tick_outcome(delta) is Ok,
            r is Ok ==> (final(self)@, r->Ok_0) == old(self)@.tick_outcome(delta)->Ok_0,
            r is Err ==> r == Err::<u32, CpuError>(old(self)@.tick_outcome(delta)->Err_0),
            final(self)@.wf(),
    {
        match self.run_instructions(delta) {
            Ok(()) => {},
            Err(e) => return Err(e),
        }
        let ghost s1 = self@;
        // Divider
        let total = self.div_cycles as u128 + delta as u128;
        let ticks = total / DIV_PERIOD as u128;
        let div = self.memory[locations::DIV as usize];
        self.memory[locations::DIV as usize] = ((div as u128 + ticks) % 256) as u8;
        self.div_cycles = (total % DIV_PERIOD as u128) as u64;
        proof {
            assert(self@ =~= s1.advance_div(delta));
        }
        // Timer
        let tac = self.read_u8(locations::TAC);
        let w = crate::instructions::execute::bit_weight(2);
        if (tac / w) % 2 == 1 {
            let period = timer_period(tac);
            let total = self.timer_cycles as u128 + delta as u128;
            let n = total / period as u128;
            self.timer_cycles = (total % period as u128) as u64;
            let ghost s2 = self@;
            let mut i: u128 = 0;
            while i < n
                invariant
                    i <= n,
                    self@.wf(),
                    self@.timer_ticks((n - i) as nat) == s2.timer_ticks(n as nat),
                decreases n - i,
            {
                self.timer_tick();
                i = i + 1;
            }
        }
        // Interrupts
        if self.registers.ime {
            let flags = self.read_u8(locations::IF);
            let enable = self.read_u8(locations::IE);
            let mut b: u8 = 0;
            let mut found = false;
            while b < 5 && !found
                invariant
                    b <= 5,
                    found ==> b < 5 && lowest_pending(flags, enable) == Some(b),
                    !found ==> forall|k: u8| k < b ==> !(bit_set(flags, k) && bit_set(enable, k)),
                decreases 5 - b + (if found { 0int } else { 1 }),
            {
                let w = crate::instructions::execute::bit_weight(b);
                if (flags / w) % 2 == 1 && (enable / w) % 2 == 1 {
                    found = true;
                } else {
                    b = b + 1;
                }
            }
            if found {
                let pc = self.registers.pc.value;
                self.registers.ime = false;
                let w = crate::instructions::execute::bit_weight(b);
                proof {
                    crate::instructions::execute::lemma_bit_bounds(flags, b);
                }
                self.write_u8(locations::IF, flags - w);
                self.push(pc);
                self.registers.pc.value = 0x40 + 8 * b as u16;
                return Ok(INTERRUPT_SERVICE_CYCLES as u32);
            }
        }
        Ok(0)
    }
}

} // verus!
