//! A small NES-style machine: a MOS 6502 interpreter, a memory bus with
//! hardware address mirroring, and the memory-mapped peripherals of the
//! console (two controllers, a random-number register, a pixel framebuffer).
//!
//! The bus owns the backing memory; peripherals are fixed fields of the bus
//! and are reached by address dispatch rather than through shared pointers.
use vstd::prelude::*;

pub mod bus;
pub mod cpu;
pub mod instruction;
pub mod joypad;
pub mod random_gen;
pub mod screen;

use bus::{Bus, BusModel};
use cpu::{Cpu, MachineModel, RunExit, PROGRAM_POINTER};
use joypad::button::Button;
use joypad::Joypad;
use screen::Screen;

verus! {

/// Selects one of the two controller ports.
#[derive(Clone, Copy, PartialEq, Eq, Structural, Debug)]
pub enum Player {
    One,
    Two,
}

/// The whole console: the CPU, the bus with its devices, and the
/// framebuffer view over the bus memory.
pub struct Nes {
    pub cpu: Cpu,
    pub bus: Bus,
    pub screen: Screen,
}

impl Nes {
    /// A console as wired: well-formed memory and the random register at
    /// its hardware address.
    pub open spec fn wf(self) -> bool {
        &&& self.bus@.wf()
        &&& self.bus@.rng_addr == bus::RANDOM_ADDRESS
    }

    /// The controller port of `player` in the bus model `b`.
    pub open spec fn spec_pad_of(b: BusModel, player: Player) -> Joypad {
        match player {
            Player::One => b.pad1,
            Player::Two => b.pad2,
        }
    }

    /// A freshly wired console: zeroed memory, cleared registers, released
    /// buttons.
    pub fn new() -> (nes: Nes)
        ensures
            nes.wf(),
            nes.bus@.mem == Seq::new(bus::MEMORY_SIZE as nat, |i: int| 0u8),
            nes.bus@.pad1 == (Joypad {
                strobe_mode_on: false,
                button_reporter: joypad::button::spec_state_new(),
            }),
            nes.bus@.pad2 == (Joypad {
                strobe_mode_on: false,
                button_reporter: joypad::button::spec_state_new(),
            }),
            nes.cpu.registers.a == 0,
            nes.cpu.registers.x == 0,
            nes.cpu.registers.y == 0,
            nes.cpu.registers.program_counter == 0,
            nes.cpu.registers.stack_pointer == cpu::STACK_TOP,
            nes.cpu.registers.status_flags.bits == cpu::registers::INITIAL_STATE,
    {
        Nes { cpu: Cpu::new(), bus: Bus::new(), screen: Screen::default() }
    }

    /// Copies a program into memory at `dest` and records `dest` in the
    /// reset vector, so the next run starts there.
    pub fn load(&mut self, data: &[u8], dest: u16)
        requires
            old(self).wf(),
            dest as int + data@.len() <= bus::MEMORY_SIZE,
        ensures
            final(self).wf(),
            final(self).cpu == old(self).cpu,
            final(self).bus@.mem.len() == bus::MEMORY_SIZE,
            final(self).bus@.mem[PROGRAM_POINTER as int] == dest % 0x100,
            final(self).bus@.mem[PROGRAM_POINTER + 1] == dest / 0x100,
            forall|i: int|
                0 <= i < data@.len() && dest + i != PROGRAM_POINTER && dest + i != PROGRAM_POINTER
                    + 1 ==> final(self).bus@.mem[dest + i] == data@[i],
            forall|i: int|
                0 <= i < bus::MEMORY_SIZE && !(dest <= i < dest + data@.len()) && i
                    != PROGRAM_POINTER && i != PROGRAM_POINTER + 1 ==> final(self).bus@.mem[i]
                    == old(self).bus@.mem[i],
            final(self).bus@.pad1 == old(self).bus@.pad1,
            final(self).bus@.pad2 == old(self).bus@.pad2,
    {
        self.bus.load(data, dest);
        self.bus.mem_write_u16(PROGRAM_POINTER, dest);
    }

    /// Runs the CPU from the reset vector until its terminal BRK, an
    /// unsupported opcode byte, or the step budget of one call.
    pub fn run(&mut self) -> (exit: RunExit)
        requires
            old(self).wf(),
        ensures
            final(self).wf(),
            exit != RunExit::OutOfSteps ==> exists|
                n: nat,
                last: MachineModel,
                rnd1: u8,
                rnd2: u8,
                rnd3: u8,
            |
                cpu::spec_steps(
                    cpu::spec_reset(old(self).cpu.registers, old(self).bus@),
                    last,
                    n,
                ) && bus::spec_rnd_any(last.bus, rnd1) && bus::spec_rnd_any(last.bus, rnd2)
                    && bus::spec_rnd_any(last.bus, rnd3) && cpu::spec_step(last, rnd1, rnd2, rnd3)
                    == (
                    MachineModel { regs: final(self).cpu.registers, bus: final(self).bus@ },
                    cpu::spec_exit_outcome(exit),
                ),
            exit == RunExit::OutOfSteps ==> cpu::spec_steps(
                cpu::spec_reset(old(self).cpu.registers, old(self).bus@),
                MachineModel { regs: final(self).cpu.registers, bus: final(self).bus@ },
                cpu::RUN_STEP_LIMIT as nat,
            ),
    {
        self.cpu.run(&mut self.bus)
    }

    /// Marks `button` as held down on `player`'s controller.
    pub fn press(&mut self, player: Player, button: Button)
        ensures
            final(self).wf() == old(self).wf(),
            final(self).cpu == old(self).cpu,
            final(self).bus@.mem == old(self).bus@.mem,
            Self::spec_pad_of(final(self).bus@, player) == (Joypad {
                strobe_mode_on: Self::spec_pad_of(old(self).bus@, player).strobe_mode_on,
                button_reporter: joypad::button::spec_state_press(
                    Self::spec_pad_of(old(self).bus@, player).button_reporter,
                    button,
                ),
            }),
            Self::spec_pad_of(final(self).bus@, Self::spec_other(player)) == Self::spec_pad_of(
                old(self).bus@,
                Self::spec_other(player),
            ),
    {
        match player {
            Player::One => self.bus.joypad_1.press(button),
            Player::Two => self.bus.joypad_2.press(button),
        }
    }

    /// Marks `button` as released on `player`'s controller.
    pub fn release(&mut self, player: Player, button: Button)
        ensures
            final(self).wf() == old(self).wf(),
            final(self).cpu == old(self).cpu,
            final(self).bus@.mem == old(self).bus@.mem,
            Self::spec_pad_of(final(self).bus@, player) == (Joypad {
                strobe_mode_on: Self::spec_pad_of(old(self).bus@, player).strobe_mode_on,
                button_reporter: joypad::button::spec_state_release(
                    Self::spec_pad_of(old(self).bus@, player).button_reporter,
                    button,
                ),
            }),
            Self::spec_pad_of(final(self).bus@, Self::spec_other(player)) == Self::spec_pad_of(
                old(self).bus@,
                Self::spec_other(player),
            ),
    {
        match player {
            Player::One => self.bus.joypad_1.release(button),
            Player::Two => self.bus.joypad_2.release(button),
        }
    }

    /// The other controller port.
    pub open spec fn spec_other(player: Player) -> Player {
        match player {
            Player::One => Player::Two,
            Player::Two => Player::One,
        }
    }

    /// The framebuffer rows for the host to render.
    pub fn get_screen_data(&self) -> (data: Vec<Vec<u8>>)
        requires
            self.wf(),
        ensures
            data@.len() == screen::NUMBER_OF_PIXELS_PER_LINE,
            forall|row: int|
                0 <= row < screen::NUMBER_OF_PIXELS_PER_LINE ==> (#[trigger] data@[row])@.len()
                    == screen::NUMBER_OF_PIXELS_PER_LINE,
            forall|row: int, col: int|
                0 <= row < screen::NUMBER_OF_PIXELS_PER_LINE && 0 <= col
                    < screen::NUMBER_OF_PIXELS_PER_LINE ==> (#[trigger] data@[row]@[col])
                    == self.bus@.mem[screen::SCREEN_MEMORY_START + row * 32 + col],
    {
        self.screen.get_screen_data(&self.bus)
    }

    /// The controller of `player`, for the host to drive directly.
    pub fn player_joypad(&mut self, player: Player) -> (pad: &mut Joypad)
        ensures
            *pad == Self::spec_pad_of(old(self).bus@, player),
            final(self).cpu == old(self).cpu,
            final(self).bus@.mem == old(self).bus@.mem,
            Self::spec_pad_of(final(self).bus@, player) == *final(pad),
            Self::spec_pad_of(final(self).bus@, Self::spec_other(player)) == Self::spec_pad_of(
                old(self).bus@,
                Self::spec_other(player),
            ),
            final(self).bus@.rng_addr == old(self).bus@.rng_addr,
            final(self).bus@.rng_low == old(self).bus@.rng_low,
            final(self).bus@.rng_high == old(self).bus@.rng_high,
    {
        match player {
            Player::One => &mut self.bus.joypad_1,
            Player::Two => &mut self.bus.joypad_2,
        }
    }
}

} // verus!
