//! The memory bus: a flat 64 KiB byte array, hardware address mirroring,
//! and dispatch to the memory-mapped peripherals.
//!
//! The bus owns the backing memory and the devices. On a read the device at
//! the effective address first places its response byte into memory and the
//! bus returns the byte then present; on a write the byte is stored first
//! and the device then reacts to it. The random register is the one device
//! that transforms a stored byte: a write leaves a fresh sample behind.
use vstd::prelude::*;

use crate::joypad;
use crate::joypad::Joypad;
use crate::random_gen::RandomGenerator;

verus! {

pub const RAM_MIRRORING_MASK: u16 = 0b0000_0111_1111_1111;
pub const PPU_REGISTERS_MIRRORING_MASK: u16 = 0b0010_0000_0000_0111;

/// The size of the backing memory: the full 16-bit address space.
pub const MEMORY_SIZE: usize = 0x10000;

pub const JOYPAD_1_ADDRESS: u16 = 0x4016;
pub const JOYPAD_2_ADDRESS: u16 = 0x4017;
pub const RANDOM_ADDRESS: u16 = 0x4018;
pub const RANDOM_LOW: u8 = 1;
pub const RANDOM_HIGH: u8 = 16;

/// The mathematical state of the bus: the bytes of memory, the two
/// controller ports, and the configuration of the random register.
#[verifier::ext_equal]
pub struct BusModel {
    pub mem: Seq<u8>,
    pub pad1: Joypad,
    pub pad2: Joypad,
    pub rng_addr: u16,
    pub rng_low: u8,
    pub rng_high: u8,
}

impl BusModel {
    /// A well-formed bus: full-size memory and a nonempty sample range.
    pub open spec fn wf(self) -> bool {
        &&& self.mem.len() == MEMORY_SIZE
        &&& self.rng_low < self.rng_high
    }
}

/// The effective address of an access: the 2 KiB RAM and the PPU register
/// window are mirrored, everything else passes through unchanged.
pub open spec fn spec_mirror_address(addr: u16) -> u16 {
    if addr <= 0x1FFF {
        addr & RAM_MIRRORING_MASK
    } else if addr <= 0x3FFF {
        addr & PPU_REGISTERS_MIRRORING_MASK
    } else {
        addr
    }
}

/// Applies the hardware mirroring map to an address.
pub fn mirror_address(addr: u16) -> (r: u16)
    ensures
        r == spec_mirror_address(addr),
{
    if addr <= 0x1FFF {
        addr & RAM_MIRRORING_MASK
    } else if addr <= 0x3FFF {
        addr & PPU_REGISTERS_MIRRORING_MASK
    } else {
        addr
    }
}

/// One byte read: the state after the access and the byte it returns. A
/// controller port places its report into memory and advances; every other
/// address returns the byte already present.
pub open spec fn spec_read8(b: BusModel, addr: u16) -> (BusModel, u8) {
    let eff = spec_mirror_address(addr);
    if eff == JOYPAD_1_ADDRESS {
        let report = joypad::spec_joypad_report(b.pad1);
        (
            BusModel {
                mem: b.mem.update(eff as int, report),
                pad1: joypad::spec_joypad_after_read(b.pad1),
                ..b
            },
            report,
        )
    } else if eff == JOYPAD_2_ADDRESS {
        let report = joypad::spec_joypad_report(b.pad2);
        (
            BusModel {
                mem: b.mem.update(eff as int, report),
                pad2: joypad::spec_joypad_after_read(b.pad2),
                ..b
            },
            report,
        )
    } else {
        (b, b.mem[eff as int])
    }
}

/// True when a write to `addr` lands on the random register, whose stored
/// byte is a fresh sample rather than the written one.
pub open spec fn spec_writes_random(b: BusModel, addr: u16) -> bool {
    let eff = spec_mirror_address(addr);
    eff != JOYPAD_1_ADDRESS && eff != JOYPAD_2_ADDRESS && eff == b.rng_addr
}

/// One byte write: the byte is stored at the effective address, a
/// controller port reacts to its strobe bit, and the random register
/// replaces the stored byte with the sample `rnd`.
pub open spec fn spec_write8(b: BusModel, addr: u16, data: u8, rnd: u8) -> BusModel {
    let eff = spec_mirror_address(addr);
    if eff == JOYPAD_1_ADDRESS {
        BusModel {
            mem: b.mem.update(eff as int, data),
            pad1: joypad::spec_joypad_after_write(b.pad1, data),
            ..b
        }
    } else if eff == JOYPAD_2_ADDRESS {
        BusModel {
            mem: b.mem.update(eff as int, data),
            pad2: joypad::spec_joypad_after_write(b.pad2, data),
            ..b
        }
    } else if eff == b.rng_addr {
        BusModel { mem: b.mem.update(eff as int, rnd), ..b }
    } else {
        BusModel { mem: b.mem.update(eff as int, data), ..b }
    }
}

/// A sampled byte as the write contracts speak of it: zero when no sample
/// was drawn, otherwise a value of the random register's range.
pub open spec fn spec_rnd_any(b: BusModel, rnd: u8) -> bool {
    rnd == 0 || b.rng_low <= rnd < b.rng_high
}

/// The exact sample discipline of one write: a write that lands on the
/// random register stores a byte of the register's range, every other
/// write stores the written byte, for which the zero sample stands.
pub open spec fn spec_rnd_for(b: BusModel, addr: u16, rnd: u8) -> bool {
    if spec_writes_random(b, addr) {
        b.rng_low <= rnd < b.rng_high
    } else {
        rnd == 0
    }
}

/// The successor address, wrapping at the top of the address space.
pub open spec fn spec_wrap_inc(addr: u16) -> u16 {
    if addr == 0xFFFF {
        0
    } else {
        (addr + 1) as u16
    }
}

/// A little-endian two-byte read built from two single-byte reads.
pub open spec fn spec_read16(b: BusModel, addr: u16) -> (BusModel, u16) {
    let (b1, lo) = spec_read8(b, addr);
    let (b2, hi) = spec_read8(b1, spec_wrap_inc(addr));
    (b2, (hi as u16 * 0x100 + lo as u16) as u16)
}

/// A little-endian two-byte write built from two single-byte writes.
pub open spec fn spec_write16(b: BusModel, addr: u16, word: u16, rnd1: u8, rnd2: u8) -> BusModel {
    let b1 = spec_write8(b, addr, (word % 0x100) as u8, rnd1);
    spec_write8(b1, spec_wrap_inc(addr), (word / 0x100) as u8, rnd2)
}

/// RAM mirroring: for every address in `0x0000..=0x1FFF` and every bus
/// state — so after any sequence of prior writes — a read there and a read
/// at the address masked into the 2 KiB window return the same byte and
/// leave the bus in the same state.
pub proof fn lemma_ram_mirror_read(b: BusModel, addr: u16)
    requires
        addr <= 0x1FFF,
    ensures
        spec_read8(b, addr) == spec_read8(b, (addr & 0x07FF) as u16),
{
    assert(spec_mirror_address(addr) == spec_mirror_address((addr & 0x07FF) as u16))
        by (bit_vector)
        requires
            addr <= 0x1FFF,
    ;
}

/// PPU register mirroring: for every address in `0x2000..=0x3FFF` and
/// every bus state, a read there and a read at the address masked into the
/// eight-byte register window agree.
pub proof fn lemma_ppu_mirror_read(b: BusModel, addr: u16)
    requires
        0x2000 <= addr <= 0x3FFF,
    ensures
        spec_read8(b, addr) == spec_read8(b, (addr & 0x2007) as u16),
{
    assert(spec_mirror_address(addr) == spec_mirror_address((addr & 0x2007) as u16))
        by (bit_vector)
        requires
            0x2000 <= addr <= 0x3FFF,
    ;
}

/// The bus: the backing memory and the peripherals mapped into it.
pub struct Bus {
    pub memory: Vec<u8>,
    pub joypad_1: Joypad,
    pub joypad_2: Joypad,
    pub color_generator: RandomGenerator,
}

impl View for Bus {
    type V = BusModel;

    open spec fn view(&self) -> BusModel {
        BusModel {
            mem: self.memory@,
            pad1: self.joypad_1,
            pad2: self.joypad_2,
            rng_addr: self.color_generator.address,
            rng_low: self.color_generator.range.start,
            rng_high: self.color_generator.range.end,
        }
    }
}

impl Bus {
    /// A bus with zeroed memory and the console's devices wired at their
    /// hardware addresses.
    pub fn new() -> (bus: Bus)
        ensures
            bus@.wf(),
            bus@.mem == Seq::new(MEMORY_SIZE as nat, |i: int| 0u8),
            bus@.pad1 == (Joypad { strobe_mode_on: false, button_reporter: joypad::button::spec_state_new() }),
            bus@.pad2 == (Joypad { strobe_mode_on: false, button_reporter: joypad::button::spec_state_new() }),
            bus@.rng_addr == RANDOM_ADDRESS,
            bus@.rng_low == RANDOM_LOW,
            bus@.rng_high == RANDOM_HIGH,
    {
        let bus = Bus {
            memory: vec![0u8; MEMORY_SIZE],
            joypad_1: Joypad::new(),
            joypad_2: Joypad::new(),
            color_generator: RandomGenerator::new(RANDOM_ADDRESS, RANDOM_LOW..RANDOM_HIGH),
        };
        proof {
            assert(bus@.mem =~= Seq::new(MEMORY_SIZE as nat, |i: int| 0u8));
        }
        bus
    }

    /// Reads one byte: mirrors the address, lets the device there prepare
    /// the byte, and returns the byte then present.
    pub fn mem_read_u8(&mut self, addr: u16) -> (r: u8)
        requires
            old(self)@.wf(),
        ensures
            final(self)@.wf(),
            final(self)@.rng_addr == old(self)@.rng_addr,
            final(self)@.rng_low == old(self)@.rng_low,
            final(self)@.rng_high == old(self)@.rng_high,
            (final(self)@, r) == spec_read8(old(self)@, addr),
    {
        let eff = mirror_address(addr);
        if eff == JOYPAD_1_ADDRESS {
            let mut byte: u8 = 0;
            self.joypad_1.read(&mut byte);
            self.memory[eff as usize] = byte;
            byte
        } else if eff == JOYPAD_2_ADDRESS {
            let mut byte: u8 = 0;
            self.joypad_2.read(&mut byte);
            self.memory[eff as usize] = byte;
            byte
        } else {
            self.memory[eff as usize]
        }
    }

    /// Writes one byte: mirrors the address, stores the byte, and lets the
    /// device there react to it.
    pub fn mem_write_u8(&mut self, addr: u16, data: u8)
        requires
            old(self)@.wf(),
        ensures
            final(self)@.wf(),
            final(self)@.rng_addr == old(self)@.rng_addr,
            final(self)@.rng_low == old(self)@.rng_low,
            final(self)@.rng_high == old(self)@.rng_high,
            !spec_writes_random(old(self)@, addr) ==> final(self)@ == spec_write8(
                old(self)@,
                addr,
                data,
                0,
            ),
            exists|rnd: u8|
                spec_rnd_any(old(self)@, rnd) && final(self)@ == spec_write8(
                    old(self)@,
                    addr,
                    data,
                    rnd,
                ),
            exists|rnd: u8|
                spec_rnd_for(old(self)@, addr, rnd) && final(self)@ == spec_write8(
                    old(self)@,
                    addr,
                    data,
                    rnd,
                ),
            spec_writes_random(old(self)@, addr) ==> old(self)@.rng_low <= final(self)@.mem[
                spec_mirror_address(addr) as int] < old(self)@.rng_high,
    {
        let eff = mirror_address(addr);
        self.memory[eff as usize] = data;
        if eff == JOYPAD_1_ADDRESS {
            self.joypad_1.write(&data);
        } else if eff == JOYPAD_2_ADDRESS {
            self.joypad_2.write(&data);
        } else if eff == self.color_generator.address {
            let fresh = self.color_generator.generate();
            self.memory[eff as usize] = fresh;
            proof {
                assert(spec_rnd_any(old(self)@, fresh) && spec_rnd_for(old(self)@, addr, fresh)
                    && final(self)@ == spec_write8(old(self)@, addr, data, fresh));
            }
        }
        proof {
            if !spec_writes_random(old(self)@, addr) {
                assert(spec_rnd_any(old(self)@, 0u8) && spec_rnd_for(old(self)@, addr, 0u8)
                    && final(self)@ == spec_write8(old(self)@, addr, data, 0u8));
            }
        }
    }

    /// Reads a little-endian word from `addr` and the following address.
    pub fn mem_read_u16(&mut self, addr: u16) -> (r: u16)
        requires
            old(self)@.wf(),
        ensures
            final(self)@.wf(),
            final(self)@.rng_addr == old(self)@.rng_addr,
            final(self)@.rng_low == old(self)@.rng_low,
            final(self)@.rng_high == old(self)@.rng_high,
            (final(self)@, r) == spec_read16(old(self)@, addr),
    {
        let lo = self.mem_read_u8(addr);
        let next = if addr == 0xFFFF {
            0
        } else {
            addr + 1
        };
        let hi = self.mem_read_u8(next);
        hi as u16 * 0x100 + lo as u16
    }

    /// Writes a little-endian word to `addr` and the following address.
    pub fn mem_write_u16(&mut self, addr: u16, word: u16)
        requires
            old(self)@.wf(),
        ensures
            final(self)@.wf(),
            final(self)@.rng_addr == old(self)@.rng_addr,
            final(self)@.rng_low == old(self)@.rng_low,
            final(self)@.rng_high == old(self)@.rng_high,
            exists|rnd1: u8, rnd2: u8|
                spec_rnd_any(old(self)@, rnd1) && spec_rnd_any(old(self)@, rnd2) && final(self)@
                    == spec_write16(old(self)@, addr, word, rnd1, rnd2),
            exists|rnd1: u8, rnd2: u8|
                spec_rnd_for(old(self)@, addr, rnd1) && spec_rnd_for(
                    old(self)@,
                    spec_wrap_inc(addr),
                    rnd2,
                ) && final(self)@ == spec_write16(old(self)@, addr, word, rnd1, rnd2),
            !spec_writes_random(old(self)@, addr) && !spec_writes_random(
                old(self)@,
                spec_wrap_inc(addr),
            ) ==> final(self)@ == spec_write16(old(self)@, addr, word, 0, 0),
    {
        let lo = (word % 0x100) as u8;
        let hi = (word / 0x100) as u8;
        let ghost b0 = self@;
        self.mem_write_u8(addr, lo);
        let ghost mid = self@;
        let next = if addr == 0xFFFF {
            0
        } else {
            addr + 1
        };
        self.mem_write_u8(next, hi);
        proof {
            let r1 = choose|r: u8| spec_rnd_for(b0, addr, r) && mid == spec_write8(b0, addr, lo, r);
            let r2 = choose|r: u8|
                spec_rnd_for(mid, next, r) && final(self)@ == spec_write8(mid, next, hi, r);
            assert(mid.rng_addr == b0.rng_addr && mid.rng_low == b0.rng_low && mid.rng_high
                == b0.rng_high);
            assert(spec_writes_random(mid, next) == spec_writes_random(b0, next));
            assert(spec_rnd_for(b0, addr, r1) && spec_rnd_for(b0, spec_wrap_inc(addr), r2)
                && spec_rnd_any(b0, r1) && spec_rnd_any(b0, r2) && final(self)@ == spec_write16(
                b0,
                addr,
                word,
                r1,
                r2,
            ));
        }
    }

    /// Copies a program blob directly into backing memory starting at
    /// `dest`, without device dispatch.
    pub fn load(&mut self, data: &[u8], dest: u16)
        requires
            old(self)@.wf(),
            dest as int + data@.len() <= MEMORY_SIZE,
        ensures
            final(self)@.wf(),
            final(self)@.rng_addr == old(self)@.rng_addr,
            final(self)@.rng_low == old(self)@.rng_low,
            final(self)@.rng_high == old(self)@.rng_high,
            final(self)@.mem.len() == old(self)@.mem.len(),
            forall|i: int|
                0 <= i < data@.len() ==> final(self)@.mem[dest + i] == data@[i],
            forall|i: int|
                0 <= i < MEMORY_SIZE && !(dest <= i < dest + data@.len()) ==> final(self)@.mem[i]
                    == old(self)@.mem[i],
            final(self)@.pad1 == old(self)@.pad1,
            final(self)@.pad2 == old(self)@.pad2,
            final(self)@.rng_addr == old(self)@.rng_addr,
            final(self)@.rng_low == old(self)@.rng_low,
            final(self)@.rng_high == old(self)@.rng_high,
    {
        let mut i: usize = 0;
        while i < data.len()
            invariant
                0 <= i <= data@.len(),
                dest as int + data@.len() <= MEMORY_SIZE,
                self@.wf(),
                self@.mem.len() == old(self)@.mem.len(),
                forall|j: int| 0 <= j < i ==> self@.mem[dest + j] == data@[j],
                forall|j: int|
                    0 <= j < MEMORY_SIZE && !(dest <= j < dest + data@.len()) ==> self@.mem[j]
                        == old(self)@.mem[j],
                self@.pad1 == old(self)@.pad1,
                self@.pad2 == old(self)@.pad2,
                self@.rng_addr == old(self)@.rng_addr,
                self@.rng_low == old(self)@.rng_low,
                self@.rng_high == old(self)@.rng_high,
            decreases data@.len() - i,
        {
            self.memory[dest as usize + i] = data[i];
            i = i + 1;
        }
    }
}

} // verus!
