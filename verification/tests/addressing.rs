//! The addressing modes resolved through memory: indexed, indirect, and
//! the zero-page wrap.
use nes_emu::bus::Bus;
use nes_emu::cpu::{Cpu, RunExit};

fn bus_with_program(program: &[u8]) -> Bus {
    let mut bus = Bus::new();
    bus.load(program, 0x8000);
    bus.mem_write_u16(0xFFFC, 0x8000);
    bus
}

#[test]
fn lda_absolute_x_adds_the_index() {
    // LDX #5 ; LDA $1000,X ; STA $10 ; BRK
    let program: Vec<u8> = vec![0xA2, 0x05, 0xBD, 0x00, 0x10, 0x85, 0x10, 0x00];
    let mut bus = bus_with_program(&program);
    bus.mem_write_u8(0x1005, 77);
    let mut cpu = Cpu::new();
    cpu.run(&mut bus);
    assert_eq!(77, bus.mem_read_u8(0x0010));
}

#[test]
fn lda_absolute_y_adds_the_index() {
    // LDY #3 ; LDA $1000,Y ; STA $10 ; BRK
    let program: Vec<u8> = vec![0xA0, 0x03, 0xB9, 0x00, 0x10, 0x85, 0x10, 0x00];
    let mut bus = bus_with_program(&program);
    bus.mem_write_u8(0x1003, 21);
    let mut cpu = Cpu::new();
    cpu.run(&mut bus);
    assert_eq!(21, bus.mem_read_u8(0x0010));
}

#[test]
fn lda_indirect_x_reads_through_the_zero_page_pointer() {
    // LDX #4 ; LDA ($20,X) ; STA $10 ; BRK -- pointer at $24 names $3000
    let program: Vec<u8> = vec![0xA2, 0x04, 0xA1, 0x20, 0x85, 0x10, 0x00];
    let mut bus = bus_with_program(&program);
    bus.mem_write_u8(0x0024, 0x00);
    bus.mem_write_u8(0x0025, 0x30);
    bus.mem_write_u8(0x3000, 55);
    let mut cpu = Cpu::new();
    cpu.run(&mut bus);
    assert_eq!(55, bus.mem_read_u8(0x0010));
}

#[test]
fn lda_indirect_y_adds_the_index_after_the_pointer() {
    // LDY #1 ; LDA ($20),Y ; STA $10 ; BRK -- pointer at $20 names $3000
    let program: Vec<u8> = vec![0xA0, 0x01, 0xB1, 0x20, 0x85, 0x10, 0x00];
    let mut bus = bus_with_program(&program);
    bus.mem_write_u8(0x0020, 0x00);
    bus.mem_write_u8(0x0021, 0x30);
    bus.mem_write_u8(0x3001, 66);
    let mut cpu = Cpu::new();
    cpu.run(&mut bus);
    assert_eq!(66, bus.mem_read_u8(0x0010));
}

#[test]
fn jmp_indirect_follows_the_pointer() {
    // JMP ($3000) -- the pointer names 0x8005: LDA #42 ; STA $10 ; BRK
    let program: Vec<u8> = vec![0x6C, 0x00, 0x30, 0x00, 0x00, 0xA9, 42, 0x85, 0x10, 0x00];
    let mut bus = bus_with_program(&program);
    bus.mem_write_u8(0x3000, 0x05);
    bus.mem_write_u8(0x3001, 0x80);
    let mut cpu = Cpu::new();
    cpu.run(&mut bus);
    assert_eq!(42, bus.mem_read_u8(0x0010));
}

#[test]
fn sta_zero_page_x_adds_the_index() {
    // LDA #9 ; LDX #3 ; STA $20,X ; BRK
    let program: Vec<u8> = vec![0xA9, 0x09, 0xA2, 0x03, 0x95, 0x20, 0x00];
    let mut bus = bus_with_program(&program);
    let mut cpu = Cpu::new();
    cpu.run(&mut bus);
    assert_eq!(9, bus.mem_read_u8(0x0023));
}

#[test]
fn ldx_zero_page_y_adds_the_index() {
    // LDY #2 ; LDX $20,Y ; STX $40 ; BRK
    let program: Vec<u8> = vec![0xA0, 0x02, 0xB6, 0x20, 0x86, 0x40, 0x00];
    let mut bus = bus_with_program(&program);
    bus.mem_write_u8(0x0022, 8);
    let mut cpu = Cpu::new();
    cpu.run(&mut bus);
    assert_eq!(8, bus.mem_read_u8(0x0040));
}

#[test]
fn zero_page_indexing_wraps_within_the_page() {
    // LDX #$FF ; LDA $80,X ; STA $10 ; BRK -- 0x80 + 0xFF wraps to 0x7F
    let program: Vec<u8> = vec![0xA2, 0xFF, 0xB5, 0x80, 0x85, 0x10, 0x00];
    let mut bus = bus_with_program(&program);
    bus.mem_write_u8(0x007F, 0x11);
    let mut cpu = Cpu::new();
    cpu.run(&mut bus);
    assert_eq!(0x11, bus.mem_read_u8(0x0010));
}

#[test]
fn a_program_that_never_breaks_runs_out_of_steps() {
    // loop: JMP loop
    let program: Vec<u8> = vec![0x4C, 0x00, 0x80];
    let mut bus = bus_with_program(&program);
    let mut cpu = Cpu::new();
    let exit = cpu.run(&mut bus);
    assert_eq!(exit, RunExit::OutOfSteps);
}
