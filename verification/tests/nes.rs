//! The wired console end to end, and the instruction semantics that the
//! program-level tests do not reach directly.
use nes_emu::bus::Bus;
use nes_emu::cpu::registers::{BREAK, CARRY, NEGATIVE, OVERFLOW, ZERO};
use nes_emu::cpu::{Cpu, RunExit, StepOutcome};
use nes_emu::joypad::button::Button;
use nes_emu::screen::Color;
use nes_emu::{Nes, Player};

#[test]
fn nes_runs_a_program() {
    // LDA #10 ; STA $05 ; BRK
    let program: Vec<u8> = vec![0xA9, 10, 0x85, 0x05, 0x00];
    let mut nes = Nes::new();
    nes.load(&program, 0x8000);
    let exit = nes.run();
    assert_eq!(exit, RunExit::Brk);
    assert_eq!(10, nes.bus.mem_read_u8(0x0005));
}

#[test]
fn unknown_opcode_is_reported_with_the_byte() {
    let program: Vec<u8> = vec![0xFF];
    let mut nes = Nes::new();
    nes.load(&program, 0x8000);
    let exit = nes.run();
    assert_eq!(exit, RunExit::UnknownOpcode(0xFF));
}

#[test]
fn jsr_and_rts_round_trip() {
    // main: JSR $EA06 ; STA $10 ; BRK -- the return lands on the operand's
    // high byte 0xEA, which executes as NOP before the STA.
    let main: Vec<u8> = vec![0x20, 0x06, 0xEA, 0x85, 0x10, 0x00];
    // sub: LDA #42 ; STA $11 ; RTS
    let sub: Vec<u8> = vec![0xA9, 42, 0x85, 0x11, 0x60];
    let mut nes = Nes::new();
    nes.load(&sub, 0xEA06);
    nes.load(&main, 0x8000);
    let exit = nes.run();
    assert_eq!(exit, RunExit::Brk);
    assert_eq!(42, nes.bus.mem_read_u8(0x0010));
    assert_eq!(42, nes.bus.mem_read_u8(0x0011));
}

#[test]
fn jsr_pushes_the_address_after_the_opcode() {
    // JSR $8003 ; BRK at the target
    let program: Vec<u8> = vec![0x20, 0x03, 0x80, 0x00];
    let mut nes = Nes::new();
    nes.load(&program, 0x8000);
    let exit = nes.run();
    assert_eq!(exit, RunExit::Brk);
    // the JSR pushed 0x8001, then the BRK pushed 0x8003 and the status
    assert_eq!(0x80, nes.bus.mem_read_u8(0x01FF));
    assert_eq!(0x01, nes.bus.mem_read_u8(0x01FE));
    assert_eq!(0x80, nes.bus.mem_read_u8(0x01FD));
    assert_eq!(0x03, nes.bus.mem_read_u8(0x01FC));
    assert_eq!(0b0011_0100, nes.bus.mem_read_u8(0x01FB));
}

#[test]
fn rti_restores_status_and_program_counter() {
    // LDA #$81 PHA ; LDA #$00 PHA ; LDA #$31 PHA ; RTI -- jumps to 0x8100
    // with status 0x31 & !BREAK == 0x21
    let program: Vec<u8> = vec![0xA9, 0x81, 0x48, 0xA9, 0x00, 0x48, 0xA9, 0x31, 0x48, 0x40];
    // at 0x8100: STA $10 ; BRK
    let target: Vec<u8> = vec![0x85, 0x10, 0x00];
    let mut nes = Nes::new();
    nes.load(&target, 0x8100);
    nes.load(&program, 0x8000);
    let exit = nes.run();
    assert_eq!(exit, RunExit::Brk);
    assert_eq!(0x31, nes.bus.mem_read_u8(0x0010));
    assert_eq!(0x21, nes.cpu.registers.status_flags.bits);
}

#[test]
fn php_sets_and_plp_clears_the_break_bit() {
    // SEC ; PHP ; CLC ; PLP ; BRK
    let program: Vec<u8> = vec![0x38, 0x08, 0x18, 0x28, 0x00];
    let mut nes = Nes::new();
    nes.load(&program, 0x8000);
    let exit = nes.run();
    assert_eq!(exit, RunExit::Brk);
    assert!(nes.cpu.registers.status_flags.is_set(CARRY));
    assert!(nes.cpu.registers.status_flags.is_unset(BREAK));
}

#[test]
fn branch_not_taken_advances_past_the_operand() {
    // BCS skip ; LDA #1 ; STA $10 ; skip: BRK -- carry is clear, so the
    // branch falls through and the two instructions behind it run.
    let program: Vec<u8> = vec![0xB0, 0x04, 0xA9, 0x01, 0x85, 0x10, 0x00];
    let mut nes = Nes::new();
    nes.load(&program, 0x8000);
    let exit = nes.run();
    assert_eq!(exit, RunExit::Brk);
    assert_eq!(1, nes.bus.mem_read_u8(0x0010));
}

#[test]
fn single_steps_run_one_instruction_each() {
    let mut bus = Bus::new();
    bus.load(&[0xA9, 7, 0x00], 0x8000);
    let mut cpu = Cpu::new();
    cpu.registers.program_counter = 0x8000;
    let outcome = cpu.step(&mut bus);
    assert_eq!(outcome, StepOutcome::Ran);
    assert_eq!(7, cpu.registers.a);
    assert_eq!(0x8002, cpu.registers.program_counter);
    let outcome = cpu.step(&mut bus);
    assert_eq!(outcome, StepOutcome::Halted);
}

#[test]
fn adc_sets_zero_and_carry_on_a_wrapped_zero() {
    let mut cpu = Cpu::new();
    cpu.lda(255);
    cpu.adc(1);
    assert_eq!(0, cpu.registers.a);
    assert!(cpu.registers.status_flags.is_set(ZERO));
    assert!(cpu.registers.status_flags.is_set(CARRY));
    assert!(cpu.registers.status_flags.is_unset(NEGATIVE));
}

#[test]
fn adc_sets_negative_from_bit_seven() {
    let mut cpu = Cpu::new();
    cpu.lda(0);
    cpu.adc(0x90);
    assert_eq!(0x90, cpu.registers.a);
    assert!(cpu.registers.status_flags.is_set(NEGATIVE));
    assert!(cpu.registers.status_flags.is_unset(ZERO));
    assert!(cpu.registers.status_flags.is_unset(CARRY));
    assert!(cpu.registers.status_flags.is_unset(OVERFLOW));
}

#[test]
fn adc_signed_overflow_of_two_positives() {
    let mut cpu = Cpu::new();
    cpu.lda(80);
    cpu.adc(80);
    assert_eq!(160, cpu.registers.a);
    assert!(cpu.registers.status_flags.is_set(OVERFLOW));
    assert!(cpu.registers.status_flags.is_unset(CARRY));
}

#[test]
fn sbc_without_carry_borrows_one() {
    let mut cpu = Cpu::new();
    cpu.lda(50);
    cpu.sbc(20);
    assert_eq!(29, cpu.registers.a);
}

#[test]
fn sbc_with_carry_subtracts_exactly() {
    let mut cpu = Cpu::new();
    cpu.lda(50);
    cpu.sec();
    cpu.sbc(20);
    assert_eq!(30, cpu.registers.a);
    assert!(cpu.registers.status_flags.is_set(CARRY));
}

#[test]
fn cmp_clears_carry_when_lesser() {
    let mut cpu = Cpu::new();
    cpu.lda(10);
    cpu.cmp(15);
    assert!(cpu.registers.status_flags.is_unset(CARRY));
    assert!(cpu.registers.status_flags.is_set(NEGATIVE));
    assert!(cpu.registers.status_flags.is_unset(ZERO));
}

#[test]
fn bit_never_sets_negative_or_overflow() {
    // BIT compares the masked operand with 1, so N and V never hold
    let mut cpu = Cpu::new();
    cpu.lda(0xC0);
    cpu.bit(0xC0);
    assert!(cpu.registers.status_flags.is_unset(ZERO));
    assert!(cpu.registers.status_flags.is_unset(NEGATIVE));
    assert!(cpu.registers.status_flags.is_unset(OVERFLOW));
}

#[test]
fn clc_when_clear_changes_nothing() {
    let mut cpu = Cpu::new();
    cpu.clc();
    let bits = cpu.registers.status_flags.bits;
    cpu.clc();
    assert_eq!(bits, cpu.registers.status_flags.bits);
}

#[test]
fn sec_when_set_changes_nothing() {
    let mut cpu = Cpu::new();
    cpu.sec();
    let bits = cpu.registers.status_flags.bits;
    cpu.sec();
    assert_eq!(bits, cpu.registers.status_flags.bits);
}

#[test]
fn stack_address_sits_in_page_one() {
    let cpu = Cpu::new();
    assert_eq!(0x01FF, cpu.get_stack_addr());
}

#[test]
fn screen_rows_mirror_the_mapped_memory() {
    let mut nes = Nes::new();
    nes.bus.mem_write_u8(0x0200, 5);
    nes.bus.mem_write_u8(0x0200 + 33, 7);
    let data = nes.get_screen_data();
    assert_eq!(32, data.len());
    for row in data.iter() {
        assert_eq!(32, row.len());
    }
    assert_eq!(5, data[0][0]);
    assert_eq!(7, data[1][1]);
}

#[test]
fn pressed_buttons_reach_the_mapped_register() {
    let mut nes = Nes::new();
    nes.press(Player::One, Button::UP);
    let reads: Vec<u8> = (0..5).map(|_| nes.bus.mem_read_u8(0x4016)).collect();
    assert_eq!(vec![0, 0, 0, 0, 1], reads);
    nes.release(Player::One, Button::UP);
    nes.bus.mem_write_u8(0x4016, 1);
    nes.bus.mem_write_u8(0x4016, 0);
    let reads: Vec<u8> = (0..5).map(|_| nes.bus.mem_read_u8(0x4016)).collect();
    assert_eq!(vec![0, 0, 0, 0, 0], reads);
}

#[test]
fn player_joypad_hands_out_the_right_port() {
    let mut nes = Nes::new();
    nes.player_joypad(Player::Two).press(Button::B);
    assert_eq!(0, nes.bus.mem_read_u8(0x4016));
    assert_eq!(0, nes.bus.mem_read_u8(0x4017));
    assert_eq!(1, nes.bus.mem_read_u8(0x4017));
}

#[test]
fn palette_maps_every_index() {
    assert_eq!(Color::from(0u8), Color::Black);
    assert_eq!(Color::from(1u8), Color::White);
    assert_eq!(Color::from(2u8), Color::Grey);
    assert_eq!(Color::from(9u8), Color::Grey);
    assert_eq!(Color::from(3u8), Color::Red);
    assert_eq!(Color::from(10u8), Color::Red);
    assert_eq!(Color::from(4u8), Color::Green);
    assert_eq!(Color::from(11u8), Color::Green);
    assert_eq!(Color::from(5u8), Color::Blue);
    assert_eq!(Color::from(12u8), Color::Blue);
    assert_eq!(Color::from(6u8), Color::Magenta);
    assert_eq!(Color::from(13u8), Color::Magenta);
    assert_eq!(Color::from(7u8), Color::Yellow);
    assert_eq!(Color::from(14u8), Color::Yellow);
    assert_eq!(Color::from(8u8), Color::Cyan);
    assert_eq!(Color::from(200u8), Color::Cyan);
}

#[test]
fn palette_hex_codes() {
    assert_eq!("#000000", Color::Black.hex_code());
    assert_eq!("#FFFFFF", Color::White.hex_code());
    assert_eq!("#7F7F7F", Color::Grey.hex_code());
    assert_eq!("#FF0000", Color::Red.hex_code());
    assert_eq!("#00FF00", Color::Green.hex_code());
    assert_eq!("#0000FF", Color::Blue.hex_code());
    assert_eq!("#FF00FF", Color::Magenta.hex_code());
    assert_eq!("#FFFF00", Color::Yellow.hex_code());
    assert_eq!("#00FFFF", Color::Cyan.hex_code());
}
