//! The interpreter exercised end to end: each test loads a small machine
//! program at 0x8000, points the reset vector there, runs to the terminal
//! BRK, and checks the bytes the program left behind. The assembly each
//! byte listing encodes is quoted above it.
use nes_emu::bus::Bus;
use nes_emu::cpu::Cpu;

fn bus_with_program(program: &[u8]) -> Bus {
    let mut bus = Bus::new();
    bus.load(program, 0x8000);
    bus.mem_write_u16(0xFFFC, 0x8000);
    bus
}

#[test]
fn cpu_ldx_immediate_and_stx_zero_page() {
    // LDX #25 ; STX $9 ; BRK
    let program: Vec<u8> = vec![0xA2, 0x19, 0x86, 0x09, 0x00];
    let mut bus = bus_with_program(&program);
    let mut cpu = Cpu::new();
    cpu.run(&mut bus);
    assert_eq!(25, bus.mem_read_u8(0x0009));
}

#[test]
fn cpu_ldx_absolute_and_stx_absolute() {
    // LDX $2341 ; STX $3214 ; BRK
    let program: Vec<u8> = vec![0xAE, 0x41, 0x23, 0x8E, 0x14, 0x32, 0x00];
    let mut bus = bus_with_program(&program);
    bus.mem_write_u8(0x2341, 99);
    let mut cpu = Cpu::new();
    cpu.run(&mut bus);
    assert_eq!(99, bus.mem_read_u8(0x3214));
}

#[test]
fn cpu_bcc_forward() {
    // BCC forward ; LDX #10 ; STX $55 ; BCC end ; forward: ; LDX #33 ; STX $55 ; end: ; BRK
    let program: Vec<u8> = vec![0x90, 0x06, 0xA2, 0x0A, 0x86, 0x55, 0x90, 0x04, 0xA2, 0x21, 0x86, 0x55, 0x00];
    let mut bus = bus_with_program(&program);
    let mut cpu = Cpu::new();
    cpu.run(&mut bus);
    assert_eq!(33, bus.mem_read_u8(0x0055));
}

#[test]
fn cpu_bcc_backward() {
    // BCC forward ; backward: ; LDX #42 ; STX $42 ; BCC end ; forward: ; BCC backward ; LDX #99 ; STX $42 ; end: ; BRK
    let program: Vec<u8> = vec![0x90, 0x06, 0xA2, 0x2A, 0x86, 0x42, 0x90, 0x06, 0x90, 0xF8, 0xA2, 0x63, 0x86, 0x42, 0x00];
    let mut bus = bus_with_program(&program);
    let mut cpu = Cpu::new();
    cpu.run(&mut bus);
    assert_eq!(42, bus.mem_read_u8(0x0042));
}

#[test]
fn cpu_adc_without_carry() {
    // LDA #30 ; ADC #12 ; STA $42
    let program: Vec<u8> = vec![0xA9, 0x1E, 0x69, 0x0C, 0x85, 0x42];
    let mut bus = bus_with_program(&program);
    let mut cpu = Cpu::new();
    cpu.run(&mut bus);
    assert_eq!(42, bus.mem_read_u8(0x0042));
}

#[test]
fn cpu_adc_signed_without_carry() {
    // LDA #30 ; ADC #216 ; STA $42
    let program: Vec<u8> = vec![0xA9, 0x1E, 0x69, 0xD8, 0x85, 0x42];
    let mut bus = bus_with_program(&program);
    let mut cpu = Cpu::new();
    cpu.run(&mut bus);
    assert_eq!(246, bus.mem_read_u8(0x0042));
}

#[test]
fn lda_immediate_and_sta_zero_page() {
    // LDA #10 ; STA $5 ; BRK
    let program: Vec<u8> = vec![0xA9, 0x0A, 0x85, 0x05, 0x00];
    let mut bus = bus_with_program(&program);
    let mut cpu = Cpu::new();
    cpu.run(&mut bus);
    assert_eq!(10, bus.mem_read_u8(0x0005));
}

#[test]
fn lda_absolute_and_sta_absolute() {
    // LDA $1234 ; STA $4321 ; BRK
    let program: Vec<u8> = vec![0xAD, 0x34, 0x12, 0x8D, 0x21, 0x43, 0x00];
    let mut bus = bus_with_program(&program);
    bus.mem_write_u8(0x1234, 42);
    let mut cpu = Cpu::new();
    cpu.run(&mut bus);
    assert_eq!(42, bus.mem_read_u8(0x4321));
}

#[test]
fn test_ldx_immediate_and_stx_zero_page() {
    // LDX #25 ; STX $9 ; BRK
    let program: Vec<u8> = vec![0xA2, 0x19, 0x86, 0x09, 0x00];
    let mut bus = bus_with_program(&program);
    let mut cpu = Cpu::new();
    cpu.run(&mut bus);
    assert_eq!(25, bus.mem_read_u8(0x0009));
}

#[test]
fn test_ldx_absolute_and_stx_absolute() {
    // LDX $2341 ; STX $3214 ; BRK
    let program: Vec<u8> = vec![0xAE, 0x41, 0x23, 0x8E, 0x14, 0x32, 0x00];
    let mut bus = bus_with_program(&program);
    bus.mem_write_u8(0x2341, 99);
    let mut cpu = Cpu::new();
    cpu.run(&mut bus);
    assert_eq!(99, bus.mem_read_u8(0x3214));
}

#[test]
fn ldy_immediate_and_sty_zero_page() {
    // LDY #33 ; STY $2A ; BRK
    let program: Vec<u8> = vec![0xA0, 0x21, 0x84, 0x2A, 0x00];
    let mut bus = bus_with_program(&program);
    let mut cpu = Cpu::new();
    cpu.run(&mut bus);
    assert_eq!(33, bus.mem_read_u8(0x002A));
}

#[test]
fn ldy_absolute_and_sty_absolute() {
    // LDY $3412 ; STY $2143 ; BRK
    let program: Vec<u8> = vec![0xAC, 0x12, 0x34, 0x8C, 0x43, 0x21, 0x00];
    let mut bus = bus_with_program(&program);
    bus.mem_write_u8(0x3412, 89);
    let mut cpu = Cpu::new();
    cpu.run(&mut bus);
    assert_eq!(89, bus.mem_read_u8(0x2143));
}

#[test]
fn test_bcc_forward() {
    // BCC forward ; LDA #10 ; STA $55 ; BCC end ; forward: ; LDA #33 ; STA $55 ; end: ; BRK
    let program: Vec<u8> = vec![0x90, 0x06, 0xA9, 0x0A, 0x85, 0x55, 0x90, 0x04, 0xA9, 0x21, 0x85, 0x55, 0x00];
    let mut bus = bus_with_program(&program);
    let mut cpu = Cpu::new();
    cpu.run(&mut bus);
    assert_eq!(33, bus.mem_read_u8(0x0055));
}

#[test]
fn test_bcc_backward() {
    // BCC forward ; backward: ; LDA #42 ; STA $42 ; BCC end ; forward: ; BCC backward ; LDA #99 ; STA $42 ; end: ; BRK
    let program: Vec<u8> = vec![0x90, 0x06, 0xA9, 0x2A, 0x85, 0x42, 0x90, 0x06, 0x90, 0xF8, 0xA9, 0x63, 0x85, 0x42, 0x00];
    let mut bus = bus_with_program(&program);
    let mut cpu = Cpu::new();
    cpu.run(&mut bus);
    assert_eq!(42, bus.mem_read_u8(0x0042));
}

#[test]
fn bpl_forward() {
    // BPL forward ; LDA #10 ; STA $55 ; BPL end ; forward: ; LDA #33 ; STA $55 ; end: ; BRK
    let program: Vec<u8> = vec![0x10, 0x06, 0xA9, 0x0A, 0x85, 0x55, 0x10, 0x04, 0xA9, 0x21, 0x85, 0x55, 0x00];
    let mut bus = bus_with_program(&program);
    let mut cpu = Cpu::new();
    cpu.run(&mut bus);
    assert_eq!(33, bus.mem_read_u8(0x0055));
}

#[test]
fn bpl_backward() {
    // BPL forward ; backward: ; LDA #42 ; STA $42 ; BPL end ; forward: ; BPL backward ; LDA #99 ; STA $42 ; end: ; BRK
    let program: Vec<u8> = vec![0x10, 0x06, 0xA9, 0x2A, 0x85, 0x42, 0x10, 0x06, 0x10, 0xF8, 0xA9, 0x63, 0x85, 0x42, 0x00];
    let mut bus = bus_with_program(&program);
    let mut cpu = Cpu::new();
    cpu.run(&mut bus);
    assert_eq!(42, bus.mem_read_u8(0x0042));
}

#[test]
fn bvc_forward() {
    // BVC forward ; LDA #10 ; STA $55 ; BVC end ; forward: ; LDA #33 ; STA $55 ; end: ; BRK
    let program: Vec<u8> = vec![0x50, 0x06, 0xA9, 0x0A, 0x85, 0x55, 0x50, 0x04, 0xA9, 0x21, 0x85, 0x55, 0x00];
    let mut bus = bus_with_program(&program);
    let mut cpu = Cpu::new();
    cpu.run(&mut bus);
    assert_eq!(33, bus.mem_read_u8(0x0055));
}

#[test]
fn bvc_backward() {
    // BVC forward ; backward: ; LDA #42 ; STA $42 ; BVC end ; forward: ; BVC backward ; LDA #99 ; STA $42 ; end: ; BRK
    let program: Vec<u8> = vec![0x50, 0x06, 0xA9, 0x2A, 0x85, 0x42, 0x50, 0x06, 0x50, 0xF8, 0xA9, 0x63, 0x85, 0x42, 0x00];
    let mut bus = bus_with_program(&program);
    let mut cpu = Cpu::new();
    cpu.run(&mut bus);
    assert_eq!(42, bus.mem_read_u8(0x0042));
}

#[test]
fn bne_forward() {
    // BNE forward ; LDA #10 ; STA $55 ; BNE end ; forward: ; LDA #33 ; STA $55 ; end: ; BRK
    let program: Vec<u8> = vec![0xD0, 0x06, 0xA9, 0x0A, 0x85, 0x55, 0xD0, 0x04, 0xA9, 0x21, 0x85, 0x55, 0x00];
    let mut bus = bus_with_program(&program);
    let mut cpu = Cpu::new();
    cpu.run(&mut bus);
    assert_eq!(33, bus.mem_read_u8(0x0055));
}

#[test]
fn bne_backward() {
    // BNE forward ; backward: ; LDA #42 ; STA $42 ; BNE end ; forward: ; BNE backward ; LDA #99 ; STA $42 ; end: ; BRK
    let program: Vec<u8> = vec![0xD0, 0x06, 0xA9, 0x2A, 0x85, 0x42, 0xD0, 0x06, 0xD0, 0xF8, 0xA9, 0x63, 0x85, 0x42, 0x00];
    let mut bus = bus_with_program(&program);
    let mut cpu = Cpu::new();
    cpu.run(&mut bus);
    assert_eq!(42, bus.mem_read_u8(0x0042));
}

#[test]
fn beq_forward() {
    // LDA #0 ; BEQ forward ; LDY #99 ; STY $42 ; forward: ; LDY #42 ; STY $42
    let program: Vec<u8> = vec![0xA9, 0x00, 0xF0, 0x04, 0xA0, 0x63, 0x84, 0x42, 0xA0, 0x2A, 0x84, 0x42];
    let mut bus = bus_with_program(&program);
    let mut cpu = Cpu::new();
    cpu.run(&mut bus);
    assert_eq!(42, bus.mem_read_u8(0x0042));
}

#[test]
fn beq_backward() {
    // BCC forward ; backward: ; LDX #42 ; STX $42 ; LDX #0 ; BEQ end ; forward: ; LDX #99 ; STX $42 ; LDA #0 ; BEQ backward ; end: ; BRK
    let program: Vec<u8> = vec![0x90, 0x08, 0xA2, 0x2A, 0x86, 0x42, 0xA2, 0x00, 0xF0, 0x08, 0xA2, 0x63, 0x86, 0x42, 0xA9, 0x00, 0xF0, 0xF0, 0x00];
    let mut bus = bus_with_program(&program);
    let mut cpu = Cpu::new();
    cpu.run(&mut bus);
    assert_eq!(42, bus.mem_read_u8(0x0042));
}

#[test]
fn bmi_forward() {
    // BMI forward ; LDA #246 ; STA $55 ; BMI end ; forward: ; LDA #33 ; STA $55 ; end: ; BRK
    let program: Vec<u8> = vec![0x30, 0x06, 0xA9, 0xF6, 0x85, 0x55, 0x30, 0x04, 0xA9, 0x21, 0x85, 0x55, 0x00];
    let mut bus = bus_with_program(&program);
    let mut cpu = Cpu::new();
    cpu.run(&mut bus);
    assert_eq!(246, bus.mem_read_u8(0x0055));
}

#[test]
fn test_adc_without_carry() {
    // LDA #30 ; ADC #12 ; STA $42
    let program: Vec<u8> = vec![0xA9, 0x1E, 0x69, 0x0C, 0x85, 0x42];
    let mut bus = bus_with_program(&program);
    let mut cpu = Cpu::new();
    cpu.run(&mut bus);
    assert_eq!(42, bus.mem_read_u8(0x0042));
}

#[test]
fn test_adc_signed_without_carry() {
    // LDA #30 ; ADC #216 ; STA $42
    let program: Vec<u8> = vec![0xA9, 0x1E, 0x69, 0xD8, 0x85, 0x42];
    let mut bus = bus_with_program(&program);
    let mut cpu = Cpu::new();
    cpu.run(&mut bus);
    assert_eq!(246, bus.mem_read_u8(0x0042));
}

#[test]
fn adc_with_carry() {
    // LDA #255 ; ADC #2 ; BCS end ; STA $42 ; end: ; LDA #42 ; STA $42
    let program: Vec<u8> = vec![0xA9, 0xFF, 0x69, 0x02, 0xB0, 0x02, 0x85, 0x42, 0xA9, 0x2A, 0x85, 0x42];
    let mut bus = bus_with_program(&program);
    let mut cpu = Cpu::new();
    cpu.run(&mut bus);
    assert_eq!(42, bus.mem_read_u8(0x0042));
}

#[test]
fn adc_with_overflow() {
    // LDA #80 ; ADC #80 ; BVS end ; STA $42 ; end: ; LDA #42 ; STA $42
    let program: Vec<u8> = vec![0xA9, 0x50, 0x69, 0x50, 0x70, 0x02, 0x85, 0x42, 0xA9, 0x2A, 0x85, 0x42];
    let mut bus = bus_with_program(&program);
    let mut cpu = Cpu::new();
    cpu.run(&mut bus);
    assert_eq!(42, bus.mem_read_u8(0x0042));
}

#[test]
fn test_and_1() {
    // LDA #%11110000 ; AND #%00001111 ; STA $00
    let program: Vec<u8> = vec![0xA9, 0xF0, 0x29, 0x0F, 0x85, 0x00];
    let mut bus = bus_with_program(&program);
    let mut cpu = Cpu::new();
    cpu.run(&mut bus);
    assert_eq!(0, bus.mem_read_u8(0x0000));
}

#[test]
fn test_and_2() {
    // LDA #%01010101 ; AND #%10011001 ; STA $00
    let program: Vec<u8> = vec![0xA9, 0x55, 0x29, 0x99, 0x85, 0x00];
    let mut bus = bus_with_program(&program);
    let mut cpu = Cpu::new();
    cpu.run(&mut bus);
    assert_eq!(17, bus.mem_read_u8(0x0000));
}

#[test]
fn test_sec() {
    // SEC ; BCS good ; LDX #99 ; STX $1ABC ; BEQ end ; good: ; LDX #42 ; STX $1ABC ; end: ; BRK
    let program: Vec<u8> = vec![0x38, 0xB0, 0x07, 0xA2, 0x63, 0x8E, 0xBC, 0x1A, 0xF0, 0x05, 0xA2, 0x2A, 0x8E, 0xBC, 0x1A, 0x00];
    let mut bus = bus_with_program(&program);
    let mut cpu = Cpu::new();
    cpu.run(&mut bus);
    assert_eq!(42, bus.mem_read_u8(0x1ABC));
}

#[test]
fn test_clc() {
    // SEC ; CLC ; BCC good ; LDX #99 ; STX $1ABC ; BEQ end ; good: ; LDX #42 ; STX $1ABC ; end: ; BRK
    let program: Vec<u8> = vec![0x38, 0x18, 0x90, 0x07, 0xA2, 0x63, 0x8E, 0xBC, 0x1A, 0xF0, 0x05, 0xA2, 0x2A, 0x8E, 0xBC, 0x1A, 0x00];
    let mut bus = bus_with_program(&program);
    let mut cpu = Cpu::new();
    cpu.run(&mut bus);
    assert_eq!(42, bus.mem_read_u8(0x1ABC));
}

#[test]
fn test_clv() {
    // LDA #80 ; ADC #80 ; CLV ; BVC good ; LDX #99 ; STX $1ABC ; BEQ end ; good: ; LDX #42 ; STX $1ABC ; end: ; BRK
    let program: Vec<u8> = vec![0xA9, 0x50, 0x69, 0x50, 0xB8, 0x50, 0x07, 0xA2, 0x63, 0x8E, 0xBC, 0x1A, 0xF0, 0x05, 0xA2, 0x2A, 0x8E, 0xBC, 0x1A, 0x00];
    let mut bus = bus_with_program(&program);
    let mut cpu = Cpu::new();
    cpu.run(&mut bus);
    assert_eq!(42, bus.mem_read_u8(0x1ABC));
}

#[test]
fn test_asl_a_and_bcs() {
    // LDA $05 ; ASL A ; STA $10 ; BCS end ; LDX #99 ; STX $0042 ; end: ; LDX #42 ; STX $0042
    let program: Vec<u8> = vec![0xA5, 0x05, 0x0A, 0x85, 0x10, 0xB0, 0x05, 0xA2, 0x63, 0x8E, 0x42, 0x00, 0xA2, 0x2A, 0x8E, 0x42, 0x00];
    let mut bus = bus_with_program(&program);
    bus.mem_write_u8(0x0005, 170);
    let mut cpu = Cpu::new();
    cpu.run(&mut bus);
    assert_eq!(84, bus.mem_read_u8(0x0010));
    assert_eq!(42, bus.mem_read_u8(0x0042));
}

#[test]
fn test_asl_and_bcs() {
    // ASL $05 ; LDA $05 ; STA $10 ; BCS end ; LDX #99 ; STX $0042 ; end: ; LDX #42 ; STX $0042
    let program: Vec<u8> = vec![0x06, 0x05, 0xA5, 0x05, 0x85, 0x10, 0xB0, 0x05, 0xA2, 0x63, 0x8E, 0x42, 0x00, 0xA2, 0x2A, 0x8E, 0x42, 0x00];
    let mut bus = bus_with_program(&program);
    bus.mem_write_u8(0x0005, 170);
    let mut cpu = Cpu::new();
    cpu.run(&mut bus);
    assert_eq!(84, bus.mem_read_u8(0x0010));
    assert_eq!(42, bus.mem_read_u8(0x0042));
}

#[test]
fn test_cmp_bmi() {
    // LDA #10 ; CMP $00 ; BMI inferior ; LDX #99 ; STX $0042 ; inferior: ; LDX #42 ; STX $0042
    let program: Vec<u8> = vec![0xA9, 0x0A, 0xC5, 0x00, 0x30, 0x05, 0xA2, 0x63, 0x8E, 0x42, 0x00, 0xA2, 0x2A, 0x8E, 0x42, 0x00];
    let mut bus = bus_with_program(&program);
    bus.mem_write_u8(0x0000, 15);
    let mut cpu = Cpu::new();
    cpu.run(&mut bus);
    assert_eq!(42, bus.mem_read_u8(0x0042));
}

#[test]
fn test_cmp_bpl() {
    // LDA #20 ; CMP $00 ; BPL superior ; LDX #99 ; STX $0042 ; superior: ; LDX #42 ; STX $0042
    let program: Vec<u8> = vec![0xA9, 0x14, 0xC5, 0x00, 0x10, 0x05, 0xA2, 0x63, 0x8E, 0x42, 0x00, 0xA2, 0x2A, 0x8E, 0x42, 0x00];
    let mut bus = bus_with_program(&program);
    bus.mem_write_u8(0x0000, 15);
    let mut cpu = Cpu::new();
    cpu.run(&mut bus);
    assert_eq!(42, bus.mem_read_u8(0x0042));
}

#[test]
fn test_cmp_beq() {
    // LDA #15 ; CMP $00 ; BEQ equal ; LDX #99 ; STX $0042 ; equal: ; LDX #42 ; STX $0042
    let program: Vec<u8> = vec![0xA9, 0x0F, 0xC5, 0x00, 0xF0, 0x05, 0xA2, 0x63, 0x8E, 0x42, 0x00, 0xA2, 0x2A, 0x8E, 0x42, 0x00];
    let mut bus = bus_with_program(&program);
    bus.mem_write_u8(0x0000, 15);
    let mut cpu = Cpu::new();
    cpu.run(&mut bus);
    assert_eq!(42, bus.mem_read_u8(0x0042));
}

#[test]
fn test_cpx_bmi() {
    // LDX #10 ; CPX $00 ; BMI inferior ; LDX #99 ; STX $0042 ; inferior: ; LDX #42 ; STX $0042
    let program: Vec<u8> = vec![0xA2, 0x0A, 0xE4, 0x00, 0x30, 0x05, 0xA2, 0x63, 0x8E, 0x42, 0x00, 0xA2, 0x2A, 0x8E, 0x42, 0x00];
    let mut bus = bus_with_program(&program);
    bus.mem_write_u8(0x0000, 15);
    let mut cpu = Cpu::new();
    cpu.run(&mut bus);
    assert_eq!(42, bus.mem_read_u8(0x0042));
}

#[test]
fn test_cpx_bpl() {
    // LDX #20 ; CPX $00 ; BPL superior ; LDX #99 ; STX $0042 ; superior: ; LDX #42 ; STX $0042
    let program: Vec<u8> = vec![0xA2, 0x14, 0xE4, 0x00, 0x10, 0x05, 0xA2, 0x63, 0x8E, 0x42, 0x00, 0xA2, 0x2A, 0x8E, 0x42, 0x00];
    let mut bus = bus_with_program(&program);
    bus.mem_write_u8(0x0000, 15);
    let mut cpu = Cpu::new();
    cpu.run(&mut bus);
    assert_eq!(42, bus.mem_read_u8(0x0042));
}

#[test]
fn test_cpx_beq() {
    // LDX #15 ; CPX $00 ; BEQ equal ; LDX #99 ; STX $0042 ; equal: ; LDX #42 ; STX $0042
    let program: Vec<u8> = vec![0xA2, 0x0F, 0xE4, 0x00, 0xF0, 0x05, 0xA2, 0x63, 0x8E, 0x42, 0x00, 0xA2, 0x2A, 0x8E, 0x42, 0x00];
    let mut bus = bus_with_program(&program);
    bus.mem_write_u8(0x0000, 15);
    let mut cpu = Cpu::new();
    cpu.run(&mut bus);
    assert_eq!(42, bus.mem_read_u8(0x0042));
}

#[test]
fn test_cpy_bmi() {
    // LDY #10 ; CPY $00 ; BMI inferior ; LDX #99 ; STX $0042 ; inferior: ; LDX #42 ; STX $0042
    let program: Vec<u8> = vec![0xA0, 0x0A, 0xC4, 0x00, 0x30, 0x05, 0xA2, 0x63, 0x8E, 0x42, 0x00, 0xA2, 0x2A, 0x8E, 0x42, 0x00];
    let mut bus = bus_with_program(&program);
    bus.mem_write_u8(0x0000, 15);
    let mut cpu = Cpu::new();
    cpu.run(&mut bus);
    assert_eq!(42, bus.mem_read_u8(0x0042));
}

#[test]
fn test_cpy_bpl() {
    // LDY #20 ; CPY $00 ; BPL superior ; LDX #99 ; STX $0042 ; superior: ; LDX #42 ; STX $0042
    let program: Vec<u8> = vec![0xA0, 0x14, 0xC4, 0x00, 0x10, 0x05, 0xA2, 0x63, 0x8E, 0x42, 0x00, 0xA2, 0x2A, 0x8E, 0x42, 0x00];
    let mut bus = bus_with_program(&program);
    bus.mem_write_u8(0x0000, 15);
    let mut cpu = Cpu::new();
    cpu.run(&mut bus);
    assert_eq!(42, bus.mem_read_u8(0x0042));
}

#[test]
fn test_cpy_beq() {
    // LDY #15 ; CPY $00 ; BEQ equal ; LDX #99 ; STX $0042 ; equal: ; LDX #42 ; STX $0042
    let program: Vec<u8> = vec![0xA0, 0x0F, 0xC4, 0x00, 0xF0, 0x05, 0xA2, 0x63, 0x8E, 0x42, 0x00, 0xA2, 0x2A, 0x8E, 0x42, 0x00];
    let mut bus = bus_with_program(&program);
    bus.mem_write_u8(0x0000, 15);
    let mut cpu = Cpu::new();
    cpu.run(&mut bus);
    assert_eq!(42, bus.mem_read_u8(0x0042));
}

#[test]
fn test_dec_beq() {
    // DEC $00 ; LDA $00 ; CMP #9 ; BEQ equal ; LDX #99 ; STX $0042 ; equal: ; LDX #42 ; STX $0042
    let program: Vec<u8> = vec![0xC6, 0x00, 0xA5, 0x00, 0xC9, 0x09, 0xF0, 0x05, 0xA2, 0x63, 0x8E, 0x42, 0x00, 0xA2, 0x2A, 0x8E, 0x42, 0x00];
    let mut bus = bus_with_program(&program);
    bus.mem_write_u8(0x0000, 10);
    let mut cpu = Cpu::new();
    cpu.run(&mut bus);
    assert_eq!(42, bus.mem_read_u8(0x0042));
}

#[test]
fn test_dex_beq() {
    // LDX $00 ; DEX ; CPX #9 ; BEQ equal ; LDX #99 ; STX $0042 ; equal: ; LDX #42 ; STX $0042
    let program: Vec<u8> = vec![0xA6, 0x00, 0xCA, 0xE0, 0x09, 0xF0, 0x05, 0xA2, 0x63, 0x8E, 0x42, 0x00, 0xA2, 0x2A, 0x8E, 0x42, 0x00];
    let mut bus = bus_with_program(&program);
    bus.mem_write_u8(0x0000, 10);
    let mut cpu = Cpu::new();
    cpu.run(&mut bus);
    assert_eq!(42, bus.mem_read_u8(0x0042));
}

#[test]
fn test_dey_beq() {
    // LDY $00 ; DEY ; CPY #9 ; BEQ equal ; LDX #99 ; STX $0042 ; equal: ; LDX #42 ; STX $0042
    let program: Vec<u8> = vec![0xA4, 0x00, 0x88, 0xC0, 0x09, 0xF0, 0x05, 0xA2, 0x63, 0x8E, 0x42, 0x00, 0xA2, 0x2A, 0x8E, 0x42, 0x00];
    let mut bus = bus_with_program(&program);
    bus.mem_write_u8(0x0000, 10);
    let mut cpu = Cpu::new();
    cpu.run(&mut bus);
    assert_eq!(42, bus.mem_read_u8(0x0042));
}

#[test]
fn test_eor() {
    // LDA $12 ; EOR #%10101010 ; STA $12
    let program: Vec<u8> = vec![0xA5, 0x12, 0x49, 0xAA, 0x85, 0x12];
    let mut bus = bus_with_program(&program);
    bus.mem_write_u8(0x0012, 204);
    let mut cpu = Cpu::new();
    cpu.run(&mut bus);
    assert_eq!(102, bus.mem_read_u8(0x0012));
}

#[test]
fn test_inc() {
    // INC $12
    let program: Vec<u8> = vec![0xE6, 0x12];
    let mut bus = bus_with_program(&program);
    bus.mem_write_u8(0x0012, 9);
    let mut cpu = Cpu::new();
    cpu.run(&mut bus);
    assert_eq!(10, bus.mem_read_u8(0x0012));
}

#[test]
fn test_inx() {
    // LDX $12 ; INX ; STX $42
    let program: Vec<u8> = vec![0xA6, 0x12, 0xE8, 0x86, 0x42];
    let mut bus = bus_with_program(&program);
    bus.mem_write_u8(0x0012, 9);
    let mut cpu = Cpu::new();
    cpu.run(&mut bus);
    assert_eq!(10, bus.mem_read_u8(0x0042));
}

#[test]
fn test_iny() {
    // LDY $12 ; INY ; STY $42
    let program: Vec<u8> = vec![0xA4, 0x12, 0xC8, 0x84, 0x42];
    let mut bus = bus_with_program(&program);
    bus.mem_write_u8(0x0012, 9);
    let mut cpu = Cpu::new();
    cpu.run(&mut bus);
    assert_eq!(10, bus.mem_read_u8(0x0042));
}

#[test]
fn test_lsr_a_and_bcs() {
    // LDA $AB ; LSR A ; STA $AB ; BCS carryset ; LDX #99 ; STX $42 ; carryset: ; LDX #42 ; STX $42
    let program: Vec<u8> = vec![0xA5, 0xAB, 0x4A, 0x85, 0xAB, 0xB0, 0x04, 0xA2, 0x63, 0x86, 0x42, 0xA2, 0x2A, 0x86, 0x42];
    let mut bus = bus_with_program(&program);
    bus.mem_write_u8(0x00AB, 171);
    let mut cpu = Cpu::new();
    cpu.run(&mut bus);
    assert_eq!(85, bus.mem_read_u8(0x00AB));
    assert_eq!(42, bus.mem_read_u8(0x0042));
}

#[test]
fn test_lsr_and_bcs() {
    // LSR $AB ; BCS carryset ; LDX #99 ; STX $42 ; carryset: ; LDX #42 ; STX $42
    let program: Vec<u8> = vec![0x46, 0xAB, 0xB0, 0x04, 0xA2, 0x63, 0x86, 0x42, 0xA2, 0x2A, 0x86, 0x42];
    let mut bus = bus_with_program(&program);
    bus.mem_write_u8(0x00AB, 171);
    let mut cpu = Cpu::new();
    cpu.run(&mut bus);
    assert_eq!(85, bus.mem_read_u8(0x00AB));
    assert_eq!(42, bus.mem_read_u8(0x0042));
}

#[test]
fn test_ora() {
    // LDA $AB ; ORA #%00001111 ; STA $BA
    let program: Vec<u8> = vec![0xA5, 0xAB, 0x09, 0x0F, 0x85, 0xBA];
    let mut bus = bus_with_program(&program);
    bus.mem_write_u8(0x00AB, 240);
    let mut cpu = Cpu::new();
    cpu.run(&mut bus);
    assert_eq!(255, bus.mem_read_u8(0x00BA));
}

#[test]
fn test_pha() {
    // LDA #42 ; PHA
    let program: Vec<u8> = vec![0xA9, 0x2A, 0x48];
    let mut bus = bus_with_program(&program);
    let mut cpu = Cpu::new();
    cpu.run(&mut bus);
    assert_eq!(42, bus.mem_read_u8(0x01FF));
}

#[test]
fn test_pla() {
    // LDA #42 ; PHA ; LDA #0 ; PLA ; STA $42
    let program: Vec<u8> = vec![0xA9, 0x2A, 0x48, 0xA9, 0x00, 0x68, 0x85, 0x42];
    let mut bus = bus_with_program(&program);
    let mut cpu = Cpu::new();
    cpu.run(&mut bus);
    assert_eq!(42, bus.mem_read_u8(0x0042));
}

#[test]
fn test_rol_a() {
    // SEC ; LDA $AB ; ROL A ; STA $42 ; BCS end ; LDA #99 ; STA $AB ; end: ; LDA #42 ; STA $AB
    let program: Vec<u8> = vec![0x38, 0xA5, 0xAB, 0x2A, 0x85, 0x42, 0xB0, 0x04, 0xA9, 0x63, 0x85, 0xAB, 0xA9, 0x2A, 0x85, 0xAB];
    let mut bus = bus_with_program(&program);
    bus.mem_write_u8(0x00AB, 170);
    let mut cpu = Cpu::new();
    cpu.run(&mut bus);
    assert_eq!(85, bus.mem_read_u8(0x0042));
    assert_eq!(42, bus.mem_read_u8(0x00AB));
}

#[test]
fn test_rol() {
    // SEC ; ROL $AB ; BCS end ; LDA #99 ; STA $42 ; end: ; LDA #42 ; STA $42
    let program: Vec<u8> = vec![0x38, 0x26, 0xAB, 0xB0, 0x04, 0xA9, 0x63, 0x85, 0x42, 0xA9, 0x2A, 0x85, 0x42];
    let mut bus = bus_with_program(&program);
    bus.mem_write_u8(0x00AB, 170);
    let mut cpu = Cpu::new();
    cpu.run(&mut bus);
    assert_eq!(85, bus.mem_read_u8(0x00AB));
    assert_eq!(42, bus.mem_read_u8(0x0042));
}

#[test]
fn test_ror_a() {
    // SEC ; LDA $AB ; ROR A ; STA $42 ; BCC end ; LDA #99 ; STA $AB ; BRK ; end: ; LDA #42 ; STA $AB
    let program: Vec<u8> = vec![0x38, 0xA5, 0xAB, 0x6A, 0x85, 0x42, 0x90, 0x05, 0xA9, 0x63, 0x85, 0xAB, 0x00, 0xA9, 0x2A, 0x85, 0xAB];
    let mut bus = bus_with_program(&program);
    bus.mem_write_u8(0x00AB, 170);
    let mut cpu = Cpu::new();
    cpu.run(&mut bus);
    assert_eq!(213, bus.mem_read_u8(0x0042));
    assert_eq!(42, bus.mem_read_u8(0x00AB));
}

#[test]
fn test_ror() {
    // SEC ; ROR $AB ; BCC end ; LDA #99 ; STA $42 ; BRK ; end: ; LDA #42 ; STA $42
    let program: Vec<u8> = vec![0x38, 0x66, 0xAB, 0x90, 0x05, 0xA9, 0x63, 0x85, 0x42, 0x00, 0xA9, 0x2A, 0x85, 0x42];
    let mut bus = bus_with_program(&program);
    bus.mem_write_u8(0x00AB, 170);
    let mut cpu = Cpu::new();
    cpu.run(&mut bus);
    assert_eq!(213, bus.mem_read_u8(0x00AB));
    assert_eq!(42, bus.mem_read_u8(0x0042));
}

#[test]
fn test_tax() {
    // LDA #42 ; TAX ; STX $42
    let program: Vec<u8> = vec![0xA9, 0x2A, 0xAA, 0x86, 0x42];
    let mut bus = bus_with_program(&program);
    let mut cpu = Cpu::new();
    cpu.run(&mut bus);
    assert_eq!(42, bus.mem_read_u8(0x0042));
}

#[test]
fn test_txa() {
    // LDX #42 ; TXA ; STA $42
    let program: Vec<u8> = vec![0xA2, 0x2A, 0x8A, 0x85, 0x42];
    let mut bus = bus_with_program(&program);
    let mut cpu = Cpu::new();
    cpu.run(&mut bus);
    assert_eq!(42, bus.mem_read_u8(0x0042));
}

#[test]
fn test_tay() {
    // LDA #42 ; TAY ; STY $42
    let program: Vec<u8> = vec![0xA9, 0x2A, 0xA8, 0x84, 0x42];
    let mut bus = bus_with_program(&program);
    let mut cpu = Cpu::new();
    cpu.run(&mut bus);
    assert_eq!(42, bus.mem_read_u8(0x0042));
}

#[test]
fn test_tya() {
    // LDY #42 ; TYA ; STA $42
    let program: Vec<u8> = vec![0xA0, 0x2A, 0x98, 0x85, 0x42];
    let mut bus = bus_with_program(&program);
    let mut cpu = Cpu::new();
    cpu.run(&mut bus);
    assert_eq!(42, bus.mem_read_u8(0x0042));
}

#[test]
fn test_txs() {
    // LDA #1 ; PHA ; LDA #2 ; PHA ; LDX $FF ; TXS ; LDA #10 ; PHA ; LDA #30 ; PHA ; PLA ; TAX ; STX $42 ; PLA ; STA $43
    let program: Vec<u8> = vec![0xA9, 0x01, 0x48, 0xA9, 0x02, 0x48, 0xA6, 0xFF, 0x9A, 0xA9, 0x0A, 0x48, 0xA9, 0x1E, 0x48, 0x68, 0xAA, 0x86, 0x42, 0x68, 0x85, 0x43];
    let mut bus = bus_with_program(&program);
    let mut cpu = Cpu::new();
    cpu.run(&mut bus);
    assert_eq!(30, bus.mem_read_u8(0x0042));
    assert_eq!(10, bus.mem_read_u8(0x0043));
}

#[test]
fn test_tsx() {
    // PHA ; TSX ; STX $42
    let program: Vec<u8> = vec![0x48, 0xBA, 0x86, 0x42];
    let mut bus = bus_with_program(&program);
    let mut cpu = Cpu::new();
    cpu.run(&mut bus);
    assert_eq!(254, bus.mem_read_u8(0x0042));
}
