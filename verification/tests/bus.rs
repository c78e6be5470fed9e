//! The bus on its own: mirroring, the word helpers, the loader, and the
//! random register.
use nes_emu::bus::{mirror_address, Bus};

#[test]
fn ram_window_mirrors_every_2k() {
    let mut bus = Bus::new();
    bus.mem_write_u8(0x0005, 7);
    assert_eq!(bus.mem_read_u8(0x0805), 7);
    assert_eq!(bus.mem_read_u8(0x1005), 7);
    assert_eq!(bus.mem_read_u8(0x1805), 7);
    bus.mem_write_u8(0x1805, 9);
    assert_eq!(bus.mem_read_u8(0x0005), 9);
}

#[test]
fn ppu_window_mirrors_every_8_bytes() {
    let mut bus = Bus::new();
    bus.mem_write_u8(0x2102, 3);
    assert_eq!(bus.mem_read_u8(0x2002), 3);
    assert_eq!(bus.mem_read_u8(0x3F02), 3);
    bus.mem_write_u8(0x3FFF, 5);
    assert_eq!(bus.mem_read_u8(0x2007), 5);
}

#[test]
fn addresses_above_the_windows_pass_through() {
    assert_eq!(mirror_address(0x0805), 0x0005);
    assert_eq!(mirror_address(0x2102), 0x2002);
    assert_eq!(mirror_address(0x4000), 0x4000);
    assert_eq!(mirror_address(0x8000), 0x8000);
    assert_eq!(mirror_address(0xFFFC), 0xFFFC);
}

#[test]
fn words_are_little_endian() {
    let mut bus = Bus::new();
    bus.mem_write_u16(0x0010, 0xBEEF);
    assert_eq!(bus.mem_read_u8(0x0010), 0xEF);
    assert_eq!(bus.mem_read_u8(0x0011), 0xBE);
    assert_eq!(bus.mem_read_u16(0x0010), 0xBEEF);
}

#[test]
fn load_copies_a_blob() {
    let mut bus = Bus::new();
    let blob: Vec<u8> = vec![1, 2, 3, 4];
    bus.load(&blob, 0x8000);
    assert_eq!(bus.mem_read_u8(0x8000), 1);
    assert_eq!(bus.mem_read_u8(0x8001), 2);
    assert_eq!(bus.mem_read_u8(0x8002), 3);
    assert_eq!(bus.mem_read_u8(0x8003), 4);
    assert_eq!(bus.mem_read_u8(0x8004), 0);
}

#[test]
fn word_reads_wrap_at_the_top_of_the_address_space() {
    let mut bus = Bus::new();
    bus.mem_write_u8(0xFFFF, 0x34);
    bus.mem_write_u8(0x0000, 0x12);
    assert_eq!(bus.mem_read_u16(0xFFFF), 0x1234);
}

#[test]
fn random_register_holds_a_fresh_sample_after_every_write() {
    let mut bus = Bus::new();
    for _ in 0..32 {
        bus.mem_write_u8(0x4018, 0);
        let value = bus.mem_read_u8(0x4018);
        assert!((1..16).contains(&value));
    }
}

#[test]
fn random_register_is_passive_on_reads() {
    let mut bus = Bus::new();
    bus.mem_write_u8(0x4018, 0);
    let first = bus.mem_read_u8(0x4018);
    let second = bus.mem_read_u8(0x4018);
    assert_eq!(first, second);
}
