use rv32i_emu::memory::{printable_char, Memory};

#[test]
fn test_get32() {
    let mut memory = Memory::new(8);
    memory.set8(0x00, 0);
    memory.set8(0x11, 1);
    memory.set8(0x22, 2);
    memory.set8(0x33, 3);
    memory.set8(0x44, 4);
    memory.set8(0x55, 5);
    memory.set8(0x66, 6);
    memory.set8(0x77, 7);

    assert_eq!(memory.get16(0), 0x1100);
    assert_eq!(memory.get16(1), 0x2211);
    assert_eq!(memory.get16(2), 0x3322);

    assert_eq!(memory.get32(0), 0x33221100);
    assert_eq!(memory.get32(1), 0x44332211);
    assert_eq!(memory.get32(2), 0x55443322);
    assert_eq!(memory.get32(3), 0x66554433);
    assert_eq!(memory.get32(4), 0x77665544);
}

#[test]
fn new_memory_is_zero_filled() {
    let memory = Memory::new(16);
    assert_eq!(memory.len(), 16);
    for i in 0..16 {
        assert_eq!(memory.get8(i), 0);
    }
    assert_eq!(Memory::new(0).len(), 0);
}

#[test]
fn word_round_trip_at_last_address() {
    let mut memory = Memory::new(12);
    let v: u32 = 0xDEADBEEF;
    memory.set32(v, 8);
    assert_eq!(memory.get32(8), v);
    assert_eq!(memory.get16(8), (v & 0xFFFF) as u16);
    assert_eq!(memory.get16(10), ((v >> 16) & 0xFFFF) as u16);
    assert_eq!(memory.get8(8), (v & 0xFF) as u8);
    assert_eq!(memory.get8(11), 0xDE);
    assert_eq!(memory.get8(7), 0);
}

#[test]
fn halfword_store_is_little_endian() {
    let mut memory = Memory::new(4);
    memory.set16(0xA1B2, 1);
    assert_eq!(memory.get8(1), 0xB2);
    assert_eq!(memory.get8(2), 0xA1);
    assert_eq!(memory.get8(0), 0);
    assert_eq!(memory.get8(3), 0);
}

#[test]
fn sign_extending_reads() {
    let mut memory = Memory::new(4);
    memory.set8(0x80, 0);
    memory.set8(0x7F, 1);
    assert_eq!(memory.get8_sx(0), 0xFFFF_FF80);
    assert_eq!(memory.get8_sx(1), 0x0000_007F);
    assert_eq!(memory.get16_sx(0), 0x0000_7F80);
    memory.set16(0x8001, 2);
    assert_eq!(memory.get16_sx(2), 0xFFFF_8001);
    assert_eq!(memory.get16(2), 0x8001);
}

#[test]
fn load_copies_image_at_offset_zero() {
    let mut memory = Memory::new(8);
    memory.set8(0x99, 6);
    memory.load(&[1, 2, 3]);
    assert_eq!(memory.get8(0), 1);
    assert_eq!(memory.get8(1), 2);
    assert_eq!(memory.get8(2), 3);
    assert_eq!(memory.get8(3), 0);
    assert_eq!(memory.get8(6), 0x99);
    let copy = memory.snapshot();
    memory.set8(7, 0);
    assert_eq!(copy.get8(0), 1);
}

#[test]
fn dump_shows_printable_bytes() {
    assert_eq!(printable_char(0x41), 'A');
    assert_eq!(printable_char(0x20), ' ');
    assert_eq!(printable_char(0x7E), '~');
    assert_eq!(printable_char(0x7F), '.');
    assert_eq!(printable_char(0x1F), '.');
    assert_eq!(printable_char(0x00), '.');
}
