use chip8::memory::{AccessError, Memory, MAX_MEM_SIZE};

const FONT: [u8; 80] = [
    0xF0, 0x90, 0x90, 0x90, 0xF0, 0x20, 0x60, 0x20, 0x20, 0x70, 0xF0, 0x10, 0xF0, 0x80, 0xF0,
    0xF0, 0x10, 0xF0, 0x10, 0xF0, 0x90, 0x90, 0xF0, 0x10, 0x10, 0xF0, 0x80, 0xF0, 0x10, 0xF0,
    0xF0, 0x80, 0xF0, 0x90, 0xF0, 0xF0, 0x10, 0x20, 0x40, 0x40, 0xF0, 0x90, 0xF0, 0x90, 0xF0,
    0xF0, 0x90, 0xF0, 0x10, 0xF0, 0xF0, 0x90, 0xF0, 0x90, 0x90, 0xE0, 0x90, 0xE0, 0x90, 0xE0,
    0xF0, 0x80, 0x80, 0x80, 0xF0, 0xE0, 0x90, 0x90, 0x90, 0xE0, 0xF0, 0x80, 0xF0, 0x80, 0xF0,
    0xF0, 0x80, 0xF0, 0x80, 0x80,
];

#[test]
fn fresh_memory_holds_font_then_zeros() {
    let m = Memory::new();
    for a in 0..80u16 {
        assert_eq!(m.read(a).unwrap(), FONT[a as usize]);
    }
    for a in 80..MAX_MEM_SIZE as u16 {
        assert_eq!(m.read(a).unwrap(), 0);
    }
}

#[test]
fn write_then_read_gives_value_back() {
    let mut m = Memory::new();
    for &a in &[0u16, 1, 79, 80, 0x1FF, 0x200, 0x800, 4094, 4095] {
        let v = (a % 251) as u8 ^ 0x5A;
        assert!(m.write(a, v).is_ok());
        assert_eq!(m.read(a), Ok(v));
    }
    assert_eq!(m.read(0x201), Ok(0));
}

#[test]
fn out_of_range_access_fails() {
    let mut m = Memory::new();
    for &a in &[4096u16, 4097, 0x8000, u16::MAX] {
        assert_eq!(m.write(a, 7), Err(AccessError::AddressOutOfRange));
        assert_eq!(m.read(a), Err(AccessError::AddressOutOfRange));
    }
    assert_eq!(m.read(4095), Ok(0));
}
