use chip8::display::{Display, CHIP8_HEIGHT, CHIP8_WIDTH};

fn lit(d: &Display) -> usize {
    d.pixels().iter().filter(|&&p| p).count()
}

#[test]
fn new_display_is_blank() {
    let d = Display::new();
    assert_eq!(d.pixels().len(), CHIP8_WIDTH * CHIP8_HEIGHT);
    assert_eq!(lit(&d), 0);
}

#[test]
fn draw_sets_bits_high_bit_left() {
    let mut d = Display::new();
    let hit = d.draw_sprite(2, 3, &[0b1000_0001, 0b0100_0000]);
    assert!(!hit);
    assert!(d.pixel(2, 3));
    assert!(d.pixel(9, 3));
    assert!(!d.pixel(3, 3));
    assert!(d.pixel(3, 4));
    assert_eq!(lit(&d), 3);
}

#[test]
fn drawing_twice_restores_and_collides() {
    let mut d = Display::new();
    d.draw_sprite(10, 10, &[0xFF]);
    let before: Vec<bool> = d.pixels().to_vec();
    let sprite = [0xF0, 0x90, 0xF0, 0x90, 0xF0];
    let first = d.draw_sprite(12, 8, &sprite);
    assert!(first);
    let second = d.draw_sprite(12, 8, &sprite);
    assert!(second);
    assert_eq!(d.pixels().to_vec(), before);
}

#[test]
fn draw_wraps_around_edges() {
    let mut d = Display::new();
    d.draw_sprite(62, 31, &[0b1110_0000, 0b1000_0000]);
    assert!(d.pixel(62, 31));
    assert!(d.pixel(63, 31));
    assert!(d.pixel(0, 31));
    assert!(d.pixel(62, 0));
    assert_eq!(lit(&d), 4);
}

#[test]
fn empty_sprite_draws_nothing() {
    let mut d = Display::new();
    assert!(!d.draw_sprite(5, 5, &[]));
    assert_eq!(lit(&d), 0);
}

#[test]
fn clear_turns_everything_off() {
    let mut d = Display::new();
    d.draw_sprite(0, 0, &[0xFF, 0xFF, 0xFF]);
    assert_eq!(lit(&d), 24);
    d.clear();
    assert_eq!(lit(&d), 0);
}
