//! The machine's parts one by one: stack, timer, memory, keyboard, random.

use chip8::keyboard::{Key, KeyState, Keyboard};
use chip8::memory::Memory;
use chip8::random::Random;
use chip8::stack::Stack;
use chip8::timer::{Timer, AUDIO_BUFFER_SIZE, SAMPLE_FREQUENCY};

#[test]
fn stack_push_then_pull_returns_the_value() {
    let mut s = Stack::new();
    s.push(0x300);
    assert_eq!(s.pull(), 0x300);
}

#[test]
fn stack_is_lifo_and_holds_sixteen() {
    let mut s = Stack::new();
    for i in 0..16 {
        s.push(0x200 + i);
    }
    for i in 0..16 {
        assert_eq!(s.pull(), 0x200 + 15 - i);
    }
}

#[test]
fn timer_never_goes_below_zero() {
    let mut t = Timer::new();
    t.set_delay(2);
    t.update();
    assert_eq!(t.delay(), 1);
    t.update();
    assert_eq!(t.delay(), 0);
    t.update();
    t.update();
    assert_eq!(t.delay(), 0);
}

#[test]
fn timer_couples_sound_to_delay_by_default() {
    let mut t = Timer::new();
    t.set_delay(3);
    t.set_sound(200);
    t.update();
    assert_eq!(t.delay(), 2);
    assert_eq!(t.sound(), 2);
}

#[test]
fn timer_counts_sound_down_independently_when_asked() {
    let mut t = Timer::new();
    t.set_independent_sound(true);
    t.set_delay(3);
    t.set_sound(200);
    t.update();
    assert_eq!(t.delay(), 2);
    assert_eq!(t.sound(), 199);
}

#[test]
fn audio_constants_describe_one_frame() {
    assert_eq!(SAMPLE_FREQUENCY, 44100);
    assert_eq!(AUDIO_BUFFER_SIZE, 735);
}

#[test]
fn memory_loads_font_and_program() {
    let rom: Vec<u8> = vec![0x12, 0x34];
    let m = Memory::new(&rom);
    // The glyph for 0 starts with 0xF0 at the base of memory.
    assert_eq!(m.read_byte(0), 0xF0);
    assert_eq!(m.read_byte(0x200), 0x12);
    assert_eq!(m.read_byte(0x201), 0x34);
    assert_eq!(m.read_byte(0x202), 0x00);
}

#[test]
fn memory_words_are_big_endian() {
    let rom: Vec<u8> = vec![0x12, 0x34];
    let m = Memory::new(&rom);
    assert_eq!(m.read_word(0x200), 0x1234);
}

#[test]
fn memory_addresses_wrap_at_its_size() {
    let mut m = Memory::new(&[]);
    m.write_byte(0x1234, 0xAA);
    assert_eq!(m.read_byte(0x234), 0xAA);
}

#[test]
fn glyph_addresses_step_by_five() {
    assert_eq!(Memory::glyph_address(0), 0);
    assert_eq!(Memory::glyph_address(1), 5);
    assert_eq!(Memory::glyph_address(15), 75);
    // Only the low four bits select a glyph.
    assert_eq!(Memory::glyph_address(16), 0);
}

#[test]
fn keyboard_reports_first_pressed_key() {
    let mut kb = Keyboard::new();
    assert!(kb.first_pressed_key().is_none());
    kb.set_key_state(Key::new(9), KeyState::Pressed);
    kb.set_key_state(Key::new(3), KeyState::Pressed);
    let first = kb.first_pressed_key().unwrap();
    assert_eq!(first.ordinal(), 3);
    kb.set_key_state(Key::new(3), KeyState::Released);
    let next = kb.first_pressed_key().unwrap();
    assert_eq!(next.ordinal(), 9);
}

#[test]
fn keyboard_lists_sixteen_keys() {
    let keys = Keyboard::keys();
    assert_eq!(keys.len(), 16);
    assert_eq!(keys[0].ordinal(), 0);
    assert_eq!(keys[15].ordinal(), 15);
}

#[test]
fn key_states_answer_is_pressed() {
    assert!(KeyState::Pressed.is_pressed());
    assert!(!KeyState::Released.is_pressed());
}

#[test]
fn random_respects_its_mask() {
    let mut r = Random::new();
    for _ in 0..100 {
        assert_eq!(r.next(0x00), 0);
        let masked = r.next(0x0F);
        assert!(masked < 16);
        let bit = r.next(0x80);
        assert!(bit == 0 || bit == 0x80);
    }
}
