//! End-to-end scenarios on the whole machine.

use chip8::cpu::{Cpu, Fault, Instr, Reg};
use chip8::keyboard::{Key, KeyState};

fn v0() -> Reg {
    let regs = Reg::up_to(1);
    regs[0]
}

#[test]
fn load_then_add_leaves_v0_8_and_pc_204() {
    // 6005: LD V0, 5; 7003: ADD V0, 3.
    let rom: Vec<u8> = vec![0x60, 0x05, 0x70, 0x03];
    let mut cpu = Cpu::new(&rom);
    cpu.step().unwrap();
    cpu.step().unwrap();
    assert_eq!(cpu.get(v0()), 8);
    assert_eq!(cpu.pc(), 0x204);
}

#[test]
fn store_v0_writes_memory_at_index() {
    // A200: LD I, 0x200; F055: store V0 at [I].
    let rom: Vec<u8> = vec![0xA2, 0x00, 0xF0, 0x55];
    let mut cpu = Cpu::new(&rom);
    cpu.set(v0(), 0x42);
    cpu.step().unwrap();
    cpu.step().unwrap();
    assert_eq!(cpu.memory().read_byte(0x200), 0x42);
}

#[test]
fn load_registers_from_memory() {
    // A206: LD I, 0x206; F165: load V0..V1 from [I]; data at 0x206.
    let rom: Vec<u8> = vec![0xA2, 0x06, 0xF1, 0x65, 0x00, 0x00, 0xAB, 0xCD];
    let mut cpu = Cpu::new(&rom);
    cpu.step().unwrap();
    cpu.step().unwrap();
    let regs = Reg::up_to(2);
    assert_eq!(cpu.get(regs[0]), 0xAB);
    assert_eq!(cpu.get(regs[1]), 0xCD);
}

#[test]
fn busy_wait_holds_pc_until_a_key_comes() {
    // F00A: LD V0, K.
    let rom: Vec<u8> = vec![0xF0, 0x0A];
    let mut cpu = Cpu::new(&rom);
    cpu.step().unwrap();
    assert_eq!(cpu.pc(), 0x200);
    cpu.step().unwrap();
    assert_eq!(cpu.pc(), 0x200);
    cpu.keyboard.set_key_state(Key::new(7), KeyState::Pressed);
    cpu.step().unwrap();
    assert_eq!(cpu.get(v0()), 7);
    assert_eq!(cpu.pc(), 0x202);
}

#[test]
fn busy_wait_takes_the_lowest_pressed_key() {
    let rom: Vec<u8> = vec![0xF0, 0x0A];
    let mut cpu = Cpu::new(&rom);
    cpu.keyboard.set_key_state(Key::new(9), KeyState::Pressed);
    cpu.keyboard.set_key_state(Key::new(3), KeyState::Pressed);
    cpu.step().unwrap();
    assert_eq!(cpu.get(v0()), 3);
}

#[test]
fn add_immediate_wraps_modulo_256() {
    // 60FF: LD V0, 255; 7003: ADD V0, 3 - wraps to 2, no flag.
    let rom: Vec<u8> = vec![0x60, 0xFF, 0x70, 0x03];
    let mut cpu = Cpu::new(&rom);
    cpu.step().unwrap();
    cpu.step().unwrap();
    assert_eq!(cpu.get(v0()), 2);
    let regs = Reg::up_to(16);
    assert_eq!(cpu.get(regs[15]), 0);
}

#[test]
fn add_registers_sets_carry() {
    // 60FF, 6101, 8014: V0 = 255 + 1 wraps to 0, VF = 1.
    let rom: Vec<u8> = vec![0x60, 0xFF, 0x61, 0x01, 0x80, 0x14];
    let mut cpu = Cpu::new(&rom);
    cpu.step_for(3).unwrap();
    let regs = Reg::up_to(16);
    assert_eq!(cpu.get(regs[0]), 0);
    assert_eq!(cpu.get(regs[15]), 1);
}

#[test]
fn sub_registers_sets_borrow() {
    // 6000, 6101, 8015: V0 = 0 - 1 wraps to 255, VF reports the borrow.
    let rom: Vec<u8> = vec![0x60, 0x00, 0x61, 0x01, 0x80, 0x15];
    let mut cpu = Cpu::new(&rom);
    cpu.step_for(3).unwrap();
    let regs = Reg::up_to(16);
    assert_eq!(cpu.get(regs[0]), 0xFF);
    assert_eq!(cpu.get(regs[15]), 1);
}

#[test]
fn bcd_store_of_255_and_0() {
    // 60FF, A300, F033: BCD of 255 at 0x300.
    let rom: Vec<u8> = vec![0x60, 0xFF, 0xA3, 0x00, 0xF0, 0x33];
    let mut cpu = Cpu::new(&rom);
    cpu.step_for(3).unwrap();
    assert_eq!(cpu.memory().read_byte(0x300), 2);
    assert_eq!(cpu.memory().read_byte(0x301), 5);
    assert_eq!(cpu.memory().read_byte(0x302), 5);

    // 6000, A300, F033: BCD of 0 overwrites with zeros.
    let rom2: Vec<u8> = vec![0x60, 0x00, 0xA3, 0x00, 0xF0, 0x33];
    let mut cpu2 = Cpu::new(&rom2);
    cpu2.step_for(3).unwrap();
    assert_eq!(cpu2.memory().read_byte(0x300), 0);
    assert_eq!(cpu2.memory().read_byte(0x301), 0);
    assert_eq!(cpu2.memory().read_byte(0x302), 0);
}

#[test]
fn call_and_ret_round_trip() {
    // 2204: CALL 0x204; at 0x204, 00EE: RET.
    let rom: Vec<u8> = vec![0x22, 0x04, 0x00, 0x00, 0x00, 0xEE];
    let mut cpu = Cpu::new(&rom);
    cpu.step().unwrap();
    assert_eq!(cpu.pc(), 0x204);
    cpu.step().unwrap();
    assert_eq!(cpu.pc(), 0x202);
}

#[test]
fn skip_on_key_checks_the_selector_key() {
    // E19E: SKP with key 1 (the selector nibble names the key).
    let rom: Vec<u8> = vec![0xE1, 0x9E];
    let mut cpu = Cpu::new(&rom);
    cpu.step().unwrap();
    assert_eq!(cpu.pc(), 0x202);

    let mut cpu2 = Cpu::new(&rom);
    cpu2.keyboard.set_key_state(Key::new(1), KeyState::Pressed);
    cpu2.step().unwrap();
    assert_eq!(cpu2.pc(), 0x204);
}

#[test]
fn skip_equal_immediate() {
    // 3005 with V0 = 5 skips; 3006 would not.
    let rom: Vec<u8> = vec![0x60, 0x05, 0x30, 0x05];
    let mut cpu = Cpu::new(&rom);
    cpu.step_for(2).unwrap();
    assert_eq!(cpu.pc(), 0x206);
}

#[test]
fn jump_with_offset_register() {
    // 6004: V0 = 4; B300: JP 0x300 + V0.
    let rom: Vec<u8> = vec![0x60, 0x04, 0xB3, 0x00];
    let mut cpu = Cpu::new(&rom);
    cpu.step_for(2).unwrap();
    assert_eq!(cpu.pc(), 0x304);
}

#[test]
fn glyph_address_and_timer_round_trip() {
    // 600F: V0 = 15; F029: I = glyph of F; F015: DT = V0; F107: V1 = DT.
    let rom: Vec<u8> = vec![0x60, 0x0F, 0xF0, 0x29, 0xF0, 0x15, 0xF1, 0x07];
    let mut cpu = Cpu::new(&rom);
    cpu.step_for(4).unwrap();
    assert_eq!(cpu.index_register(), 75);
    let regs = Reg::up_to(2);
    assert_eq!(cpu.get(regs[1]), 15);
}

#[test]
fn masked_random_with_zero_mask_is_zero() {
    // C000: RND V0 masked with 0 must give 0 whatever byte was drawn.
    let rom: Vec<u8> = vec![0xC0, 0x00];
    let mut cpu = Cpu::new(&rom);
    cpu.step().unwrap();
    assert_eq!(cpu.get(v0()), 0);
}

#[test]
fn unrecognized_instruction_is_fatal() {
    let rom: Vec<u8> = vec![0xFF, 0xFF];
    let mut cpu = Cpu::new(&rom);
    assert_eq!(cpu.step(), Err(Fault::UnrecognizedInstruction(0xFFFF)));
}

#[test]
fn ret_on_empty_stack_is_fatal() {
    let rom: Vec<u8> = vec![0x00, 0xEE];
    let mut cpu = Cpu::new(&rom);
    assert_eq!(cpu.step(), Err(Fault::StackUnderflow));
}

#[test]
fn seventeenth_call_overflows_the_stack() {
    // 2200: CALL 0x200 forever; 16 calls fit, the 17th is fatal.
    let rom: Vec<u8> = vec![0x22, 0x00];
    let mut cpu = Cpu::new(&rom);
    for _ in 0..16 {
        assert_eq!(cpu.step(), Ok(()));
    }
    assert_eq!(cpu.step(), Err(Fault::StackOverflow));
}

#[test]
fn step_for_runs_and_ticks_the_timer_once() {
    // 6A02: LD VA, 2 twice; timer preset and decremented once per batch.
    let rom: Vec<u8> = vec![0x6A, 0x02, 0x6A, 0x02];
    let mut cpu = Cpu::new(&rom);
    cpu.timer.set_delay(5);
    cpu.step_for(2).unwrap();
    assert_eq!(cpu.timer.delay(), 4);
    assert_eq!(cpu.pc(), 0x204);
}

#[test]
fn sys_is_a_silent_no_op() {
    let rom: Vec<u8> = vec![0x03, 0x33];
    let mut cpu = Cpu::new(&rom);
    assert_eq!(cpu.step(), Ok(()));
    assert_eq!(cpu.pc(), 0x202);
}

#[test]
fn decode_matches_direct_masking() {
    let instr = Instr::new(0xABCD);
    assert_eq!(instr.nybbles(), (0xA, 0xB, 0xC, 0xD));
    assert_eq!(instr.addr(), 0xBCD);
    assert_eq!(instr.arg(), 0xCD);
    assert_eq!(instr.x().ordinal(), 0xB);
    assert_eq!(instr.y().ordinal(), 0xC);
    assert_eq!(instr.z().ordinal(), 0);
    assert_eq!(instr.f().ordinal(), 0xF);
}

#[test]
fn decode_edges() {
    let zero = Instr::new(0x0000);
    assert_eq!(zero.nybbles(), (0, 0, 0, 0));
    assert_eq!(zero.addr(), 0);
    assert_eq!(zero.arg(), 0);
    let ones = Instr::new(0xFFFF);
    assert_eq!(ones.nybbles(), (0xF, 0xF, 0xF, 0xF));
    assert_eq!(ones.addr(), 0xFFF);
    assert_eq!(ones.arg(), 0xFF);
}

#[test]
fn shift_right_keeps_low_bit_in_flags() {
    // 6005, 8006: V0 = 5 >> 1 = 2, VF = 1.
    let rom: Vec<u8> = vec![0x60, 0x05, 0x80, 0x06];
    let mut cpu = Cpu::new(&rom);
    cpu.step_for(2).unwrap();
    let regs = Reg::up_to(16);
    assert_eq!(cpu.get(regs[0]), 2);
    assert_eq!(cpu.get(regs[15]), 1);
}

#[test]
fn shift_left_keeps_high_bit_in_flags() {
    // 6081, 800E: V0 = 0x81 << 1 = 0x02, VF = 1.
    let rom: Vec<u8> = vec![0x60, 0x81, 0x80, 0x0E];
    let mut cpu = Cpu::new(&rom);
    cpu.step_for(2).unwrap();
    let regs = Reg::up_to(16);
    assert_eq!(cpu.get(regs[0]), 0x02);
    assert_eq!(cpu.get(regs[15]), 1);
}
