use riscvm::alu::{add16, div16, mul16, neg16, shl16, shr16, sub16};
use riscvm::error::Error;
use riscvm::opcode::Opcode;
use riscvm::{ComparisonResult, Machine};

fn machine_with(code: Vec<u8>) -> Machine {
    let mut m = Machine::new();
    m.code = code;
    m
}

#[test]
fn new_machine_is_cleared() {
    let m = Machine::new();
    assert_eq!(m.pc, 0);
    assert_eq!(m.r, [0i16; 16]);
    assert!(!m.carry);
    assert_eq!(m.cmp, ComparisonResult::Unset);
    assert_eq!(m.mem.len(), 65536);
    assert!(m.mem.iter().all(|&v| v == 0));
    assert!(m.code.is_empty());
    assert!(m.stack.is_empty());
    assert_eq!(m.screen.len(), 24 * 80);
}

#[test]
fn copy_immediate_then_halt() {
    let mut m = machine_with(vec![0x02, 0x00, 0xD0, 0x07, 0x31]);
    assert_eq!(m.run(), Ok(()));
    assert_eq!(m.r[0], 2000);
    assert_eq!(m.pc, 4);
}

#[test]
fn add_wraps_and_sets_carry() {
    let mut m = machine_with(vec![0x05, 0x00]);
    m.r[0] = 32767;
    assert_eq!(m.step(), Ok(true));
    assert_eq!(m.r[0], -2);
    assert!(m.carry);
    assert_eq!(m.pc, 2);
}

#[test]
fn divide_by_zero_immediate_changes_nothing() {
    let mut m = machine_with(vec![0x0F, 0x00, 0x00, 0x00]);
    m.r[0] = 77;
    assert_eq!(m.step(), Err(Error::DivisionByZero));
    assert_eq!(m.r[0], 77);
    assert_eq!(m.pc, 0);
    assert!(!m.carry);
}

#[test]
fn divide_by_zero_register_and_memory() {
    let mut m = machine_with(vec![0x0E, 0x01]);
    m.r[0] = 5;
    assert_eq!(m.step(), Err(Error::DivisionByZero));
    assert_eq!(m.r, {
        let mut r = [0i16; 16];
        r[0] = 5;
        r
    });
    let mut m = machine_with(vec![0x10, 0x02, 0x34, 0x12]);
    m.r[2] = 9;
    m.carry = true;
    assert_eq!(m.step(), Err(Error::DivisionByZero));
    assert_eq!(m.r[2], 9);
    assert!(m.carry);
    assert_eq!(m.pc, 0);
}

#[test]
fn call_then_return_resumes_after_call() {
    // 0: call 4; 3: halt; 4: cp r1, #99; 8: ret
    let mut m = machine_with(vec![0x2F, 0x04, 0x00, 0x31, 0x02, 0x01, 0x63, 0x00, 0x30]);
    m.r[1] = 7;
    assert_eq!(m.step(), Ok(true));
    assert_eq!(m.pc, 4);
    assert_eq!(m.stack.len(), 1);
    assert_eq!(m.step(), Ok(true));
    assert_eq!(m.r[1], 99);
    assert_eq!(m.step(), Ok(true));
    assert_eq!(m.pc, 3);
    assert_eq!(m.r[1], 7);
    assert!(m.stack.is_empty());
    assert_eq!(m.step(), Ok(false));
}

#[test]
fn zero_opcode_is_unknown() {
    let mut m = machine_with(vec![0x31, 0x00]);
    m.pc = 1;
    assert_eq!(m.step(), Err(Error::UnknownOpcode(0x00, 1)));
    assert_eq!(m.pc, 1);
}

#[test]
fn bytes_past_the_last_opcode_are_unknown() {
    for b in [0x32u8, 0x80, 0xFF] {
        let mut m = machine_with(vec![b, 0x00, 0x00, 0x00]);
        m.r[3] = 12;
        m.carry = true;
        m.cmp = ComparisonResult::LessThan;
        assert_eq!(m.step(), Err(Error::UnknownOpcode(b, 0)));
        assert_eq!(m.pc, 0);
        assert_eq!(m.r[3], 12);
        assert!(m.carry);
        assert_eq!(m.cmp, ComparisonResult::LessThan);
        assert!(m.stack.is_empty());
    }
}

#[test]
fn every_defined_opcode_decodes() {
    for b in 0x01u8..=0x31 {
        assert!(Opcode::from_byte(b).is_some());
    }
    assert!(Opcode::from_byte(0).is_none());
    assert!(Opcode::from_byte(0x32).is_none());
    assert_eq!(Opcode::from_byte(0x31), Some(Opcode::Halt));
    assert_eq!(Opcode::from_byte(0x2F).map(|o| o.len()), Some(3));
}

#[test]
fn truncated_instruction_is_a_bounds_error() {
    let mut m = machine_with(vec![0x31, 0x02, 0x00, 0xD0]);
    m.pc = 1;
    assert_eq!(m.step(), Err(Error::CodeOutOfBounds(1)));
    assert_eq!(m.r[0], 0);
    let mut m = machine_with(vec![0x02, 0x00, 0xD0, 0x07]);
    m.pc = 4;
    assert_eq!(m.step(), Err(Error::CodeOutOfBounds(4)));
    let mut m = machine_with(vec![]);
    assert_eq!(m.run(), Err(Error::CodeOutOfBounds(0)));
}

#[test]
fn arithmetic_wraps_modulo_two_to_the_sixteen() {
    assert_eq!(add16(1, 2), (3, false));
    assert_eq!(add16(-32768, -1), (32767, true));
    assert_eq!(sub16(-32768, 1), (32767, true));
    assert_eq!(sub16(5, 7), (-2, false));
    assert_eq!(mul16(300, 300), (24464, true));
    assert_eq!(mul16(-4, 5), (-20, false));
    assert_eq!(div16(-7, 2), (-3, false));
    assert_eq!(div16(7, -2), (-3, false));
    assert_eq!(div16(-32768, -1), (-32768, true));
    assert_eq!(neg16(5), (-5, false));
    assert_eq!(neg16(-32768), (-32768, true));
}

#[test]
fn arithmetic_instructions_set_carry() {
    // sub r0, #1 with r0 = -32768
    let mut m = machine_with(vec![0x09, 0x00, 0x01, 0x00]);
    m.r[0] = -32768;
    assert_eq!(m.step(), Ok(true));
    assert_eq!(m.r[0], 32767);
    assert!(m.carry);
    // mul r1, mem[0x0010] with mem = 3, r1 = 4
    let mut m = machine_with(vec![0x0D, 0x01, 0x10, 0x00]);
    m.r[1] = 4;
    m.mem[0x10] = 3;
    m.carry = true;
    assert_eq!(m.step(), Ok(true));
    assert_eq!(m.r[1], 12);
    assert!(!m.carry);
}

#[test]
fn shifts_are_logical_and_checked() {
    assert_eq!(shl16(1, 15), -32768);
    assert_eq!(shl16(3, 15), -32768);
    assert_eq!(shr16(-32768, 15), 1);
    assert_eq!(shr16(-1, 8), 255);
    // shr r0, #16
    let mut m = machine_with(vec![0x1F, 0x00, 0x10, 0x00]);
    m.r[0] = 100;
    assert_eq!(m.step(), Err(Error::InvalidShift(16)));
    assert_eq!(m.r[0], 100);
    // shl r0, r1 with r1 = -1
    let mut m = machine_with(vec![0x20, 0x01]);
    m.r[1] = -1;
    assert_eq!(m.step(), Err(Error::InvalidShift(-1)));
    // shl r0, r1 with r0 = 3, r1 = 2
    let mut m = machine_with(vec![0x20, 0x01]);
    m.r[0] = 3;
    m.r[1] = 2;
    assert_eq!(m.step(), Ok(true));
    assert_eq!(m.r[0], 12);
}

#[test]
fn moves_between_registers_and_memory() {
    // cp mem[0x0100], r2; cp r3, mem[0x0100]; cp r4, r3; halt
    let mut m = machine_with(vec![0x03, 0x00, 0x01, 0x02, 0x04, 0x03, 0x00, 0x01, 0x01, 0x43, 0x31]);
    m.r[2] = -1234;
    assert_eq!(m.run(), Ok(()));
    assert_eq!(m.mem[0x100], -1234);
    assert_eq!(m.r[3], -1234);
    assert_eq!(m.r[4], -1234);
}

#[test]
fn bitwise_and_unary_operations() {
    // xor r0, r1; and r0, #0x00FF; or r0, #0x1000; not r2; neg r3; not mem[5]; neg mem[6]; halt
    let code = vec![
        0x13, 0x01, 0x17, 0x00, 0xFF, 0x00, 0x1A, 0x00, 0x00, 0x10, 0x1C, 0x02, 0x11, 0x03, 0x1D, 0x05, 0x00,
        0x12, 0x06, 0x00, 0x31,
    ];
    let mut m = machine_with(code);
    m.r[0] = 0x0F0F;
    m.r[1] = 0x00FF;
    m.r[2] = 0;
    m.r[3] = 9;
    m.mem[5] = 1;
    m.mem[6] = -32768;
    assert_eq!(m.run(), Ok(()));
    assert_eq!(m.r[0], 0x10F0);
    assert_eq!(m.r[2], -1);
    assert_eq!(m.r[3], -9);
    assert_eq!(m.mem[5], -2);
    assert_eq!(m.mem[6], -32768);
    assert!(m.carry);
}

#[test]
fn compare_sets_signed_ordering() {
    // cmp r0, r1
    let mut m = machine_with(vec![0x22, 0x01]);
    m.r[0] = -5;
    m.r[1] = 3;
    assert_eq!(m.step(), Ok(true));
    assert_eq!(m.cmp, ComparisonResult::LessThan);
    // cmp r0, #-5
    let mut m = machine_with(vec![0x23, 0x00, 0xFB, 0xFF]);
    m.r[0] = -5;
    assert_eq!(m.step(), Ok(true));
    assert_eq!(m.cmp, ComparisonResult::Equal);
    // cmp r0, mem[0x0002]: register nibble at byte 1, address at bytes 2..4
    let mut m = machine_with(vec![0x24, 0x00, 0x02, 0x00]);
    m.r[0] = 10;
    m.mem[2] = 4;
    assert_eq!(m.step(), Ok(true));
    assert_eq!(m.cmp, ComparisonResult::GreaterThan);
    assert_eq!(m.pc, 4);
}

fn branch_taken(opcode: u8, cmp: ComparisonResult, carry: bool) -> bool {
    let mut m = machine_with(vec![opcode, 0x34, 0x12]);
    m.cmp = cmp;
    m.carry = carry;
    assert_eq!(m.step(), Ok(true));
    if m.pc == 0x1234 {
        true
    } else {
        assert_eq!(m.pc, 3);
        false
    }
}

#[test]
fn branch_truth_table() {
    let states = [
        ComparisonResult::Unset,
        ComparisonResult::LessThan,
        ComparisonResult::Equal,
        ComparisonResult::GreaterThan,
    ];
    let table: [(u8, [bool; 4]); 6] = [
        (0x25, [false, false, true, false]),
        (0x26, [false, true, false, true]),
        (0x27, [false, false, false, true]),
        (0x28, [false, false, true, true]),
        (0x29, [false, true, false, false]),
        (0x2A, [false, true, true, false]),
    ];
    for (opcode, expected) in table {
        for (state, taken) in states.iter().zip(expected) {
            assert_eq!(branch_taken(opcode, *state, false), taken, "opcode {:#x} state {:?}", opcode, state);
        }
    }
    assert!(branch_taken(0x2B, ComparisonResult::Unset, true));
    assert!(!branch_taken(0x2B, ComparisonResult::Equal, false));
    assert!(branch_taken(0x2C, ComparisonResult::Unset, false));
}

#[test]
fn nested_calls_restore_registers() {
    // 0: call 4; 3: halt; 4: cp r0, #1; 8: call 12; 11: ret; 12: cp r0, #2; 16: call 20; 19: ret; 20: cp r0, #3; 24: ret
    let code = vec![
        0x2F, 0x04, 0x00, 0x31, 0x02, 0x00, 0x01, 0x00, 0x2F, 0x0C, 0x00, 0x30, 0x02, 0x00, 0x02, 0x00, 0x2F,
        0x14, 0x00, 0x30, 0x02, 0x00, 0x03, 0x00, 0x30,
    ];
    let mut m = machine_with(code);
    m.r[0] = -40;
    m.r[15] = 15;
    let before = m.r;
    assert_eq!(m.run(), Ok(()));
    assert_eq!(m.r, before);
    assert_eq!(m.pc, 3);
    assert!(m.stack.is_empty());
}

#[test]
fn thousand_and_first_call_overflows() {
    let mut m = machine_with(vec![0x2F, 0x00, 0x00]);
    for _ in 0..1000 {
        assert_eq!(m.step(), Ok(true));
    }
    assert_eq!(m.stack.len(), 1000);
    assert_eq!(m.step(), Err(Error::StackOverflow));
    assert_eq!(m.stack.len(), 1000);
    assert_eq!(m.pc, 0);
}

#[test]
fn return_with_empty_stack_underflows() {
    let mut m = machine_with(vec![0x30]);
    assert_eq!(m.run(), Err(Error::StackUnderflow));
    assert_eq!(m.pc, 0);
}

#[test]
fn push_and_pop_frames() {
    let mut m = Machine::new();
    m.r[4] = 44;
    assert_eq!(m.push(17), Ok(()));
    m.r[4] = 0;
    let frame = m.pop().ok().unwrap();
    assert_eq!(frame.pc, 17);
    assert_eq!(frame.r[4], 44);
    assert!(matches!(m.pop(), Err(Error::StackUnderflow)));
}

#[test]
fn install_image_checks_length() {
    let mut m = Machine::new();
    assert_eq!(m.install_image(vec![0x31, 0x00], 3), Err(Error::ObjectFileTooLarge(3)));
    assert!(m.code.is_empty());
    assert_eq!(m.install_image(vec![0x31], 1), Ok(()));
    assert_eq!(m.code, vec![0x31]);
    assert_eq!(m.run(), Ok(()));
}

#[test]
fn reserved_io_opcodes_decode() {
    let mut m = machine_with(vec![0x2D, 0x2E, 0x31]);
    m.r[0] = 5;
    assert_eq!(m.step(), Ok(true));
    assert_eq!(m.pc, 1);
    assert_eq!(m.step(), Ok(true));
    assert_eq!(m.pc, 2);
    assert_eq!(m.r[0], 5);
    let mut m = machine_with(vec![0x2D, 0x2E, 0x31]);
    assert_eq!(m.run(), Ok(()));
    assert_eq!(m.pc, 2);
}

#[test]
fn sequential_instructions_move_past_themselves() {
    // cp r0, r1 (2 bytes); neg mem[7] (3 bytes); add r2, #3 (4 bytes); halt
    let mut m = machine_with(vec![0x01, 0x01, 0x12, 0x07, 0x00, 0x06, 0x02, 0x03, 0x00, 0x31]);
    assert_eq!(m.step(), Ok(true));
    assert_eq!(m.pc, 2);
    assert_eq!(m.step(), Ok(true));
    assert_eq!(m.pc, 5);
    assert_eq!(m.step(), Ok(true));
    assert_eq!(m.pc, 9);
    assert_eq!(m.r[2], 3);
}
