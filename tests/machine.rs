use altair_console::machine::{
    can_run_slice, deliver_byte, display_value, new_machine, output_gate, run_slice, DATA_PORT,
    STATUS_PORT, SWITCH_PORT,
};

#[test]
fn new_machine_sets_switches_and_rom() {
    let c = new_machine();
    assert_eq!(c.bus.get_io_in(SWITCH_PORT), 0x00);
    assert_eq!(c.bus.get_io_in(STATUS_PORT), 0x00);
    assert_eq!(c.pc, 0);
    let rom = c.bus.rom_space.as_ref().unwrap();
    assert_eq!((rom.start, rom.end), (0xffff, 0xffff));
}

#[test]
fn deliver_marks_busy_and_sets_data() {
    let mut c = new_machine();
    c.bus.set_io_in(STATUS_PORT, 1);
    deliver_byte(&mut c, b'X');
    assert_eq!(c.bus.get_io_in(STATUS_PORT), 0);
    assert_eq!(c.bus.get_io_in(DATA_PORT), b'X');
}

#[test]
fn delivered_bytes_arrive_in_order() {
    let mut c = new_machine();
    let mut seen = Vec::new();
    for b in [b'L', b'I', b'S', b'T', 0x0d] {
        deliver_byte(&mut c, b);
        seen.push(c.bus.get_io_in(DATA_PORT));
    }
    assert_eq!(seen, vec![b'L', b'I', b'S', b'T', 0x0d]);
}

#[test]
fn output_letter_is_shown_and_sets_ready() {
    let mut c = new_machine();
    assert_eq!(output_gate(&mut c, 1, 0x41), Some(0x41));
    assert_eq!(c.bus.get_io_in(STATUS_PORT), 1);
}

#[test]
fn output_control_value_is_dropped() {
    let mut c = new_machine();
    assert_eq!(output_gate(&mut c, 1, 0x01), None);
    assert_eq!(c.bus.get_io_in(STATUS_PORT), 0);
}

#[test]
fn output_on_other_device_is_ignored() {
    let mut c = new_machine();
    for v in [0x00u8, 0x41, 0x0d, 0x7e, 0xff] {
        assert_eq!(output_gate(&mut c, 2, v), None);
    }
    assert_eq!(c.bus.get_io_in(STATUS_PORT), 0);
}

#[test]
fn output_strips_high_bit() {
    assert_eq!(display_value(1, 0xc1), Some(0x41));
    assert_eq!(display_value(1, 0x8d), Some(0x0d));
    assert_eq!(display_value(1, 0x0a), Some(0x0a));
}

#[test]
fn output_range_edges() {
    assert_eq!(display_value(1, 31), None);
    assert_eq!(display_value(1, 32), Some(32));
    assert_eq!(display_value(1, 125), Some(125));
    assert_eq!(display_value(1, 126), None);
    assert_eq!(display_value(1, 127), None);
}

#[test]
fn slice_runs_until_halt_address() {
    let mut c = new_machine();
    c.sp = 0xff00;
    assert!(run_slice(&mut c));
    assert_eq!(c.pc, 1);
    // JMP $FFFF
    c.bus.write_byte(0x0100, 0xc3);
    c.bus.write_byte(0x0101, 0xff);
    c.bus.write_byte(0x0102, 0xff);
    c.pc = 0x0100;
    assert!(!run_slice(&mut c));
    assert_eq!(c.pc, 0xffff);
}

#[test]
fn slice_at_top_of_memory_is_not_run() {
    let mut c = new_machine();
    c.sp = 0xff00;
    c.pc = 0xfffd;
    assert!(can_run_slice(&c));
    assert!(run_slice(&mut c));
    assert_eq!(c.pc, 0xfffe);
    // MVI A,... at $FFFE would need an operand past the last address
    c.bus.write_byte(0xfffe, 0x3e);
    assert!(!can_run_slice(&c));
    assert!(!run_slice(&mut c));
    assert_eq!(c.pc, 0xfffe);
    // a NOP there runs and lands on the halt address
    c.bus.write_byte(0xfffe, 0x00);
    assert!(!run_slice(&mut c));
    assert_eq!(c.pc, 0xffff);
}

#[test]
fn slice_with_wrapping_stack_is_not_run() {
    let mut c = new_machine();
    c.sp = 0xffff;
    // a NOP does not touch the stack
    assert!(run_slice(&mut c));
    assert_eq!(c.pc, 1);
    // POP B would read a word at the last address
    c.bus.write_byte(0x0001, 0xc1);
    assert!(!run_slice(&mut c));
    assert_eq!(c.pc, 1);
    // PUSH B with SP at 1 would write a word at the last address
    c.bus.write_byte(0x0001, 0xc5);
    c.sp = 1;
    assert!(!can_run_slice(&c));
    c.sp = 0;
    assert!(run_slice(&mut c));
    assert_eq!(c.sp, 0xfffe);
    assert_eq!(c.pc, 2);
}

#[test]
fn slice_with_trace_is_not_run() {
    let mut c = new_machine();
    assert!(can_run_slice(&c));
    c.debug.switch = true;
    assert!(!can_run_slice(&c));
    assert!(!run_slice(&mut c));
    assert_eq!(c.pc, 0);
}

#[test]
fn word_access_at_last_address_is_not_run() {
    let mut c = new_machine();
    c.sp = 0xff00;
    // LHLD $FFFF
    c.bus.write_byte(0x0000, 0x2a);
    c.bus.write_byte(0x0001, 0xff);
    c.bus.write_byte(0x0002, 0xff);
    assert!(!run_slice(&mut c));
    assert_eq!(c.pc, 0);
    // LHLD $FFFE
    c.bus.write_byte(0x0001, 0xfe);
    assert!(run_slice(&mut c));
    assert_eq!(c.pc, 3);
}

#[test]
fn interrupt_instruction_is_checked() {
    let mut c = new_machine();
    c.sp = 0xff00;
    c.bus.write_byte(0x0001, 0xff);
    c.bus.write_byte(0x0002, 0xff);
    c.inte = true;
    c.int = (true, 0x22);
    assert!(!can_run_slice(&c));
    c.inte = false;
    assert!(can_run_slice(&c));
}

#[test]
fn oversized_cycle_budget_is_not_run() {
    let mut c = new_machine();
    c.sp = 0xff00;
    c.slice_max_cycles = u32::MAX;
    assert!(!can_run_slice(&c));
    c.slice_max_cycles = 35000;
    assert!(can_run_slice(&c));
}

#[test]
fn shown_output_keeps_program_counter() {
    let mut c = new_machine();
    c.pc = 0x1234;
    assert_eq!(output_gate(&mut c, 1, b'A'), Some(b'A'));
    assert_eq!(c.pc, 0x1234);
    assert_eq!(c.bus.get_io_in(DATA_PORT), 0);
    assert_eq!(c.bus.read_byte(0x1234), 0);
    assert_eq!((c.sp, c.registers.a, c.inte), (0, 0, false));
}
