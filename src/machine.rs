use vstd::prelude::*;
use intel8080::CPU;
use intel8080::memory::ROMSpace;

verus! {

#[verifier::external_type_specification]
#[verifier::external_body]
pub struct ExCpu(CPU);

/// The values that the machine's input devices present to its `IN`
/// instruction, one per device number.
pub uninterp spec fn input_ports(cpu: CPU) -> Seq<u8>;

/// The machine's program counter.
pub uninterp spec fn program_counter_of(cpu: CPU) -> u16;

/// The machine's stack pointer.
pub uninterp spec fn stack_pointer_of(cpu: CPU) -> u16;

/// The machine's memory, one byte per address.
pub uninterp spec fn memory_of(cpu: CPU) -> Seq<u8>;

/// Whether the machine accepts interrupts.
pub uninterp spec fn interrupts_enabled_of(cpu: CPU) -> bool;

/// The pending interrupt request, and the instruction it supplies.
pub uninterp spec fn interrupt_request_of(cpu: CPU) -> (bool, u8);

/// The number of cycles after which a slice pauses to keep the clock rate.
pub uninterp spec fn slice_max_cycles_of(cpu: CPU) -> u32;

/// The read-only address range, if one is set.
pub uninterp spec fn rom_space_of(cpu: CPU) -> Option<(u16, u16)>;

/// Whether the machine writes a trace of each instruction.
pub uninterp spec fn debug_enabled_of(cpu: CPU) -> bool;

/// The machine's registers A, B, C, D, E, H and L.
pub uninterp spec fn registers_of(cpu: CPU) -> (u8, u8, u8, u8, u8, u8, u8);

/// The machine's flags S, Z, AC, P and CY.
pub uninterp spec fn flags_of(cpu: CPU) -> (bool, bool, bool, bool, bool);

/// Whether `after` is a state that one slice of emulation can leave behind
/// when started from `before`.
pub uninterp spec fn slice_executed(before: CPU, after: CPU) -> bool;

/// The two machines agree on everything but the input values and the
/// read-only range.
pub open spec fn same_core(a: CPU, b: CPU) -> bool {
    &&& program_counter_of(a) == program_counter_of(b)
    &&& stack_pointer_of(a) == stack_pointer_of(b)
    &&& memory_of(a) == memory_of(b)
    &&& registers_of(a) == registers_of(b)
    &&& flags_of(a) == flags_of(b)
    &&& interrupts_enabled_of(a) == interrupts_enabled_of(b)
    &&& interrupt_request_of(a) == interrupt_request_of(b)
    &&& slice_max_cycles_of(a) == slice_max_cycles_of(b)
    &&& debug_enabled_of(a) == debug_enabled_of(b)
}

/// The two machines agree on everything but the input values.
pub open spec fn same_but_ports(a: CPU, b: CPU) -> bool {
    same_core(a, b) && rom_space_of(a) == rom_space_of(b)
}

/// Number of input devices the bus holds a value for.
pub const PORT_COUNT: usize = 256;

/// Input device whose value tells the program whether a key is waiting.
pub const STATUS_PORT: u8 = 0;

/// Input device through which the program reads a key.
pub const DATA_PORT: u8 = 1;

/// Input device of the front panel's sense switches.
pub const SWITCH_PORT: u8 = 255;

/// Output device of the serial console.
pub const OUTPUT_DEVICE: u8 = 1;

/// Program counter value at which emulation stops.
pub const HALT_ADDRESS: u16 = 0xffff;

/// Size of the address space.
pub const MEMORY_SIZE: usize = 0x10000;

/// Cycle budget of a slice on a new machine.
pub const DEFAULT_SLICE_CYCLES: u32 = 35000;

/// Bound on the cycle budget of a slice that keeps the cycle count in range.
pub const MAX_SLICE_CYCLES: u32 = 0xffff_ff00;

/// `SHLD`: stores HL at the address given by the two operand bytes.
pub const OPCODE_SHLD: u8 = 0x22;

/// `LHLD`: loads HL from the address given by the two operand bytes.
pub const OPCODE_LHLD: u8 = 0x2a;

/// The instruction that the next slice executes: the pending interrupt's
/// when interrupts are enabled and one is pending, else the one at the
/// program counter.
pub open spec fn next_opcode(cpu: CPU) -> u8 {
    if interrupts_enabled_of(cpu) && interrupt_request_of(cpu).0 {
        interrupt_request_of(cpu).1
    } else {
        memory_of(cpu)[program_counter_of(cpu) as int]
    }
}

/// Instructions that the emulator steps over as three bytes: 16-bit
/// immediates, direct addresses, jumps and calls.
pub open spec fn is_three_byte(op: u8) -> bool {
    op == 0x01 || op == 0x11 || op == 0x21 || op == 0x31 || op == 0x22 || op == 0x2a || op == 0x32
        || op == 0x3a || op == 0xc3 || op == 0xda || op == 0xd2 || op == 0xca || op == 0xc2 || op
        == 0xfa || op == 0xf2 || op == 0xea || op == 0xe2 || is_call(op)
}

/// Instructions that the emulator steps over as two bytes: 8-bit
/// immediates and port numbers.
pub open spec fn is_two_byte(op: u8) -> bool {
    op == 0x06 || op == 0x0e || op == 0x16 || op == 0x1e || op == 0x26 || op == 0x2e || op == 0x36
        || op == 0x3e || op == 0xc6 || op == 0xce || op == 0xd6 || op == 0xde || op == 0xe6 || op
        == 0xee || op == 0xf6 || op == 0xfe || op == 0xdb || op == 0xd3
}

/// `CALL` and the conditional calls.
pub open spec fn is_call(op: u8) -> bool {
    op == 0xcd || op == 0xdc || op == 0xd4 || op == 0xcc || op == 0xc4 || op == 0xfc || op == 0xf4
        || op == 0xec || op == 0xe4
}

/// How many bytes the emulator reads and steps over for an instruction.
pub open spec fn instruction_length(op: u8) -> nat {
    if is_three_byte(op) {
        3
    } else if is_two_byte(op) {
        2
    } else {
        1
    }
}

/// Instructions that write a word just below the stack pointer: `PUSH`,
/// the calls and the restarts.
pub open spec fn pushes(op: u8) -> bool {
    op == 0xc5 || op == 0xd5 || op == 0xe5 || op == 0xf5 || is_call(op) || op == 0xc7 || op == 0xcf
        || op == 0xd7 || op == 0xdf || op == 0xe7 || op == 0xef || op == 0xf7 || op == 0xff
}

/// Instructions that read a word at the stack pointer: `POP`, the returns
/// and `XTHL`.
pub open spec fn pops(op: u8) -> bool {
    op == 0xc1 || op == 0xd1 || op == 0xe1 || op == 0xf1 || op == 0xc9 || op == 0xd8 || op == 0xd0
        || op == 0xc8 || op == 0xc0 || op == 0xf8 || op == 0xf0 || op == 0xe8 || op == 0xe0 || op
        == 0xe3
}

/// Whether the next slice stays within the emulator's 16-bit address
/// arithmetic: the instruction and its operands end within memory, a push
/// does not wrap a word across the top of memory, a pop does not read a
/// word from the last address, nor does `LHLD` or `SHLD`, the cycle count
/// cannot pass the largest 32-bit value, and no trace is written (the trace
/// reads a word at the stack pointer whatever the instruction).
pub open spec fn slice_in_range(cpu: CPU) -> bool {
    let pc = program_counter_of(cpu);
    let sp = stack_pointer_of(cpu);
    let mem = memory_of(cpu);
    let op = next_opcode(cpu);
    &&& pc + instruction_length(op) <= HALT_ADDRESS
    &&& pushes(op) ==> sp != 1
    &&& pops(op) ==> sp != 0xffff
    &&& slice_max_cycles_of(cpu) <= MAX_SLICE_CYCLES
    &&& (op == OPCODE_SHLD || op == OPCODE_LHLD) ==> !(mem[pc + 1] == 0xff && mem[pc + 2] == 0xff)
    &&& !debug_enabled_of(cpu)
}

fn three_byte(op: u8) -> (r: bool)
    ensures
        r == is_three_byte(op),
{
    op == 0x01 || op == 0x11 || op == 0x21 || op == 0x31 || op == 0x22 || op == 0x2a || op == 0x32
        || op == 0x3a || op == 0xc3 || op == 0xda || op == 0xd2 || op == 0xca || op == 0xc2 || op
        == 0xfa || op == 0xf2 || op == 0xea || op == 0xe2 || call(op)
}

fn two_byte(op: u8) -> (r: bool)
    ensures
        r == is_two_byte(op),
{
    op == 0x06 || op == 0x0e || op == 0x16 || op == 0x1e || op == 0x26 || op == 0x2e || op == 0x36
        || op == 0x3e || op == 0xc6 || op == 0xce || op == 0xd6 || op == 0xde || op == 0xe6 || op
        == 0xee || op == 0xf6 || op == 0xfe || op == 0xdb || op == 0xd3
}

fn call(op: u8) -> (r: bool)
    ensures
        r == is_call(op),
{
    op == 0xcd || op == 0xdc || op == 0xd4 || op == 0xcc || op == 0xc4 || op == 0xfc || op == 0xf4
        || op == 0xec || op == 0xe4
}

fn length_of(op: u8) -> (r: u16)
    ensures
        r == instruction_length(op),
{
    if three_byte(op) {
        3
    } else if two_byte(op) {
        2
    } else {
        1
    }
}

fn writes_below_stack(op: u8) -> (r: bool)
    ensures
        r == pushes(op),
{
    op == 0xc5 || op == 0xd5 || op == 0xe5 || op == 0xf5 || call(op) || op == 0xc7 || op == 0xcf
        || op == 0xd7 || op == 0xdf || op == 0xe7 || op == 0xef || op == 0xf7 || op == 0xff
}

fn reads_at_stack(op: u8) -> (r: bool)
    ensures
        r == pops(op),
{
    op == 0xc1 || op == 0xd1 || op == 0xe1 || op == 0xf1 || op == 0xc9 || op == 0xd8 || op == 0xd0
        || op == 0xc8 || op == 0xc0 || op == 0xf8 || op == 0xf0 || op == 0xe8 || op == 0xe0 || op
        == 0xe3
}

/// Relies on intel8080's `CPU::new`: 256 input values and 64 KiB of memory,
/// all zero; program counter, stack pointer and registers at zero, flags
/// clear;
/// interrupts off and none pending; no trace; a cycle budget of 35000; no
/// read-only range.
#[verifier::external_body]
fn new_cpu() -> (r: CPU)
    ensures
        input_ports(r) == Seq::new(PORT_COUNT as nat, |i: int| 0u8),
        memory_of(r) == Seq::new(MEMORY_SIZE as nat, |i: int| 0u8),
        program_counter_of(r) == 0,
        stack_pointer_of(r) == 0,
        registers_of(r) == (0u8, 0u8, 0u8, 0u8, 0u8, 0u8, 0u8),
        flags_of(r) == (false, false, false, false, false),
        !interrupts_enabled_of(r),
        interrupt_request_of(r) == (false, 0u8),
        !debug_enabled_of(r),
        slice_max_cycles_of(r) == DEFAULT_SLICE_CYCLES,
        rom_space_of(r).is_none(),
{
    CPU::new()
}

/// Relies on intel8080's `AddressBus::rom_space` field: marking an address
/// range read-only changes nothing else.
#[verifier::external_body]
fn set_rom_space(cpu: &mut CPU, start: u16, end: u16)
    ensures
        input_ports(*final(cpu)) == input_ports(*old(cpu)),
        same_core(*old(cpu), *final(cpu)),
        rom_space_of(*final(cpu)) == Some((start, end)),
{
    cpu.bus.rom_space = Some(ROMSpace { start, end });
}

/// Relies on intel8080's `CPU::execute_slice`: the bus keeps one input value
/// per device; anything else may change, through the program and the
/// callbacks it triggers. A slice executes one instruction, and the
/// emulator's unchecked additions on the program counter, the stack pointer,
/// operand addresses, the cycle count and the trace stay in range whenever
/// `slice_in_range` holds (they would overflow and panic otherwise). The
/// output callback that the program may trigger is this crate's caller's,
/// and is taken not to panic.
#[verifier::external_body]
fn execute_slice(cpu: &mut CPU)
    requires
        slice_in_range(*old(cpu)),
    ensures
        input_ports(*final(cpu)).len() == PORT_COUNT as nat,
        slice_executed(*old(cpu), *final(cpu)),
{
    cpu.execute_slice();
}

/// Relies on intel8080's `CPU::pc` field.
#[verifier::external_body]
fn program_counter(cpu: &CPU) -> (r: u16)
    ensures
        r == program_counter_of(*cpu),
{
    cpu.pc
}

/// Relies on intel8080's `CPU::sp` field.
#[verifier::external_body]
fn stack_pointer(cpu: &CPU) -> (r: u16)
    ensures
        r == stack_pointer_of(*cpu),
{
    cpu.sp
}

/// Relies on intel8080's `AddressBus::read_byte`: the byte at that address
/// of the 64 KiB address space.
#[verifier::external_body]
fn read_byte(cpu: &CPU, address: u16) -> (r: u8)
    ensures
        r == memory_of(*cpu)[address as int],
{
    cpu.bus.read_byte(address)
}

/// Relies on intel8080's `CPU::inte` field.
#[verifier::external_body]
fn interrupts_enabled(cpu: &CPU) -> (r: bool)
    ensures
        r == interrupts_enabled_of(*cpu),
{
    cpu.inte
}

/// Relies on intel8080's `CPU::int` field.
#[verifier::external_body]
fn interrupt_request(cpu: &CPU) -> (r: (bool, u8))
    ensures
        r == interrupt_request_of(*cpu),
{
    cpu.int
}

/// Relies on intel8080's `CPU::slice_max_cycles` field.
#[verifier::external_body]
fn slice_max_cycles(cpu: &CPU) -> (r: u32)
    ensures
        r == slice_max_cycles_of(*cpu),
{
    cpu.slice_max_cycles
}

/// Relies on intel8080's `Debug::switch` field of `CPU::debug`.
#[verifier::external_body]
fn debug_enabled(cpu: &CPU) -> (r: bool)
    ensures
        r == debug_enabled_of(*cpu),
{
    cpu.debug.switch
}

/// Relies on intel8080's `AddressBus::set_io_in`: it stores the value for
/// that device in the bus's 256-entry input table and changes nothing else.
#[verifier::external_body]
fn set_io_in(cpu: &mut CPU, device: u8, value: u8)
    ensures
        input_ports(*old(cpu)).len() == PORT_COUNT as nat,
        input_ports(*final(cpu)) == input_ports(*old(cpu)).update(device as int, value),
        same_but_ports(*old(cpu), *final(cpu)),
{
    cpu.bus.set_io_in(device, value);
}

/// A machine set up for the console: the last byte of the address space
/// read-only (so that memory sizing stops there), the sense switches at
/// zero (serial console board) and no key waiting. Its first slice can run.
pub fn new_machine() -> (r: CPU)
    ensures
        input_ports(r) == Seq::new(PORT_COUNT as nat, |i: int| 0u8),
        input_ports(r)[SWITCH_PORT as int] == 0,
        memory_of(r) == Seq::new(MEMORY_SIZE as nat, |i: int| 0u8),
        program_counter_of(r) == 0,
        stack_pointer_of(r) == 0,
        !interrupts_enabled_of(r),
        !debug_enabled_of(r),
        slice_max_cycles_of(r) == DEFAULT_SLICE_CYCLES,
        rom_space_of(r) == Some((HALT_ADDRESS, HALT_ADDRESS)),
        slice_in_range(r),
{
    let mut cpu = new_cpu();
    set_rom_space(&mut cpu, HALT_ADDRESS, HALT_ADDRESS);
    set_io_in(&mut cpu, SWITCH_PORT, 0x00);
    assert(input_ports(cpu) =~= Seq::new(PORT_COUNT as nat, |i: int| 0u8));
    cpu
}

/// Whether the next slice stays within the emulator's address arithmetic.
pub fn can_run_slice(cpu: &CPU) -> (r: bool)
    ensures
        r == slice_in_range(*cpu),
{
    if debug_enabled(cpu) || slice_max_cycles(cpu) > MAX_SLICE_CYCLES {
        return false;
    }
    let pc = program_counter(cpu);
    let sp = stack_pointer(cpu);
    let request = interrupt_request(cpu);
    let op = if interrupts_enabled(cpu) && request.0 {
        request.1
    } else {
        read_byte(cpu, pc)
    };
    if pc > HALT_ADDRESS - length_of(op) {
        return false;
    }
    if writes_below_stack(op) && sp == 1 {
        return false;
    }
    if reads_at_stack(op) && sp == 0xffff {
        return false;
    }
    if op == OPCODE_SHLD || op == OPCODE_LHLD {
        !(read_byte(cpu, pc + 1) == 0xff && read_byte(cpu, pc + 2) == 0xff)
    } else {
        true
    }
}

/// Runs one slice of emulation; the result tells whether emulation goes on.
/// A slice that would leave the emulator's address arithmetic is not run,
/// and emulation stops there with the machine untouched; otherwise it goes
/// on while the program counter is not at the halt address.
pub fn run_slice(cpu: &mut CPU) -> (running: bool)
    ensures
        !slice_in_range(*old(cpu)) ==> !running && *final(cpu) == *old(cpu),
        slice_in_range(*old(cpu)) ==> running == (program_counter_of(*final(cpu))
            != HALT_ADDRESS),
        slice_in_range(*old(cpu)) ==> input_ports(*final(cpu)).len() == PORT_COUNT as nat,
        slice_in_range(*old(cpu)) ==> slice_executed(*old(cpu), *final(cpu)),
{
    if !can_run_slice(cpu) {
        return false;
    }
    execute_slice(cpu);
    program_counter(cpu) != HALT_ADDRESS
}

/// Hands one byte to the program: the status device reads "busy" and the
/// data device holds the byte.
pub fn deliver_byte(cpu: &mut CPU, b: u8)
    ensures
        input_ports(*final(cpu)) == input_ports(*old(cpu)).update(STATUS_PORT as int, 0).update(
            DATA_PORT as int,
            b,
        ),
        input_ports(*final(cpu)).len() == PORT_COUNT as nat,
        same_but_ports(*old(cpu), *final(cpu)),
{
    set_io_in(cpu, STATUS_PORT, 0);
    set_io_in(cpu, DATA_PORT, b);
}

/// Whether a 7-bit value is shown on the terminal: visible characters from
/// space to `}`, line feed and carriage return.
pub open spec fn is_displayable(v: u8) -> bool {
    (32 <= v && v <= 125) || v == 0x0a || v == 0x0d
}

/// What an output instruction shows on the terminal: on the console device,
/// the value without its high bit, if that is displayable; nothing otherwise.
pub open spec fn displayed(device: u8, data: u8) -> Option<u8> {
    if device == OUTPUT_DEVICE && is_displayable(data & 0x7f) {
        Some(data & 0x7f)
    } else {
        None
    }
}

/// The character that an output instruction shows, if any.
pub fn display_value(device: u8, data: u8) -> (r: Option<u8>)
    ensures
        r == displayed(device, data),
{
    if device == OUTPUT_DEVICE {
        let v = data & 0x7f;
        if (32 <= v && v <= 125) || v == 0x0a || v == 0x0d {
            Some(v)
        } else {
            None
        }
    } else {
        None
    }
}

/// Handles an output instruction: returns the character to show, if any,
/// and when there is one, sets the status device to "ready" for the next
/// key. Other values and devices leave the machine as it was.
pub fn output_gate(cpu: &mut CPU, device: u8, data: u8) -> (r: Option<u8>)
    ensures
        r == displayed(device, data),
        r.is_some() ==> input_ports(*final(cpu)) == input_ports(*old(cpu)).update(
            STATUS_PORT as int,
            1,
        ),
        r.is_some() ==> same_but_ports(*old(cpu), *final(cpu)),
        r.is_none() ==> *final(cpu) == *old(cpu),
{
    let r = display_value(device, data);
    if r.is_some() {
        set_io_in(cpu, STATUS_PORT, 1);
    }
    r
}

} // verus!
