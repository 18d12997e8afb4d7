use synacor_vm::errors::{ImageError, SynacorError};
use synacor_vm::loader::load_image;
use synacor_vm::machine::{VirtualMachine, YieldReason};

fn bytes_of(words: &[u16]) -> Vec<u8> {
    let mut bytes = Vec::new();
    for w in words {
        bytes.push((w & 0xFF) as u8);
        bytes.push((w >> 8) as u8);
    }
    bytes
}

fn machine(words: &[u16]) -> VirtualMachine {
    VirtualMachine::from_bytes(&bytes_of(words)).unwrap()
}

fn register_after(words: &[u16], index: usize) -> u16 {
    let mut vm = machine(words);
    assert_eq!(vm.execute(), Ok(YieldReason::Halted));
    vm.register(index).unwrap()
}

#[test]
fn loader_reads_little_endian_words() {
    let memory = load_image(&[0x13, 0x00, 0x15, 0x00, 0x00, 0x00]).unwrap();
    assert_eq!(memory.len(), 32776);
    assert_eq!(&memory[..3], &[0x0013, 0x0015, 0x0000]);
    assert!(memory[3..].iter().all(|w| *w == 0));
}

#[test]
fn loader_image_runs() {
    let mut vm = VirtualMachine::from_bytes(&[0x13, 0x00, 0x15, 0x00, 0x00, 0x00]).unwrap();
    assert_eq!(vm.execute(), Ok(YieldReason::Halted));
    assert_eq!(vm.flush_stdout(), "\u{15}");
}

#[test]
fn loader_high_byte_first_word() {
    let memory = load_image(&[0x34, 0x12]).unwrap();
    assert_eq!(memory[0], 0x1234);
}

#[test]
fn loader_rejects_odd_length() {
    assert_eq!(
        load_image(&[1, 0, 2]),
        Err(SynacorError::ParseError(ImageError::OddLength(3)))
    );
    assert!(VirtualMachine::from_bytes(&[7]).is_err());
}

#[test]
fn loader_rejects_oversized_image() {
    let bytes = vec![0u8; 2 * 32769];
    assert_eq!(
        load_image(&bytes),
        Err(SynacorError::ParseError(ImageError::TooLarge(32769)))
    );
}

#[test]
fn loader_accepts_full_memory() {
    let bytes = vec![0u8; 2 * 32768];
    assert_eq!(load_image(&bytes).unwrap().len(), 32776);
}

#[test]
fn loader_accepts_empty_image() {
    let mut vm = VirtualMachine::from_bytes(&[]).unwrap();
    assert_eq!(vm.execute(), Ok(YieldReason::Halted));
    assert_eq!(vm.flush_stdout(), "");
}

#[test]
fn not_of_zero_and_of_all_ones() {
    assert_eq!(register_after(&[14, 32768, 0, 0], 0), 0x7FFF);
    assert_eq!(register_after(&[14, 32768, 0x7FFF, 0], 0), 0);
}

#[test]
fn add_wraps_modulo_32768() {
    assert_eq!(register_after(&[9, 32768, 32760, 10, 0], 0), 2);
}

#[test]
fn mul_wraps_modulo_32768() {
    assert_eq!(register_after(&[10, 32768, 1000, 1000, 0], 0), 16960);
}

#[test]
fn mod_by_one_is_zero() {
    for a in [0u16, 1, 7, 12345, 32767] {
        assert_eq!(register_after(&[11, 32768, a, 1, 0], 0), 0);
    }
    assert_eq!(register_after(&[11, 32768, 17, 5, 0], 0), 2);
}

#[test]
fn mod_by_zero_faults() {
    let mut vm = machine(&[11, 32768, 5, 0, 0]);
    assert_eq!(vm.execute(), Err(SynacorError::InvalidArgument(0)));
    assert_eq!(vm.pointer(), 0);
}

#[test]
fn two_noops_then_halt() {
    let mut vm = machine(&[21, 21, 0]);
    assert_eq!(vm.execute(), Ok(YieldReason::Halted));
    assert_eq!(vm.flush_stdout(), "");
}

#[test]
fn outputs_two_characters() {
    let mut vm = machine(&[19, 65, 19, 66, 0]);
    assert_eq!(vm.execute(), Ok(YieldReason::Halted));
    assert_eq!(vm.flush_stdout(), "AB");
}

#[test]
fn set_register_then_output_it() {
    let mut vm = machine(&[1, 32768, 5, 19, 32768, 0]);
    assert_eq!(vm.execute(), Ok(YieldReason::Halted));
    assert_eq!(vm.register(0), Some(5));
    assert_eq!(vm.flush_stdout(), "\u{5}");
}

#[test]
fn input_suspends_then_resumes() {
    let mut vm = machine(&[20, 32768, 19, 32768, 0]);
    assert_eq!(vm.execute(), Ok(YieldReason::InputRequired));
    vm.write_stdin("X".to_string());
    assert_eq!(vm.execute(), Ok(YieldReason::Halted));
    assert_eq!(vm.flush_stdout(), "X");
}

#[test]
fn add_into_register_then_output_low_byte() {
    let mut vm = machine(&[9, 32768, 32768, 32767, 19, 32768, 0]);
    assert_eq!(vm.register(0), Some(0));
    assert_eq!(vm.execute(), Ok(YieldReason::Halted));
    assert_eq!(vm.register(0), Some(32767));
    assert_eq!(vm.flush_stdout(), "\u{FF}");
}

#[test]
fn call_and_return() {
    let mut vm = machine(&[17, 4, 19, 65, 18]);
    assert_eq!(vm.execute(), Ok(YieldReason::Halted));
    assert_eq!(vm.flush_stdout(), "A");
}

#[test]
fn suspension_is_idempotent() {
    let mut vm = machine(&[19, 62, 20, 32768, 0]);
    assert_eq!(vm.execute(), Ok(YieldReason::InputRequired));
    assert_eq!(vm.pointer(), 2);
    assert_eq!(vm.execute(), Ok(YieldReason::InputRequired));
    assert_eq!(vm.pointer(), 2);
    assert_eq!(vm.register(0), Some(0));
    assert_eq!(vm.flush_stdout(), ">");
    assert_eq!(vm.execute(), Ok(YieldReason::InputRequired));
    assert_eq!(vm.flush_stdout(), "");
}

#[test]
fn input_is_first_in_first_out() {
    let mut vm = machine(&[20, 32768, 20, 32769, 20, 32770, 0]);
    vm.write_stdin("XY".to_string());
    assert_eq!(vm.execute(), Ok(YieldReason::InputRequired));
    assert_eq!(vm.pointer(), 4);
    vm.write_stdin("Z".to_string());
    assert_eq!(vm.execute(), Ok(YieldReason::Halted));
    assert_eq!(vm.register(0), Some('X' as u16));
    assert_eq!(vm.register(1), Some('Y' as u16));
    assert_eq!(vm.register(2), Some('Z' as u16));
}

#[test]
fn empty_input_batch_changes_nothing() {
    let mut vm = machine(&[20, 32768, 0]);
    vm.write_stdin(String::new());
    assert_eq!(vm.execute(), Ok(YieldReason::InputRequired));
    assert_eq!(vm.pointer(), 0);
}

#[test]
fn output_accumulates_across_calls_until_drained() {
    let mut vm = machine(&[19, 97, 20, 32768, 19, 32768, 0]);
    assert_eq!(vm.execute(), Ok(YieldReason::InputRequired));
    vm.write_stdin("b".to_string());
    assert_eq!(vm.execute(), Ok(YieldReason::Halted));
    assert_eq!(vm.flush_stdout(), "ab");
    assert_eq!(vm.flush_stdout(), "");
}

#[test]
fn push_pop_and_comparisons() {
    // push 7; pop r1; eq r2 r1 7; gt r3 r1 3; gt r4 3 r1
    let words = [2, 7, 3, 32769, 4, 32770, 32769, 7, 5, 32771, 32769, 3, 5, 32772, 3, 32769, 0];
    assert_eq!(register_after(&words, 1), 7);
    assert_eq!(register_after(&words, 2), 1);
    assert_eq!(register_after(&words, 3), 1);
    assert_eq!(register_after(&words, 4), 0);
}

#[test]
fn bitwise_and_or() {
    assert_eq!(register_after(&[12, 32768, 0b1100, 0b1010, 0], 0), 0b1000);
    assert_eq!(register_after(&[13, 32768, 0b1100, 0b1010, 0], 0), 0b1110);
}

#[test]
fn conditional_jumps() {
    // jt 1 5; out 'x'; out 'y'; halt
    let mut vm = machine(&[7, 1, 5, 19, 120, 19, 121, 0]);
    assert_eq!(vm.execute(), Ok(YieldReason::Halted));
    assert_eq!(vm.flush_stdout(), "y");
    // jt 0 5 falls through
    let mut vm = machine(&[7, 0, 5, 19, 120, 19, 121, 0]);
    assert_eq!(vm.execute(), Ok(YieldReason::Halted));
    assert_eq!(vm.flush_stdout(), "xy");
    // jf 0 5 jumps
    let mut vm = machine(&[8, 0, 5, 19, 120, 19, 121, 0]);
    assert_eq!(vm.execute(), Ok(YieldReason::Halted));
    assert_eq!(vm.flush_stdout(), "y");
}

#[test]
fn indirect_write_then_read() {
    // wmem 100 65; rmem r0 100; out r0; halt
    let mut vm = machine(&[16, 100, 65, 15, 32768, 100, 19, 32768, 0]);
    assert_eq!(vm.execute(), Ok(YieldReason::Halted));
    assert_eq!(vm.flush_stdout(), "A");
}

#[test]
fn indirect_read_outside_memory_faults() {
    // rmem r0 5 (reads 40000); rmem r1 r0
    let mut vm = machine(&[15, 32768, 6, 15, 32769, 32768, 40000]);
    assert_eq!(vm.execute(), Err(SynacorError::InvalidAddress(40000)));
    assert_eq!(vm.pointer(), 3);
}

#[test]
fn jump_outside_memory_faults() {
    // rmem r0 4 (reads 32770); jmp r0
    let mut vm = machine(&[15, 32768, 4, 6, 32768]);
    assert_eq!(vm.execute(), Err(SynacorError::InvalidAddress(32768)));
}

#[test]
fn pop_on_empty_stack_faults() {
    let mut vm = machine(&[3, 32768]);
    assert_eq!(vm.execute(), Err(SynacorError::EmptyStack));
    assert_eq!(vm.pointer(), 0);
}

#[test]
fn reserved_operand_faults() {
    let mut vm = machine(&[19, 40000]);
    assert_eq!(vm.execute(), Err(SynacorError::InvalidArgument(40000)));
}

#[test]
fn unknown_opcode_faults() {
    let mut vm = machine(&[21, 22]);
    assert_eq!(vm.execute(), Err(SynacorError::UnsupportedOpCode(22)));
    assert_eq!(vm.pointer(), 1);
}

#[test]
fn write_to_literal_faults_and_keeps_stack() {
    let mut vm = machine(&[2, 9, 3, 5, 0]);
    assert_eq!(vm.execute(), Err(SynacorError::WriteToLiteral(5)));
    assert_eq!(vm.pointer(), 2);
    assert_eq!(vm.execute(), Err(SynacorError::WriteToLiteral(5)));
}

#[test]
fn step_budget_preempts() {
    let mut vm = machine(&[6, 0]);
    assert_eq!(vm.execute_for(3), Ok(YieldReason::Preempted));
    assert_eq!(vm.pointer(), 0);
    let mut vm = machine(&[21, 21, 21, 0]);
    assert_eq!(vm.execute_for(2), Ok(YieldReason::Preempted));
    assert_eq!(vm.pointer(), 2);
    assert_eq!(vm.execute_for(5), Ok(YieldReason::Halted));
}

#[test]
fn input_code_is_stored() {
    let mut vm = machine(&[20, 32768, 0]);
    vm.write_stdin("é".to_string());
    assert_eq!(vm.execute(), Ok(YieldReason::Halted));
    assert_eq!(vm.register(0), Some(0xE9));
}

#[test]
fn register_getter_bounds() {
    let vm = machine(&[0]);
    assert_eq!(vm.register(7), Some(0));
    assert_eq!(vm.register(8), None);
}

#[test]
fn halted_stays_halted() {
    let mut vm = machine(&[19, 65, 0]);
    assert_eq!(vm.execute(), Ok(YieldReason::Halted));
    assert_eq!(vm.pointer(), 2);
    assert_eq!(vm.execute(), Ok(YieldReason::Halted));
    assert_eq!(vm.pointer(), 2);
    assert_eq!(vm.flush_stdout(), "A");
    let mut vm = machine(&[18]);
    assert_eq!(vm.execute(), Ok(YieldReason::Halted));
    assert_eq!(vm.execute(), Ok(YieldReason::Halted));
    assert_eq!(vm.pointer(), 0);
}

#[test]
fn arithmetic_results_stay_literal() {
    // add, mul, not, and, or, mod into r0..r5 from large operands
    let words = [
        9, 32768, 32767, 32767, //
        10, 32769, 32767, 32767, //
        14, 32770, 12345, //
        12, 32771, 32767, 32766, //
        13, 32772, 32767, 16384, //
        11, 32773, 32767, 32000, //
        0,
    ];
    let mut vm = machine(&words);
    assert_eq!(vm.execute(), Ok(YieldReason::Halted));
    let values: Vec<u16> = (0..8).map(|i| vm.register(i).unwrap()).collect();
    assert!(values.iter().all(|v| *v < 32768));
    assert_eq!(values[0], 32766);
    assert_eq!(values[1], 1);
    assert_eq!(values[2], 0x7FFF & !12345);
    assert_eq!(values[3], 32766);
    assert_eq!(values[4], 32767);
    assert_eq!(values[5], 767);
}

#[test]
fn program_counter_moves_by_size_or_branch() {
    // noop (1), out (2), eq (4), jmp to 11, then halt at 11
    let mut vm = machine(&[21, 19, 33, 4, 32768, 1, 1, 6, 11, 0, 0, 0]);
    assert_eq!(vm.execute_for(1), Ok(YieldReason::Preempted));
    assert_eq!(vm.pointer(), 1);
    assert_eq!(vm.execute_for(1), Ok(YieldReason::Preempted));
    assert_eq!(vm.pointer(), 3);
    assert_eq!(vm.execute_for(1), Ok(YieldReason::Preempted));
    assert_eq!(vm.pointer(), 7);
    assert_eq!(vm.execute_for(1), Ok(YieldReason::Preempted));
    assert_eq!(vm.pointer(), 11);
    assert_eq!(vm.execute(), Ok(YieldReason::Halted));
}
