use malbolge::init;
use malbolge::Machine;
use malbolge::RunStatus;
use malbolge::StepResult;

fn boot(src: &[u8]) -> Machine {
    let bytes: Vec<u8> = src.to_vec();
    Machine::new(init(&bytes).unwrap())
}

#[test]
fn halts_on_non_printable_cell_without_stop_opcode() {
    // Cell 2 of this image is 29438, far outside the printable range,
    // so the third fetch halts the machine on its own.
    let mut m = boot(b"(b");
    let no_input: Vec<u8> = Vec::new();
    let (out, status) = m.execute(&no_input, 100);
    assert_eq!(status, RunStatus::Halted);
    assert_eq!(out, vec![0u8]);
    assert!(m.is_halted());
    assert_eq!(m.code_pointer(), 2);
}

#[test]
fn two_byte_program_cycle_by_cycle() {
    let mut m = boot(b"(b");
    // Cycle 1: '(' at position 0 loads the data pointer from cell 0.
    assert_eq!(m.step(None), StepResult::Continue);
    assert_eq!(m.data_pointer(), 41);
    assert_eq!(m.code_pointer(), 1);
    assert_eq!(m.cell(0), 121);
    // Cycle 2: 'b' at position 1 emits the data register's low byte.
    assert_eq!(m.step(None), StepResult::Output(0));
    assert_eq!(m.cell(1), 84);
    // Cycle 3: cell 2 is not printable, so the machine halts.
    assert_eq!(m.step(None), StepResult::Halt);
    assert!(m.is_halted());
    assert_eq!(m.step(None), StepResult::Halt);
}

#[test]
fn hello_world_regression() {
    let src = b"(=<`#9]~6ZY32Vx/4Rs+0No-&Jk)\"Fh}|Bcy?`=*z]Kw%oG4UUS0/@-ejc(:'8dc";
    let mut m = boot(src);
    let no_input: Vec<u8> = Vec::new();
    let (out, status) = m.execute(&no_input, 1000);
    assert_eq!(status, RunStatus::Halted);
    assert_eq!(out, b"Hello World!".to_vec());
}

#[test]
fn input_at_end_of_stream_loads_sentinel() {
    // 'u' at position 0 is the input instruction.
    let mut m = boot(b"ub");
    assert!(m.needs_input());
    assert_eq!(m.step(None), StepResult::Continue);
    assert_eq!(m.data_register(), 59048);
    // The following output instruction emits the sentinel's low byte.
    assert_eq!(m.step(None), StepResult::Output(0xA8));
    assert_eq!(m.step(None), StepResult::Halt);
}

#[test]
fn input_byte_is_loaded_into_data_register() {
    let mut m = boot(b"ub");
    assert!(m.needs_input());
    assert_eq!(m.step(Some(65)), StepResult::Continue);
    assert_eq!(m.data_register(), 65);
    assert!(!m.needs_input());
    assert_eq!(m.step(None), StepResult::Output(65));
}

#[test]
fn input_program_end_to_end_with_stream() {
    let mut m = boot(b"ub");
    let input: Vec<u8> = vec![65];
    let (out, status) = m.execute(&input, 100);
    assert_eq!(status, RunStatus::Halted);
    assert_eq!(out, vec![65u8]);
}

#[test]
fn nop_cycle_still_mutates_and_advances() {
    // 'D' at position 0 decodes to 'o', which does nothing of its own.
    let mut m = boot(b"Db");
    assert_eq!(m.step(None), StepResult::Continue);
    assert_eq!(m.data_register(), 0);
    assert_eq!(m.code_pointer(), 1);
    assert_eq!(m.data_pointer(), 1);
    // The executed cell was still rewritten through the mutate table.
    assert_eq!(m.cell(0), 33);
}

#[test]
fn stop_opcode_halts_before_mutation() {
    // 'Q' at position 0 decodes to the stop instruction.
    let mut m = boot(b"Qb");
    assert_eq!(m.step(None), StepResult::Halt);
    assert!(m.is_halted());
    assert_eq!(m.cell(0), 81);
    assert_eq!(m.code_pointer(), 0);
    assert_eq!(m.data_pointer(), 0);
}

#[test]
fn mutation_out_of_range_faults_without_state_change() {
    // ''' at position 0 rotates cell 0 (39 becomes 13, not printable)
    // in place, which leaves the mutate table nothing to rewrite.
    let mut m = boot(b"'&");
    assert_eq!(m.step(None), StepResult::Fault);
    assert!(m.is_halted());
    assert_eq!(m.cell(0), 39);
    assert_eq!(m.data_register(), 0);
    assert_eq!(m.code_pointer(), 0);
}

#[test]
fn out_of_fuel_reports_itself() {
    let mut m = boot(b"(b");
    let no_input: Vec<u8> = Vec::new();
    let (out, status) = m.execute(&no_input, 1);
    assert_eq!(status, RunStatus::OutOfFuel);
    assert_eq!(out, Vec::<u8>::new());
}
