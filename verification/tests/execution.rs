use mips_sim::encoding::encode_r_type;
use mips_sim::machine::{MipsSimulator, StepOutcome};

fn to_lines(src: &[&str]) -> Vec<String> {
    src.iter().map(|s| s.to_string()).collect()
}

fn run_program(src: &[&str]) -> MipsSimulator {
    let mut sim = MipsSimulator::new();
    sim.load_program(&to_lines(src)).unwrap();
    sim.assemble_program().unwrap();
    sim.run(10_000);
    sim
}

#[test]
fn end_to_end_addition() {
    // addi / addi / add, then halt: $t2 ends up holding 8
    let sim = run_program(&[
        "addi $t0, $zero, 5",
        "addi $t1, $zero, 3",
        "add $t2, $t0, $t1",
    ]);
    assert_eq!(sim.registers[8], 5);
    assert_eq!(sim.registers[9], 3);
    assert_eq!(sim.registers[10], 8);
    assert_eq!(sim.pc, 3);
}

#[test]
fn alu_add_five_plus_three_is_eight() {
    let mut sim = MipsSimulator::new();
    sim.registers[9] = 5; // rs
    sim.registers[10] = 3; // rt
    let d = sim.instruction_decode(encode_r_type(9, 10, 8, 32));
    sim.execute_add(d);
    assert_eq!(sim.registers[8], 8);
}

#[test]
fn alu_operations() {
    let sim = run_program(&[
        "addi $t0, $zero, 12",
        "addi $t1, $zero, 10",
        "sub $t2, $t0, $t1",
        "and $t3, $t0, $t1",
        "or $t4, $t0, $t1",
    ]);
    assert_eq!(sim.registers[10], 2);
    assert_eq!(sim.registers[11], 12 & 10);
    assert_eq!(sim.registers[12], 12 | 10);
}

#[test]
fn slt_yields_one_iff_strictly_less() {
    let sim = run_program(&[
        "addi $t0, $zero, 3",
        "addi $t1, $zero, 5",
        "slt $t2, $t0, $t1", // 3 < 5: 1
        "slt $t3, $t1, $t0", // 5 < 3: 0
        "slt $t4, $t0, $t0", // 3 < 3: 0
    ]);
    assert_eq!(sim.registers[10], 1);
    assert_eq!(sim.registers[11], 0);
    assert_eq!(sim.registers[12], 0);
}

#[test]
fn memory_round_trip_store_then_load() {
    // sw $t0, 0($t1) then lw $t2, 0($t1) with $t1 unchanged:
    // $t2 ends up holding what $t0 held at the store
    let sim = run_program(&[
        "addi $t1, $zero, 100",
        "addi $t0, $zero, 7",
        "sw $t0, 0($t1)",
        "lw $t2, 0($t1)",
    ]);
    assert_eq!(sim.registers[10], 7);
    assert_eq!(sim.memory.get(&100), Some(&7));
}

#[test]
fn data_section_word_is_loadable() {
    let sim = run_program(&[".data", "x: .word 42", ".text", "lw $t0, x"]);
    assert_eq!(sim.registers[8], 42);
}

#[test]
fn taken_branch_lands_on_label() {
    // beq with equal registers skips the addi that would set $t3
    let sim = run_program(&[
        "addi $t0, $zero, 1",
        "addi $t1, $zero, 1",
        "beq $t0, $t1, done",
        "addi $t3, $zero, 99",
        "done:",
        "addi $t4, $zero, 5",
    ]);
    assert_eq!(sim.registers[11], 0);
    assert_eq!(sim.registers[12], 5);
}

#[test]
fn untaken_branch_falls_through() {
    let sim = run_program(&[
        "addi $t0, $zero, 1",
        "addi $t1, $zero, 2",
        "beq $t0, $t1, done",
        "addi $t3, $zero, 99",
        "done:",
    ]);
    assert_eq!(sim.registers[11], 99);
}

#[test]
fn backward_branch_loops() {
    // counts $t0 down from 3 to 0 by looping backwards
    let sim = run_program(&[
        "addi $t0, $zero, 3",
        "addi $t1, $zero, -1",
        "loop:",
        "beq $t0, $zero, end",
        "add $t0, $t0, $t1",
        "j loop",
        "end:",
    ]);
    assert_eq!(sim.registers[8], 0);
}

#[test]
fn jump_sets_pc_to_word_index() {
    let sim = run_program(&["j skip", "addi $t0, $zero, 1", "skip:", "addi $t1, $zero, 2"]);
    assert_eq!(sim.registers[8], 0);
    assert_eq!(sim.registers[9], 2);
}

#[test]
fn run_respects_step_budget() {
    let mut sim = MipsSimulator::new();
    sim.load_program(&to_lines(&["loop:", "j loop"])).unwrap();
    sim.assemble_program().unwrap();
    let steps = sim.run(10);
    assert_eq!(steps, 10);
    assert_eq!(sim.pc, 0);
}

#[test]
fn step_reports_halt_past_program_end() {
    let mut sim = MipsSimulator::new();
    assert_eq!(sim.step(), StepOutcome::Halted);
}

#[test]
fn unmapped_read_is_reported_and_register_kept() {
    let mut sim = MipsSimulator::new();
    sim.load_program(&to_lines(&["lw $t0, 4($zero)"])).unwrap();
    sim.assemble_program().unwrap();
    sim.registers[8] = 123;
    assert_eq!(sim.step(), StepOutcome::ReadMiss(4));
    // the failed read left the target register unchanged, and execution went on
    assert_eq!(sim.registers[8], 123);
    assert_eq!(sim.pc, 1);
}

#[test]
fn unknown_opcode_is_skipped() {
    let mut sim = MipsSimulator::new();
    sim.binary_program.push(63u32 << 26);
    assert_eq!(sim.step(), StepOutcome::UnknownOpcode(63));
    assert_eq!(sim.pc, 1);
}

#[test]
fn unknown_funct_is_skipped() {
    let mut sim = MipsSimulator::new();
    sim.binary_program.push(encode_r_type(1, 2, 3, 63));
    assert_eq!(sim.step(), StepOutcome::UnknownFunct(63));
    assert_eq!(sim.pc, 1);
}

#[test]
fn addition_wraps_like_the_machine() {
    let sim = run_program(&[
        "addi $t0, $zero, 32767", // build i32::MAX in $t0
        "addi $t1, $zero, 1",
        "add $t2, $t0, $t1",
    ]);
    assert_eq!(sim.registers[10], 32768);
    let mut sim = MipsSimulator::new();
    sim.registers[8] = i32::MAX;
    sim.registers[9] = 1;
    let d = sim.instruction_decode(encode_r_type(8, 9, 10, 32));
    sim.execute_add(d);
    assert_eq!(sim.registers[10], i32::MIN);
}

#[test]
fn fresh_simulator_state() {
    let sim = MipsSimulator::new();
    assert_eq!(sim.registers.len(), 32);
    assert!(sim.registers.iter().all(|&r| r == 0));
    assert!(sim.memory.is_empty());
    assert_eq!(sim.pc, 0);
    assert!(sim.binary_program.is_empty());
    assert_eq!(sim.get_register_name(8), "$t0");
    assert_eq!(sim.get_register_index("$t0").unwrap(), 8);
    assert!(sim.get_register_index("$oops").is_err());
}
