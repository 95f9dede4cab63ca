use mips_sim::encoding::{encode_i_type, encode_j_type, encode_r_type};
use mips_sim::errors::AsmErrorKind;
use mips_sim::format::instruction_to_binary;
use mips_sim::machine::MipsSimulator;
use mips_sim::symtab::{DuplicatePolicy, SymbolTable};

fn to_lines(src: &[&str]) -> Vec<String> {
    src.iter().map(|s| s.to_string()).collect()
}

fn assembled(src: &[&str]) -> MipsSimulator {
    let mut sim = MipsSimulator::new();
    sim.load_program(&to_lines(src)).unwrap();
    sim.assemble_program().unwrap();
    sim
}

#[test]
fn assembles_r_type_instructions() {
    let sim = assembled(&["add $t2, $t0, $t1", "sub $t3, $t1, $t0", "slt $t4, $t0, $t1"]);
    assert_eq!(sim.binary_program[0], encode_r_type(8, 9, 10, 32));
    assert_eq!(sim.binary_program[1], encode_r_type(9, 8, 11, 34));
    assert_eq!(sim.binary_program[2], encode_r_type(8, 9, 12, 42));
}

#[test]
fn assembles_addi_with_negative_immediate() {
    let sim = assembled(&["addi $t0, $zero, 5", "addi $t1, $t0, -3"]);
    assert_eq!(sim.binary_program[0], 0x2008_0005);
    assert_eq!(sim.binary_program[1], encode_i_type(8, 8, 9, 0xfffd));
}

#[test]
fn assembles_memory_access_through_data_label() {
    let sim = assembled(&[".data", "x: .word 42", ".text", "lw $t0, x", "sw $t0, x"]);
    // x is allocated at the data base address 0x1000
    assert_eq!(sim.binary_program[0], encode_i_type(35, 0, 8, 0x1000));
    assert_eq!(sim.binary_program[1], encode_i_type(43, 0, 8, 0x1000));
    assert_eq!(sim.memory.get(&0x1000), Some(&42));
}

#[test]
fn assembles_base_offset_syntax() {
    let sim = assembled(&["lw $t2, 8($t1)", "sw $t2, -4($sp)"]);
    assert_eq!(sim.binary_program[0], encode_i_type(35, 9, 10, 8));
    assert_eq!(sim.binary_program[1], encode_i_type(43, 29, 10, 0xfffc));
}

#[test]
fn branch_offset_is_relative_to_next_instruction() {
    let sim = assembled(&["start:", "addi $t0, $zero, 1", "beq $t0, $t0, start"]);
    // beq at index 1, start at index 0: offset = 0 - (1 + 1) = -2
    assert_eq!(sim.binary_program[1], encode_i_type(4, 8, 8, 0xfffe));
}

#[test]
fn forward_branch_offset() {
    let sim = assembled(&["beq $t0, $t1, done", "addi $t0, $zero, 1", "done:", "addi $t1, $zero, 2"]);
    // beq at index 0, done at index 2: offset = 2 - (0 + 1) = 1
    assert_eq!(sim.binary_program[0], encode_i_type(4, 8, 9, 1));
}

#[test]
fn assembles_jump_to_label() {
    let sim = assembled(&["start:", "addi $t0, $zero, 1", "j start"]);
    assert_eq!(sim.binary_program[1], encode_j_type(0));
}

#[test]
fn label_and_instruction_on_one_line() {
    let sim = assembled(&["start: addi $t0, $zero, 1", "j start"]);
    assert_eq!(sim.binary_program.len(), 2);
    assert_eq!(sim.binary_program[1], encode_j_type(0));
}

#[test]
fn comments_and_blank_lines_are_skipped() {
    let sim = assembled(&[
        "# leading comment",
        "",
        "   ",
        "addi $t0, $zero, 7 # trailing comment",
    ]);
    assert_eq!(sim.binary_program.len(), 1);
    assert_eq!(sim.binary_program[0], encode_i_type(8, 0, 8, 7));
}

#[test]
fn defined_labels_never_report_unresolved() {
    let mut sim = MipsSimulator::new();
    sim.load_program(&to_lines(&[
        ".data",
        "v: .word 1",
        ".text",
        "top:",
        "lw $t0, v",
        "beq $t0, $t0, top",
        "j top",
    ]))
    .unwrap();
    assert!(sim.assemble_program().is_ok());
}

#[test]
fn undefined_branch_label_reports_unresolved() {
    let mut sim = MipsSimulator::new();
    sim.load_program(&to_lines(&["beq $t0, $t1, nowhere"])).unwrap();
    let e = sim.assemble_program().unwrap_err();
    assert_eq!(e.kind, AsmErrorKind::UnresolvedLabel);
    assert_eq!(e.token, "nowhere");
}

#[test]
fn undefined_jump_label_reports_unresolved() {
    let mut sim = MipsSimulator::new();
    sim.load_program(&to_lines(&["j missing"])).unwrap();
    let e = sim.assemble_program().unwrap_err();
    assert_eq!(e.kind, AsmErrorKind::UnresolvedLabel);
    assert_eq!(e.token, "missing");
}

#[test]
fn undefined_data_label_reports_unresolved() {
    let mut sim = MipsSimulator::new();
    sim.load_program(&to_lines(&["lw $t0, nodata"])).unwrap();
    let e = sim.assemble_program().unwrap_err();
    assert_eq!(e.kind, AsmErrorKind::UnresolvedLabel);
    assert_eq!(e.token, "nodata");
}

#[test]
fn unknown_mnemonic_is_reported() {
    let mut sim = MipsSimulator::new();
    sim.load_program(&to_lines(&["frobnicate $t0"])).unwrap();
    let e = sim.assemble_program().unwrap_err();
    assert_eq!(e.kind, AsmErrorKind::UnknownMnemonic);
    assert_eq!(e.token, "frobnicate");
}

#[test]
fn unknown_register_is_reported_not_defaulted() {
    let mut sim = MipsSimulator::new();
    sim.load_program(&to_lines(&["add $t0, $t9x, $t1"])).unwrap();
    let e = sim.assemble_program().unwrap_err();
    assert_eq!(e.kind, AsmErrorKind::UnknownRegister);
    assert_eq!(e.token, "$t9x");
}

#[test]
fn non_numeric_immediate_is_reported() {
    let mut sim = MipsSimulator::new();
    sim.load_program(&to_lines(&["addi $t0, $zero, abc"])).unwrap();
    let e = sim.assemble_program().unwrap_err();
    assert_eq!(e.kind, AsmErrorKind::MalformedOperand);
    assert_eq!(e.token, "abc");
}

#[test]
fn immediate_out_of_range_is_reported() {
    let mut sim = MipsSimulator::new();
    sim.load_program(&to_lines(&["addi $t0, $zero, 40000"])).unwrap();
    let e = sim.assemble_program().unwrap_err();
    assert_eq!(e.kind, AsmErrorKind::MalformedOperand);
}

#[test]
fn wrong_operand_count_is_reported() {
    let mut sim = MipsSimulator::new();
    sim.load_program(&to_lines(&["add $t0, $t1"])).unwrap();
    let e = sim.assemble_program().unwrap_err();
    assert_eq!(e.kind, AsmErrorKind::MalformedOperand);
}

#[test]
fn malformed_data_directive_is_reported() {
    let mut sim = MipsSimulator::new();
    let e = sim.load_program(&to_lines(&[".data", "x: .word oops"])).unwrap_err();
    assert_eq!(e.kind, AsmErrorKind::MalformedOperand);
    assert_eq!(e.token, "oops");
}

#[test]
fn failed_encode_keeps_prior_encodings() {
    let mut sim = MipsSimulator::new();
    sim.load_program(&to_lines(&["addi $t0, $zero, 1", "addi $t1, $zero, 2", "bad $t0"]))
        .unwrap();
    assert!(sim.assemble_program().is_err());
    assert_eq!(sim.binary_program.len(), 2);
    assert_eq!(sim.binary_program[0], encode_i_type(8, 0, 8, 1));
    assert_eq!(sim.binary_program[1], encode_i_type(8, 0, 9, 2));
}

#[test]
fn duplicate_label_overwrites_by_default() {
    let sim = assembled(&[
        "lbl:",
        "addi $t0, $zero, 1",
        "lbl:",
        "addi $t0, $zero, 2",
        "j lbl",
    ]);
    // the second definition (instruction index 1) wins
    assert_eq!(sim.binary_program[2], encode_j_type(1));
}

#[test]
fn duplicate_label_rejected_under_strict_policy() {
    let mut sim = MipsSimulator::with_policy(DuplicatePolicy::Reject);
    let e = sim
        .load_program(&to_lines(&["lbl:", "addi $t0, $zero, 1", "lbl:", "addi $t0, $zero, 2"]))
        .unwrap_err();
    assert_eq!(e.kind, AsmErrorKind::DuplicateLabel);
    assert_eq!(e.token, "lbl");
}

#[test]
fn code_and_data_labels_are_separate_namespaces() {
    let sim = assembled(&[
        ".data",
        "same: .word 9",
        ".text",
        "same:",
        "lw $t0, same",
        "j same",
    ]);
    // lw resolves in the data namespace (address 0x1000), j in the code one
    assert_eq!(sim.binary_program[0], encode_i_type(35, 0, 8, 0x1000));
    assert_eq!(sim.binary_program[1], encode_j_type(0));
}

#[test]
fn assembly_is_idempotent() {
    let src = [
        ".data",
        "x: .word 5",
        ".text",
        "top:",
        "lw $t0, x",
        "addi $t1, $zero, 3",
        "add $t2, $t0, $t1",
        "beq $t2, $t0, top",
        "j top",
    ];
    let first = assembled(&src).binary_program.clone();
    let second = assembled(&src).binary_program.clone();
    assert_eq!(first, second);

    // re-assembling the same scanned program in place also reproduces it
    let mut sim = MipsSimulator::new();
    sim.load_program(&to_lines(&src)).unwrap();
    sim.assemble_program().unwrap();
    let once = sim.binary_program.clone();
    sim.binary_program = Vec::new();
    sim.assemble_program().unwrap();
    assert_eq!(once, sim.binary_program);
}

#[test]
fn tokenizer_method_splits_instruction() {
    let sim = MipsSimulator::new();
    let toks = sim.instruction_decode_assembly("add $t0, $t1, $t2");
    assert_eq!(toks, vec!["add", "$t0", "$t1", "$t2"]);
}

#[test]
fn instruction_to_binary_renders_fields() {
    let code = SymbolTable::new(DuplicatePolicy::Overwrite);
    let data = SymbolTable::new(DuplicatePolicy::Overwrite);
    let s = instruction_to_binary("add $t2, $t0, $t1", &code, &data, 0).unwrap();
    assert_eq!(s, "000000 01000 01001 01010 00000 100000");
    let e = instruction_to_binary("j nowhere", &code, &data, 0).unwrap_err();
    assert_eq!(e.kind, AsmErrorKind::UnresolvedLabel);
}

#[test]
fn symbol_table_define_and_lookup() {
    let mut t = SymbolTable::new(DuplicatePolicy::Overwrite);
    assert!(t.lookup("a").is_none());
    t.define("a".to_string(), 3).unwrap();
    t.define("b".to_string(), 7).unwrap();
    assert_eq!(t.lookup("a"), Some(3));
    assert_eq!(t.lookup("b"), Some(7));
    t.define("a".to_string(), 9).unwrap();
    assert_eq!(t.lookup("a"), Some(9));
    assert_eq!(t.label_for_address(7).unwrap(), "b");
    assert!(t.label_for_address(100).is_none());

    let mut strict = SymbolTable::new(DuplicatePolicy::Reject);
    strict.define("a".to_string(), 1).unwrap();
    let e = strict.define("a".to_string(), 2).unwrap_err();
    assert_eq!(e.kind, AsmErrorKind::DuplicateLabel);
    assert_eq!(strict.lookup("a"), Some(1));
}
