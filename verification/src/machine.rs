//! The simulator: architectural state and the fetch-decode-execute cycle.
//!
//! The whole cycle is pinned down by one spec-level transition function,
//! [`spec_step`]; `run` iterates it under an explicit step budget.

use std::collections::HashMap;
use vstd::prelude::*;

use crate::encoding::DecodedInstruction;
use crate::encoding::decode_word;
use crate::encoding::spec_decode;
use crate::numbers::sign_extend;
use crate::numbers::spec_sign_extend;
use crate::numbers::spec_wrap_i32;
use crate::numbers::spec_wrap_u32;
use crate::numbers::wrap_add;
use crate::numbers::wrap_sub;
use crate::registers::register_name_of;
use crate::registers::register_index_of;
use crate::registers::spec_register_name;
use crate::registers::spec_register_index;
use crate::errors::AsmError;
use crate::errors::AsmErrorKind;
use crate::symtab::DuplicatePolicy;
use crate::symtab::SymbolTable;

verus! {

broadcast use vstd::std_specs::hash::group_hash_axioms;

/// Base byte address of the data section.
pub const DATA_BASE_ADDRESS: u32 = 0x1000;

/// Largest representable program: instruction indices must fit the 26-bit
/// jump target field.
pub const MAX_PROGRAM_WORDS: usize = 0x400_0000;

/// What one execution step did.
#[derive(Clone, Copy, PartialEq, Eq, Structural, Debug)]
pub enum StepOutcome {
    /// The program counter was past the end of the program; nothing changed.
    Halted,
    /// An instruction executed normally.
    Executed,
    /// A load targeted an address never written nor declared in `.data`; the
    /// target register was left unchanged and execution continued.
    ReadMiss(u32),
    /// The opcode is not in the supported set; the instruction was skipped.
    UnknownOpcode(u8),
    /// Opcode 0 with a funct code not in the supported set; skipped.
    UnknownFunct(u8),
}

/// The execution-relevant part of the simulator, as mathematical values.
pub ghost struct MachineView {
    pub regs: Seq<i32>,
    pub mem: Map<u32, i32>,
    pub pc: int,
    pub prog: Seq<u32>,
}

/// The wrapped effective address of a memory access: base register plus
/// sign-extended offset, reduced to 32 bits.
pub open spec fn spec_ea(base: i32, imm: u16) -> u32 {
    spec_wrap_u32(base + spec_sign_extend(imm))
}

/// Where a taken branch lands: the instruction after the branch, plus the
/// sign-extended offset, reduced to 32 bits.
pub open spec fn spec_branch_target(pc: int, imm: u16) -> int {
    spec_wrap_u32(pc + 1 + spec_sign_extend(imm)) as int
}

/// The state after executing decoded instruction `d` in state `m`.
/// Only `beq` and `j` may set the program counter to anything but `pc + 1`.
pub open spec fn spec_execute(m: MachineView, d: DecodedInstruction) -> MachineView {
    if d.opcode == 0 {
        let value = if d.funct == 32 {
            spec_wrap_i32(m.regs[d.rs as int] + m.regs[d.rt as int])
        } else if d.funct == 34 {
            spec_wrap_i32(m.regs[d.rs as int] - m.regs[d.rt as int])
        } else if d.funct == 36 {
            m.regs[d.rs as int] & m.regs[d.rt as int]
        } else if d.funct == 37 {
            m.regs[d.rs as int] | m.regs[d.rt as int]
        } else {
            if m.regs[d.rs as int] < m.regs[d.rt as int] {
                1i32
            } else {
                0i32
            }
        };
        if d.funct == 32 || d.funct == 34 || d.funct == 36 || d.funct == 37 || d.funct == 42 {
            MachineView { regs: m.regs.update(d.rd as int, value), mem: m.mem, pc: m.pc + 1, prog: m.prog }
        } else {
            MachineView { regs: m.regs, mem: m.mem, pc: m.pc + 1, prog: m.prog }
        }
    } else if d.opcode == 8 {
        MachineView {
            regs: m.regs.update(
                d.rt as int,
                spec_wrap_i32(m.regs[d.rs as int] + spec_sign_extend(d.immediate)),
            ),
            mem: m.mem,
            pc: m.pc + 1,
            prog: m.prog,
        }
    } else if d.opcode == 35 {
        let a = spec_ea(m.regs[d.rs as int], d.immediate);
        if m.mem.contains_key(a) {
            MachineView { regs: m.regs.update(d.rt as int, m.mem[a]), mem: m.mem, pc: m.pc + 1, prog: m.prog }
        } else {
            MachineView { regs: m.regs, mem: m.mem, pc: m.pc + 1, prog: m.prog }
        }
    } else if d.opcode == 43 {
        let a = spec_ea(m.regs[d.rs as int], d.immediate);
        MachineView {
            regs: m.regs,
            mem: m.mem.insert(a, m.regs[d.rt as int]),
            pc: m.pc + 1,
            prog: m.prog,
        }
    } else if d.opcode == 4 {
        if m.regs[d.rs as int] == m.regs[d.rt as int] {
            MachineView { regs: m.regs, mem: m.mem, pc: spec_branch_target(m.pc, d.immediate), prog: m.prog }
        } else {
            MachineView { regs: m.regs, mem: m.mem, pc: m.pc + 1, prog: m.prog }
        }
    } else if d.opcode == 2 {
        MachineView { regs: m.regs, mem: m.mem, pc: d.address as int, prog: m.prog }
    } else {
        MachineView { regs: m.regs, mem: m.mem, pc: m.pc + 1, prog: m.prog }
    }
}

/// The diagnostic that executing `d` in state `m` produces.
pub open spec fn spec_execute_outcome(m: MachineView, d: DecodedInstruction) -> StepOutcome {
    if d.opcode == 0 {
        if d.funct == 32 || d.funct == 34 || d.funct == 36 || d.funct == 37 || d.funct == 42 {
            StepOutcome::Executed
        } else {
            StepOutcome::UnknownFunct(d.funct)
        }
    } else if d.opcode == 35 {
        let a = spec_ea(m.regs[d.rs as int], d.immediate);
        if m.mem.contains_key(a) {
            StepOutcome::Executed
        } else {
            StepOutcome::ReadMiss(a)
        }
    } else if d.opcode == 8 || d.opcode == 43 || d.opcode == 4 || d.opcode == 2 {
        StepOutcome::Executed
    } else {
        StepOutcome::UnknownOpcode(d.opcode)
    }
}

/// One step of the fetch-decode-execute cycle. Past the end of the program
/// the machine halts: the state is left unchanged.
pub open spec fn spec_step(m: MachineView) -> MachineView {
    if 0 <= m.pc < m.prog.len() {
        spec_execute(m, spec_decode(m.prog[m.pc]))
    } else {
        m
    }
}

/// The diagnostic one step of the cycle produces.
pub open spec fn spec_step_outcome(m: MachineView) -> StepOutcome {
    if 0 <= m.pc < m.prog.len() {
        spec_execute_outcome(m, spec_decode(m.prog[m.pc]))
    } else {
        StepOutcome::Halted
    }
}

/// The machine after at most `fuel` steps, stopping early once the program
/// counter leaves the program.
pub open spec fn spec_run(m: MachineView, fuel: nat) -> MachineView
    decreases fuel,
{
    if fuel == 0 || !(0 <= m.pc < m.prog.len()) {
        m
    } else {
        spec_run(spec_step(m), (fuel - 1) as nat)
    }
}

/// How many steps a run with the given fuel executes before it halts or the
/// fuel is spent.
pub open spec fn spec_run_steps(m: MachineView, fuel: nat) -> nat
    decreases fuel,
{
    if fuel == 0 || !(0 <= m.pc < m.prog.len()) {
        0
    } else {
        1 + spec_run_steps(spec_step(m), (fuel - 1) as nat)
    }
}

/// A run never takes more steps than its fuel.
pub proof fn lemma_run_steps_bounded(m: MachineView, fuel: nat)
    ensures
        spec_run_steps(m, fuel) <= fuel,
    decreases fuel,
{
    if fuel > 0 && 0 <= m.pc < m.prog.len() {
        lemma_run_steps_bounded(spec_step(m), (fuel - 1) as nat);
    }
}

/// The simulator: assembler inputs and outputs plus architectural state.
pub struct MipsSimulator {
    /// The 32 general-purpose registers.
    pub registers: Vec<i32>,
    /// Sparse word store keyed by byte address.
    pub memory: HashMap<u32, i32>,
    /// Labels on instructions, resolved to instruction indices.
    pub code_labels: SymbolTable,
    /// Labels on `.data` words, resolved to byte addresses.
    pub data_labels: SymbolTable,
    /// Word index of the next instruction to execute.
    pub pc: u32,
    /// The scanned instruction lines, in program order.
    pub program: Vec<String>,
    /// The encoded program, one word per instruction.
    pub binary_program: Vec<u32>,
    /// Next free byte address in the data section.
    pub next_free_address: u32,
    /// Whether pass 1 is currently inside the `.data` section.
    pub in_data_section: bool,
}

impl MipsSimulator {
    /// Structural soundness: a full register file and a program whose
    /// instruction indices fit the 26-bit jump field.
    pub open spec fn wf(self) -> bool {
        self.registers@.len() == 32 && self.binary_program@.len() <= MAX_PROGRAM_WORDS as int
            && self.program@.len() <= MAX_PROGRAM_WORDS as int
    }

    /// The execution-relevant state as mathematical values.
    pub open spec fn machine_view(self) -> MachineView {
        MachineView {
            regs: self.registers@,
            mem: self.memory@,
            pc: self.pc as int,
            prog: self.binary_program@,
        }
    }

    /// The parts of the simulator that execution never touches.
    pub open spec fn same_assembly_state(a: MipsSimulator, b: MipsSimulator) -> bool {
        a.code_labels == b.code_labels && a.data_labels == b.data_labels && a.program == b.program
            && a.next_free_address == b.next_free_address && a.in_data_section
            == b.in_data_section
    }

    /// A fresh simulator: zeroed registers, empty memory and tables, the
    /// program counter at 0, and the data allocator at its base address.
    /// Duplicate labels overwrite silently.
    pub fn new() -> (s: MipsSimulator)
        ensures
            s.wf(),
            s.registers@.len() == 32,
            forall|i: int| 0 <= i < 32 ==> s.registers@[i] == 0i32,
            s.memory@ == Map::<u32, i32>::empty(),
            s.code_labels@ == Seq::<(Seq<char>, u32)>::empty(),
            s.data_labels@ == Seq::<(Seq<char>, u32)>::empty(),
            s.code_labels.spec_policy() == DuplicatePolicy::Overwrite,
            s.data_labels.spec_policy() == DuplicatePolicy::Overwrite,
            s.pc == 0,
            s.program@.len() == 0,
            s.binary_program@.len() == 0,
            s.next_free_address == DATA_BASE_ADDRESS,
            s.in_data_section == false,
    {
        Self::with_policy(DuplicatePolicy::Overwrite)
    }

    /// A fresh simulator with an explicit duplicate-label policy.
    pub fn with_policy(policy: DuplicatePolicy) -> (s: MipsSimulator)
        ensures
            s.wf(),
            s.registers@.len() == 32,
            forall|i: int| 0 <= i < 32 ==> s.registers@[i] == 0i32,
            s.memory@ == Map::<u32, i32>::empty(),
            s.code_labels@ == Seq::<(Seq<char>, u32)>::empty(),
            s.data_labels@ == Seq::<(Seq<char>, u32)>::empty(),
            s.code_labels.spec_policy() == policy,
            s.data_labels.spec_policy() == policy,
            s.pc == 0,
            s.program@.len() == 0,
            s.binary_program@.len() == 0,
            s.next_free_address == DATA_BASE_ADDRESS,
            s.in_data_section == false,
    {
        let mut registers: Vec<i32> = Vec::new();
        let mut i: usize = 0;
        while i < 32
            invariant
                0 <= i <= 32,
                registers@.len() == i,
                forall|j: int| 0 <= j < i ==> registers@[j] == 0i32,
            decreases 32 - i,
        {
            registers.push(0);
            i += 1;
        }
        MipsSimulator {
            registers,
            memory: HashMap::new(),
            code_labels: SymbolTable::new(policy),
            data_labels: SymbolTable::new(policy),
            pc: 0,
            program: Vec::new(),
            binary_program: Vec::new(),
            next_free_address: DATA_BASE_ADDRESS,
            in_data_section: false,
        }
    }

    /// The word the program counter points at, if it is inside the program.
    pub fn instruction_fetch(&self) -> (r: Option<u32>)
        ensures
            r == if 0 <= self.pc < self.binary_program@.len() {
                Some(self.binary_program@[self.pc as int])
            } else {
                None::<u32>
            },
    {
        if (self.pc as usize) < self.binary_program.len() {
            Some(self.binary_program[self.pc as usize])
        } else {
            None
        }
    }

    /// Splits a fetched word into its fields.
    pub fn instruction_decode(&self, binary_instruction: u32) -> (d: DecodedInstruction)
        ensures
            d == spec_decode(binary_instruction),
            d.rs < 32 && d.rt < 32 && d.rd < 32 && d.opcode < 64 && d.funct < 64,
    {
        proof {
            crate::encoding::lemma_decode_field_bounds(binary_instruction);
        }
        decode_word(binary_instruction)
    }

    /// Looks up a register name; an unknown name is an error, never
    /// silently register 0.
    pub fn get_register_index(&self, register: &str) -> (r: Result<u8, AsmError>)
        ensures
            match r {
                Ok(i) => spec_register_index(register@) == Some(i) && i < 32,
                Err(e) => spec_register_index(register@) is None && e.kind
                    == AsmErrorKind::UnknownRegister && e.token@ == register@,
            },
    {
        match register_index_of(register) {
            Some(i) => Ok(i),
            None => Err(
                AsmError { kind: AsmErrorKind::UnknownRegister, token: String::from_str(register) },
            ),
        }
    }

    /// The symbolic name of a register index.
    pub fn get_register_name(&self, index: usize) -> (r: String)
        requires
            index < 32,
        ensures
            r@ == spec_register_name(index as int),
    {
        register_name_of(index)
    }

    /// `registers[rd] = registers[rs] + registers[rt]`, wrapping.
    pub fn execute_add(&mut self, decoded: DecodedInstruction)
        requires
            old(self).wf(),
            decoded.rs < 32,
            decoded.rt < 32,
            decoded.rd < 32,
        ensures
            final(self).wf(),
            final(self).registers@ == old(self).registers@.update(
                decoded.rd as int,
                spec_wrap_i32(
                    old(self).registers@[decoded.rs as int] + old(
                        self,
                    ).registers@[decoded.rt as int],
                ),
            ),
            final(self).memory == old(self).memory,
            final(self).pc == old(self).pc,
            final(self).binary_program == old(self).binary_program,
            Self::same_assembly_state(*old(self), *final(self)),
    {
        let v = wrap_add(self.registers[decoded.rs as usize], self.registers[decoded.rt as usize]);
        self.registers.set(decoded.rd as usize, v);
    }

    /// `registers[rd] = registers[rs] - registers[rt]`, wrapping.
    pub fn execute_sub(&mut self, decoded: DecodedInstruction)
        requires
            old(self).wf(),
            decoded.rs < 32,
            decoded.rt < 32,
            decoded.rd < 32,
        ensures
            final(self).wf(),
            final(self).registers@ == old(self).registers@.update(
                decoded.rd as int,
                spec_wrap_i32(
                    old(self).registers@[decoded.rs as int] - old(
                        self,
                    ).registers@[decoded.rt as int],
                ),
            ),
            final(self).memory == old(self).memory,
            final(self).pc == old(self).pc,
            final(self).binary_program == old(self).binary_program,
            Self::same_assembly_state(*old(self), *final(self)),
    {
        let v = wrap_sub(self.registers[decoded.rs as usize], self.registers[decoded.rt as usize]);
        self.registers.set(decoded.rd as usize, v);
    }

    /// `registers[rd] = registers[rs] & registers[rt]`.
    pub fn execute_and(&mut self, decoded: DecodedInstruction)
        requires
            old(self).wf(),
            decoded.rs < 32,
            decoded.rt < 32,
            decoded.rd < 32,
        ensures
            final(self).wf(),
            final(self).registers@ == old(self).registers@.update(
                decoded.rd as int,
                old(self).registers@[decoded.rs as int] & old(self).registers@[decoded.rt as int],
            ),
            final(self).memory == old(self).memory,
            final(self).pc == old(self).pc,
            final(self).binary_program == old(self).binary_program,
            Self::same_assembly_state(*old(self), *final(self)),
    {
        let v = self.registers[decoded.rs as usize] & self.registers[decoded.rt as usize];
        self.registers.set(decoded.rd as usize, v);
    }

    /// `registers[rd] = registers[rs] | registers[rt]`.
    pub fn execute_or(&mut self, decoded: DecodedInstruction)
        requires
            old(self).wf(),
            decoded.rs < 32,
            decoded.rt < 32,
            decoded.rd < 32,
        ensures
            final(self).wf(),
            final(self).registers@ == old(self).registers@.update(
                decoded.rd as int,
                old(self).registers@[decoded.rs as int] | old(self).registers@[decoded.rt as int],
            ),
            final(self).memory == old(self).memory,
            final(self).pc == old(self).pc,
            final(self).binary_program == old(self).binary_program,
            Self::same_assembly_state(*old(self), *final(self)),
    {
        let v = self.registers[decoded.rs as usize] | self.registers[decoded.rt as usize];
        self.registers.set(decoded.rd as usize, v);
    }

    /// `registers[rd] = 1` exactly when `registers[rs] < registers[rt]`,
    /// else 0.
    pub fn execute_slt(&mut self, decoded: DecodedInstruction)
        requires
            old(self).wf(),
            decoded.rs < 32,
            decoded.rt < 32,
            decoded.rd < 32,
        ensures
            final(self).wf(),
            final(self).registers@ == old(self).registers@.update(
                decoded.rd as int,
                if old(self).registers@[decoded.rs as int] < old(
                    self,
                ).registers@[decoded.rt as int] {
                    1i32
                } else {
                    0i32
                },
            ),
            final(self).memory == old(self).memory,
            final(self).pc == old(self).pc,
            final(self).binary_program == old(self).binary_program,
            Self::same_assembly_state(*old(self), *final(self)),
    {
        let v: i32 = if self.registers[decoded.rs as usize] < self.registers[decoded.rt as usize] {
            1
        } else {
            0
        };
        self.registers.set(decoded.rd as usize, v);
    }

    /// `registers[rt] = registers[rs] + sign_extend(immediate)`, wrapping.
    pub fn execute_addi(&mut self, decoded: DecodedInstruction)
        requires
            old(self).wf(),
            decoded.rs < 32,
            decoded.rt < 32,
        ensures
            final(self).wf(),
            final(self).registers@ == old(self).registers@.update(
                decoded.rt as int,
                spec_wrap_i32(
                    old(self).registers@[decoded.rs as int] + spec_sign_extend(decoded.immediate),
                ),
            ),
            final(self).memory == old(self).memory,
            final(self).pc == old(self).pc,
            final(self).binary_program == old(self).binary_program,
            Self::same_assembly_state(*old(self), *final(self)),
    {
        let v = wrap_add(self.registers[decoded.rs as usize], sign_extend(decoded.immediate));
        self.registers.set(decoded.rt as usize, v);
    }

    /// Loads the word at `registers[rs] + sign_extend(immediate)` into
    /// `registers[rt]`. A read from an unmapped address is reported and
    /// leaves the target register unchanged.
    pub fn execute_lw(&mut self, decoded: DecodedInstruction) -> (r: Result<(), u32>)
        requires
            old(self).wf(),
            decoded.rs < 32,
            decoded.rt < 32,
        ensures
            final(self).wf(),
            ({
                let a = spec_ea(old(self).registers@[decoded.rs as int], decoded.immediate);
                if old(self).memory@.contains_key(a) {
                    r is Ok && final(self).registers@ == old(self).registers@.update(
                        decoded.rt as int,
                        old(self).memory@[a],
                    )
                } else {
                    r == Err::<(), u32>(a) && final(self).registers@ == old(self).registers@
                }
            }),
            final(self).memory == old(self).memory,
            final(self).pc == old(self).pc,
            final(self).binary_program == old(self).binary_program,
            Self::same_assembly_state(*old(self), *final(self)),
    {
        let a = effective_address(self.registers[decoded.rs as usize], decoded.immediate);
        match self.memory.get(&a) {
            Some(v) => {
                let value = *v;
                self.registers.set(decoded.rt as usize, value);
                Ok(())
            },
            None => Err(a),
        }
    }

    /// Stores `registers[rt]` at `registers[rs] + sign_extend(immediate)`.
    pub fn execute_sw(&mut self, decoded: DecodedInstruction)
        requires
            old(self).wf(),
            decoded.rs < 32,
            decoded.rt < 32,
        ensures
            final(self).wf(),
            final(self).registers@ == old(self).registers@,
            final(self).memory@ == old(self).memory@.insert(
                spec_ea(old(self).registers@[decoded.rs as int], decoded.immediate),
                old(self).registers@[decoded.rt as int],
            ),
            final(self).pc == old(self).pc,
            final(self).binary_program == old(self).binary_program,
            Self::same_assembly_state(*old(self), *final(self)),
    {
        let a = effective_address(self.registers[decoded.rs as usize], decoded.immediate);
        let value = self.registers[decoded.rt as usize];
        self.memory.insert(a, value);
    }

    /// If `registers[rs] == registers[rt]`, jumps to the instruction after
    /// the branch plus the sign-extended offset; otherwise falls through.
    pub fn execute_beq(&mut self, decoded: DecodedInstruction)
        requires
            old(self).wf(),
            decoded.rs < 32,
            decoded.rt < 32,
            old(self).pc < 0xffff_ffffu32,
        ensures
            final(self).wf(),
            final(self).registers@ == old(self).registers@,
            final(self).memory == old(self).memory,
            final(self).pc as int == if old(self).registers@[decoded.rs as int] == old(
                self,
            ).registers@[decoded.rt as int] {
                spec_branch_target(old(self).pc as int, decoded.immediate)
            } else {
                old(self).pc + 1
            },
            final(self).binary_program == old(self).binary_program,
            Self::same_assembly_state(*old(self), *final(self)),
    {
        if self.registers[decoded.rs as usize] == self.registers[decoded.rt as usize] {
            let t: i64 = self.pc as i64 + 1 + sign_extend(decoded.immediate) as i64;
            let target: u32 = if t < 0 {
                (t + 0x1_0000_0000i64) as u32
            } else if t > 0xffff_ffffi64 {
                (t - 0x1_0000_0000i64) as u32
            } else {
                t as u32
            };
            self.pc = target;
        } else {
            self.pc = self.pc + 1;
        }
    }

    /// Jumps to the 26-bit word index in the address field.
    pub fn execute_j(&mut self, decoded: DecodedInstruction)
        requires
            old(self).wf(),
        ensures
            final(self).wf(),
            final(self).registers@ == old(self).registers@,
            final(self).memory == old(self).memory,
            final(self).pc == decoded.address,
            final(self).binary_program == old(self).binary_program,
            Self::same_assembly_state(*old(self), *final(self)),
    {
        self.pc = decoded.address;
    }

    /// Executes one decoded instruction, advancing the program counter for
    /// every family but the two that set it themselves.
    pub fn execute_instruction(&mut self, decoded: DecodedInstruction) -> (r: StepOutcome)
        requires
            old(self).wf(),
            decoded.rs < 32,
            decoded.rt < 32,
            decoded.rd < 32,
            old(self).pc < MAX_PROGRAM_WORDS as u32,
        ensures
            final(self).wf(),
            final(self).machine_view() == spec_execute(old(self).machine_view(), decoded),
            r == spec_execute_outcome(old(self).machine_view(), decoded),
            Self::same_assembly_state(*old(self), *final(self)),
    {
        match decoded.opcode {
            0 => {
                let outcome: StepOutcome = match decoded.funct {
                    32 => {
                        self.execute_add(decoded);
                        StepOutcome::Executed
                    },
                    34 => {
                        self.execute_sub(decoded);
                        StepOutcome::Executed
                    },
                    36 => {
                        self.execute_and(decoded);
                        StepOutcome::Executed
                    },
                    37 => {
                        self.execute_or(decoded);
                        StepOutcome::Executed
                    },
                    42 => {
                        self.execute_slt(decoded);
                        StepOutcome::Executed
                    },
                    _ => StepOutcome::UnknownFunct(decoded.funct),
                };
                self.pc = self.pc + 1;
                outcome
            },
            8 => {
                self.execute_addi(decoded);
                self.pc = self.pc + 1;
                StepOutcome::Executed
            },
            35 => {
                let r = self.execute_lw(decoded);
                self.pc = self.pc + 1;
                match r {
                    Ok(_) => StepOutcome::Executed,
                    Err(a) => StepOutcome::ReadMiss(a),
                }
            },
            43 => {
                self.execute_sw(decoded);
                self.pc = self.pc + 1;
                StepOutcome::Executed
            },
            4 => {
                self.execute_beq(decoded);
                StepOutcome::Executed
            },
            2 => {
                self.execute_j(decoded);
                StepOutcome::Executed
            },
            _ => {
                self.pc = self.pc + 1;
                StepOutcome::UnknownOpcode(decoded.opcode)
            },
        }
    }

    /// One full fetch-decode-execute step, or `Halted` with no change when
    /// the program counter is past the end of the program.
    pub fn step(&mut self) -> (r: StepOutcome)
        requires
            old(self).wf(),
        ensures
            final(self).wf(),
            final(self).machine_view() == spec_step(old(self).machine_view()),
            r == spec_step_outcome(old(self).machine_view()),
            r == StepOutcome::Halted <==> !(0 <= old(self).pc < old(self).binary_program@.len()),
            Self::same_assembly_state(*old(self), *final(self)),
    {
        match self.instruction_fetch() {
            Some(binary_instruction) => {
                let decoded = self.instruction_decode(binary_instruction);
                let outcome = self.execute_instruction(decoded);
                proof {
                    assert(outcome != StepOutcome::Halted);
                }
                outcome
            },
            None => StepOutcome::Halted,
        }
    }

    /// Runs the fetch-decode-execute cycle until the program counter leaves
    /// the program, or until `max_steps` steps have executed: the explicit
    /// budget that guarantees termination. Returns the number of steps taken.
    pub fn run(&mut self, max_steps: u32) -> (steps: u32)
        requires
            old(self).wf(),
        ensures
            final(self).wf(),
            final(self).machine_view() == spec_run(old(self).machine_view(), max_steps as nat),
            steps == spec_run_steps(old(self).machine_view(), max_steps as nat),
            steps <= max_steps,
            Self::same_assembly_state(*old(self), *final(self)),
    {
        proof {
            lemma_run_steps_bounded(old(self).machine_view(), max_steps as nat);
        }
        let mut steps: u32 = 0;
        while steps < max_steps && (self.pc as usize) < self.binary_program.len()
            invariant
                self.wf(),
                steps <= max_steps,
                spec_run(self.machine_view(), (max_steps - steps) as nat) == spec_run(
                    old(self).machine_view(),
                    max_steps as nat,
                ),
                steps + spec_run_steps(self.machine_view(), (max_steps - steps) as nat)
                    == spec_run_steps(old(self).machine_view(), max_steps as nat),
                Self::same_assembly_state(*old(self), *self),
            decreases max_steps - steps,
        {
            proof {
                lemma_run_steps_bounded(spec_step(self.machine_view()), (max_steps - steps - 1) as nat);
            }
            self.step();
            steps += 1;
        }
        steps
    }
}

/// Runtime effective-address computation matching [`spec_ea`].
pub fn effective_address(base: i32, imm: u16) -> (a: u32)
    ensures
        a == spec_ea(base, imm),
{
    let v: i64 = base as i64 + sign_extend(imm) as i64;
    if v < 0 {
        (v + 0x1_0000_0000i64) as u32
    } else {
        v as u32
    }
}


/// Branch execution: a `beq` word whose immediate sign-extends to
/// `l - (pc + 1)` lands the program counter at `l` when the compared
/// registers are equal, and at `pc + 1` otherwise.
pub proof fn lemma_branch_execution(m: MachineView, w: u32, l: int)
    requires
        0 <= m.pc < m.prog.len(),
        m.prog[m.pc] == w,
        crate::encoding::spec_opcode(w) == 4,
        spec_sign_extend(crate::encoding::spec_immediate(w)) == l - (m.pc + 1),
        0 <= l <= u32::MAX,
    ensures
        m.regs[crate::encoding::spec_rs(w) as int] == m.regs[crate::encoding::spec_rt(w) as int]
            ==> spec_step(m).pc == l,
        m.regs[crate::encoding::spec_rs(w) as int] != m.regs[crate::encoding::spec_rt(w) as int]
            ==> spec_step(m).pc == m.pc + 1,
{
}

/// Memory round-trip: `sw rt0, imm(rb)` followed by `lw rt2, imm(rb)`, with
/// `rb` untouched in between (a store writes no register), leaves in `rt2`
/// exactly what `rt0` held at the time of the store.
pub proof fn lemma_memory_round_trip(m: MachineView, rb: u8, rt0: u8, rt2: u8, imm: u16)
    requires
        m.regs.len() == 32,
        rb < 32,
        rt0 < 32,
        rt2 < 32,
        0 <= m.pc,
        m.pc + 1 < m.prog.len(),
        m.prog[m.pc] == crate::encoding::spec_encode_i(43, rb, rt0, imm),
        m.prog[m.pc + 1] == crate::encoding::spec_encode_i(35, rb, rt2, imm),
    ensures
        spec_step(spec_step(m)).regs[rt2 as int] == m.regs[rt0 as int],
{
    crate::encoding::lemma_i_round_trip(43, rb, rt0, imm);
    crate::encoding::lemma_i_round_trip(35, rb, rt2, imm);
    let m1 = spec_step(m);
    assert(m1.mem == m.mem.insert(spec_ea(m.regs[rb as int], imm), m.regs[rt0 as int]));
    assert(m1.pc == m.pc + 1);
}

} // verus!
