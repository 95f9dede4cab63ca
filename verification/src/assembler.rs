//! The two-pass assembler.
//!
//! Pass 1 ([`MipsSimulator::load_program`]) scans cleaned source lines,
//! separating `.data` allocations from `.text` instructions and recording
//! labels. Pass 2 ([`MipsSimulator::assemble_program`]) encodes each scanned
//! instruction into a 32-bit word, resolving label operands against the
//! symbol tables built by pass 1.

use vstd::prelude::*;

use crate::encoding::encode_i_type;
use crate::encoding::encode_j_type;
use crate::encoding::encode_r_type;
use crate::encoding::spec_encode_i;
use crate::encoding::spec_encode_j;
use crate::encoding::spec_encode_r;
use crate::errors::AsmError;
use crate::errors::AsmErrorKind;
use crate::machine::MipsSimulator;
use crate::machine::MAX_PROGRAM_WORDS;
use crate::numbers::parse_i16;
use crate::numbers::parse_i32;
use crate::numbers::spec_parse_int;
use crate::numbers::spec_to_u16;
use crate::numbers::to_u16;
use crate::registers::register_index_of;
use crate::registers::spec_register_index;
use crate::symtab::spec_define;
use crate::symtab::spec_lookup;
use crate::symtab::DuplicatePolicy;
use crate::symtab::SymbolTable;
use crate::text::find_char;
use crate::text::spec_clean_line;
use crate::text::spec_find;
use crate::text::spec_starts_with;
use crate::text::spec_tokens;
use crate::text::spec_trim;
use crate::text::str_eq;
use crate::text::str_starts_with;
use crate::text::strip_comment;
use crate::text::tokenize;
use crate::text::trim;
use crate::text::views_of_strings;

verus! {

/// The register-to-register ALU family, encoded as R-type words.
pub open spec fn is_r_type_mnemonic(m: Seq<char>) -> bool {
    m == "add"@ || m == "sub"@ || m == "and"@ || m == "or"@ || m == "slt"@
}

/// The funct code of an R-type mnemonic.
pub open spec fn spec_funct_of(m: Seq<char>) -> u8 {
    if m == "add"@ {
        32u8
    } else if m == "sub"@ {
        34u8
    } else if m == "and"@ {
        36u8
    } else if m == "or"@ {
        37u8
    } else {
        42u8
    }
}

/// How one `lw`/`sw` address operand resolves: to a base register and a
/// 16-bit offset. A defined data label means base register 0 and the label's
/// byte address truncated to 16 bits; `offset(base)` syntax names the base
/// register directly; anything else is an undefined label.
pub open spec fn spec_mem_operand(op: Seq<char>, data: Seq<(Seq<char>, u32)>) -> Result<
    (u8, u16),
    (AsmErrorKind, Seq<char>),
> {
    match spec_lookup(data, op) {
        Some(a) => Ok((0u8, (a & 0xffff) as u16)),
        None => if spec_find(op, '(') < op.len() {
            let i = spec_find(op, '(');
            if op.len() >= i + 3 && op.last() == ')' {
                let off = spec_parse_int(op.take(i));
                let base = op.subrange(i + 1, op.len() - 1);
                if off matches Some(v) && -0x8000 <= off.unwrap() <= 0x7fff {
                    match spec_register_index(base) {
                        Some(b) => Ok((b, spec_to_u16(off.unwrap()))),
                        None => Err((AsmErrorKind::UnknownRegister, base)),
                    }
                } else {
                    Err((AsmErrorKind::MalformedOperand, op))
                }
            } else {
                Err((AsmErrorKind::MalformedOperand, op))
            }
        } else {
            Err((AsmErrorKind::UnresolvedLabel, op))
        },
    }
}

/// The word one tokenized instruction encodes to, or the diagnostic it
/// produces. Operands are checked left to right; `idx` is the instruction's
/// word index, from which `beq` offsets are measured.
pub open spec fn spec_assemble_instruction(
    toks: Seq<Seq<char>>,
    code: Seq<(Seq<char>, u32)>,
    data: Seq<(Seq<char>, u32)>,
    idx: int,
) -> Result<u32, (AsmErrorKind, Seq<char>)> {
    if toks.len() == 0 {
        Err((AsmErrorKind::MalformedOperand, Seq::empty()))
    } else if is_r_type_mnemonic(toks[0]) {
        if toks.len() != 4 {
            Err((AsmErrorKind::MalformedOperand, toks[0]))
        } else {
            match spec_register_index(toks[1]) {
                None => Err((AsmErrorKind::UnknownRegister, toks[1])),
                Some(rd) => match spec_register_index(toks[2]) {
                    None => Err((AsmErrorKind::UnknownRegister, toks[2])),
                    Some(rs) => match spec_register_index(toks[3]) {
                        None => Err((AsmErrorKind::UnknownRegister, toks[3])),
                        Some(rt) => Ok(spec_encode_r(rs, rt, rd, spec_funct_of(toks[0]))),
                    },
                },
            }
        }
    } else if toks[0] == "addi"@ {
        if toks.len() != 4 {
            Err((AsmErrorKind::MalformedOperand, toks[0]))
        } else {
            match spec_register_index(toks[1]) {
                None => Err((AsmErrorKind::UnknownRegister, toks[1])),
                Some(rt) => match spec_register_index(toks[2]) {
                    None => Err((AsmErrorKind::UnknownRegister, toks[2])),
                    Some(rs) => {
                        let imm = spec_parse_int(toks[3]);
                        if imm matches Some(v) && -0x8000 <= imm.unwrap() <= 0x7fff {
                            Ok(spec_encode_i(8, rs, rt, spec_to_u16(imm.unwrap())))
                        } else {
                            Err((AsmErrorKind::MalformedOperand, toks[3]))
                        }
                    },
                },
            }
        }
    } else if toks[0] == "lw"@ || toks[0] == "sw"@ {
        if toks.len() != 3 {
            Err((AsmErrorKind::MalformedOperand, toks[0]))
        } else {
            match spec_register_index(toks[1]) {
                None => Err((AsmErrorKind::UnknownRegister, toks[1])),
                Some(rt) => match spec_mem_operand(toks[2], data) {
                    Ok((rs, imm)) => Ok(
                        spec_encode_i(
                            if toks[0] == "lw"@ {
                                35u8
                            } else {
                                43u8
                            },
                            rs,
                            rt,
                            imm,
                        ),
                    ),
                    Err(e) => Err(e),
                },
            }
        }
    } else if toks[0] == "beq"@ {
        if toks.len() != 4 {
            Err((AsmErrorKind::MalformedOperand, toks[0]))
        } else {
            match spec_register_index(toks[1]) {
                None => Err((AsmErrorKind::UnknownRegister, toks[1])),
                Some(rs) => match spec_register_index(toks[2]) {
                    None => Err((AsmErrorKind::UnknownRegister, toks[2])),
                    Some(rt) => match spec_lookup(code, toks[3]) {
                        Some(l) => {
                            let off = l - (idx + 1);
                            if -0x8000 <= off <= 0x7fff {
                                Ok(spec_encode_i(4, rs, rt, spec_to_u16(off)))
                            } else {
                                Err((AsmErrorKind::MalformedOperand, toks[3]))
                            }
                        },
                        None => Err((AsmErrorKind::UnresolvedLabel, toks[3])),
                    },
                },
            }
        }
    } else if toks[0] == "j"@ {
        if toks.len() != 2 {
            Err((AsmErrorKind::MalformedOperand, toks[0]))
        } else {
            match spec_lookup(code, toks[1]) {
                Some(l) => Ok(spec_encode_j(l)),
                None => Err((AsmErrorKind::UnresolvedLabel, toks[1])),
            }
        }
    } else {
        Err((AsmErrorKind::UnknownMnemonic, toks[0]))
    }
}

/// The funct code of an R-type mnemonic, at runtime.
fn funct_of(m: &str) -> (f: u8)
    ensures
        f == spec_funct_of(m@),
        f < 64,
{
    if str_eq(m, "add") {
        32
    } else if str_eq(m, "sub") {
        34
    } else if str_eq(m, "and") {
        36
    } else if str_eq(m, "or") {
        37
    } else {
        42
    }
}

/// Resolves one `lw`/`sw` address operand against the data labels.
fn resolve_mem_operand(op: &str, data_labels: &SymbolTable) -> (r: Result<(u8, u16), AsmError>)
    ensures
        match r {
            Ok(p) => spec_mem_operand(op@, data_labels@) == Ok::<(u8, u16), (AsmErrorKind, Seq<
                char,
            >)>(p) && p.0 < 32,
            Err(e) => spec_mem_operand(op@, data_labels@) == Err::<(u8, u16), (AsmErrorKind, Seq<
                char,
            >)>((e.kind, e.token@)),
        },
{
    match data_labels.lookup(op) {
        Some(a) => {
            proof {
                assert((a & 0xffff) < 0x10000) by (bit_vector);
            }
            Ok((0u8, (a & 0xffff) as u16))
        },
        None => {
            let n = op.unicode_len();
            let i = find_char(op, '(');
            if i < n {
                if n >= 3 && i <= n - 3 && op.get_char(n - 1) == ')' {
                    let off_text = op.substring_char(0, i);
                    let base = op.substring_char(i + 1, n - 1);
                    match parse_i16(off_text) {
                        Some(v) => match register_index_of(base) {
                            Some(b) => Ok((b, to_u16(v))),
                            None => Err(
                                AsmError {
                                    kind: AsmErrorKind::UnknownRegister,
                                    token: String::from_str(base),
                                },
                            ),
                        },
                        None => Err(
                            AsmError {
                                kind: AsmErrorKind::MalformedOperand,
                                token: String::from_str(op),
                            },
                        ),
                    }
                } else {
                    Err(
                        AsmError {
                            kind: AsmErrorKind::MalformedOperand,
                            token: String::from_str(op),
                        },
                    )
                }
            } else {
                Err(
                    AsmError { kind: AsmErrorKind::UnresolvedLabel, token: String::from_str(op) },
                )
            }
        },
    }
}

/// Encodes one tokenized instruction against the given symbol tables.
/// `current_index` is the instruction's word index.
pub fn assemble_tokens(
    toks: &Vec<String>,
    code_labels: &SymbolTable,
    data_labels: &SymbolTable,
    current_index: u32,
) -> (r: Result<u32, AsmError>)
    ensures
        match r {
            Ok(w) => spec_assemble_instruction(
                views_of_strings(toks@),
                code_labels@,
                data_labels@,
                current_index as int,
            ) == Ok::<u32, (AsmErrorKind, Seq<char>)>(w),
            Err(e) => spec_assemble_instruction(
                views_of_strings(toks@),
                code_labels@,
                data_labels@,
                current_index as int,
            ) == Err::<u32, (AsmErrorKind, Seq<char>)>((e.kind, e.token@)),
        },
{
    let ghost tv = views_of_strings(toks@);
    if toks.len() == 0 {
        return Err(AsmError { kind: AsmErrorKind::MalformedOperand, token: String::new() });
    }
    let mnemonic = &toks[0];
    let m = mnemonic.as_str();
    if str_eq(m, "add") || str_eq(m, "sub") || str_eq(m, "and") || str_eq(m, "or") || str_eq(
        m,
        "slt",
    ) {
        if toks.len() != 4 {
            return Err(
                AsmError { kind: AsmErrorKind::MalformedOperand, token: mnemonic.clone() },
            );
        }
        let rd = match register_index_of(toks[1].as_str()) {
            Some(i) => i,
            None => {
                return Err(
                    AsmError { kind: AsmErrorKind::UnknownRegister, token: toks[1].clone() },
                );
            },
        };
        let rs = match register_index_of(toks[2].as_str()) {
            Some(i) => i,
            None => {
                return Err(
                    AsmError { kind: AsmErrorKind::UnknownRegister, token: toks[2].clone() },
                );
            },
        };
        let rt = match register_index_of(toks[3].as_str()) {
            Some(i) => i,
            None => {
                return Err(
                    AsmError { kind: AsmErrorKind::UnknownRegister, token: toks[3].clone() },
                );
            },
        };
        Ok(encode_r_type(rs, rt, rd, funct_of(m)))
    } else if str_eq(m, "addi") {
        if toks.len() != 4 {
            return Err(
                AsmError { kind: AsmErrorKind::MalformedOperand, token: mnemonic.clone() },
            );
        }
        let rt = match register_index_of(toks[1].as_str()) {
            Some(i) => i,
            None => {
                return Err(
                    AsmError { kind: AsmErrorKind::UnknownRegister, token: toks[1].clone() },
                );
            },
        };
        let rs = match register_index_of(toks[2].as_str()) {
            Some(i) => i,
            None => {
                return Err(
                    AsmError { kind: AsmErrorKind::UnknownRegister, token: toks[2].clone() },
                );
            },
        };
        match parse_i16(toks[3].as_str()) {
            Some(v) => Ok(encode_i_type(8, rs, rt, to_u16(v))),
            None => Err(AsmError { kind: AsmErrorKind::MalformedOperand, token: toks[3].clone() }),
        }
    } else if str_eq(m, "lw") || str_eq(m, "sw") {
        if toks.len() != 3 {
            return Err(
                AsmError { kind: AsmErrorKind::MalformedOperand, token: mnemonic.clone() },
            );
        }
        let rt = match register_index_of(toks[1].as_str()) {
            Some(i) => i,
            None => {
                return Err(
                    AsmError { kind: AsmErrorKind::UnknownRegister, token: toks[1].clone() },
                );
            },
        };
        let opcode: u8 = if str_eq(m, "lw") {
            35
        } else {
            43
        };
        match resolve_mem_operand(toks[2].as_str(), data_labels) {
            Ok((rs, imm)) => Ok(encode_i_type(opcode, rs, rt, imm)),
            Err(e) => Err(e),
        }
    } else if str_eq(m, "beq") {
        if toks.len() != 4 {
            return Err(
                AsmError { kind: AsmErrorKind::MalformedOperand, token: mnemonic.clone() },
            );
        }
        let rs = match register_index_of(toks[1].as_str()) {
            Some(i) => i,
            None => {
                return Err(
                    AsmError { kind: AsmErrorKind::UnknownRegister, token: toks[1].clone() },
                );
            },
        };
        let rt = match register_index_of(toks[2].as_str()) {
            Some(i) => i,
            None => {
                return Err(
                    AsmError { kind: AsmErrorKind::UnknownRegister, token: toks[2].clone() },
                );
            },
        };
        match code_labels.lookup(toks[3].as_str()) {
            Some(l) => {
                let off: i64 = l as i64 - (current_index as i64 + 1);
                if -0x8000i64 <= off && off <= 0x7fffi64 {
                    Ok(encode_i_type(4, rs, rt, to_u16(off as i16)))
                } else {
                    Err(
                        AsmError { kind: AsmErrorKind::MalformedOperand, token: toks[3].clone() },
                    )
                }
            },
            None => Err(AsmError { kind: AsmErrorKind::UnresolvedLabel, token: toks[3].clone() }),
        }
    } else if str_eq(m, "j") {
        if toks.len() != 2 {
            return Err(
                AsmError { kind: AsmErrorKind::MalformedOperand, token: mnemonic.clone() },
            );
        }
        match code_labels.lookup(toks[1].as_str()) {
            Some(l) => Ok(encode_j_type(l)),
            None => Err(AsmError { kind: AsmErrorKind::UnresolvedLabel, token: toks[1].clone() }),
        }
    } else {
        Err(AsmError { kind: AsmErrorKind::UnknownMnemonic, token: mnemonic.clone() })
    }
}

/// The words of instructions `i..` of the scanned program, or the index and
/// diagnostic of the first instruction that fails to encode.
pub open spec fn spec_assemble_from(
    prog: Seq<Seq<char>>,
    code: Seq<(Seq<char>, u32)>,
    data: Seq<(Seq<char>, u32)>,
    i: int,
) -> Result<Seq<u32>, (int, AsmErrorKind, Seq<char>)>
    decreases prog.len() - i,
    when 0 <= i <= prog.len()
{
    if i >= prog.len() {
        Ok(Seq::empty())
    } else {
        match spec_assemble_instruction(spec_tokens(prog[i]), code, data, i) {
            Ok(w) => match spec_assemble_from(prog, code, data, i + 1) {
                Ok(rest) => Ok(seq![w] + rest),
                Err(e) => Err(e),
            },
            Err(e) => Err((i, e.0, e.1)),
        }
    }
}

impl MipsSimulator {
    /// Splits one scanned instruction line into its mnemonic and operand
    /// tokens; the mnemonic is the first token.
    pub fn instruction_decode_assembly(&self, instruction: &str) -> (toks: Vec<String>)
        ensures
            views_of_strings(toks@) == spec_tokens(instruction@),
    {
        tokenize(instruction)
    }

    /// Encodes one tokenized instruction against this simulator's symbol
    /// tables; `current_address` is the instruction's word index.
    pub fn assemble_instruction(&self, toks: &Vec<String>, current_address: u32) -> (r: Result<
        u32,
        AsmError,
    >)
        ensures
            match r {
                Ok(w) => spec_assemble_instruction(
                    views_of_strings(toks@),
                    self.code_labels@,
                    self.data_labels@,
                    current_address as int,
                ) == Ok::<u32, (AsmErrorKind, Seq<char>)>(w),
                Err(e) => spec_assemble_instruction(
                    views_of_strings(toks@),
                    self.code_labels@,
                    self.data_labels@,
                    current_address as int,
                ) == Err::<u32, (AsmErrorKind, Seq<char>)>((e.kind, e.token@)),
            },
    {
        assemble_tokens(toks, &self.code_labels, &self.data_labels, current_address)
    }

    /// Pass 2: encodes every scanned instruction, in order, into the binary
    /// program. Stops at the first instruction that fails to encode; the
    /// words of the instructions before it are kept untouched.
    pub fn assemble_program(&mut self) -> (r: Result<(), AsmError>)
        requires
            old(self).wf(),
            old(self).binary_program@.len() == 0,
        ensures
            final(self).wf(),
            match spec_assemble_from(
                views_of_strings(old(self).program@),
                old(self).code_labels@,
                old(self).data_labels@,
                0,
            ) {
                Ok(ws) => r is Ok && final(self).binary_program@ == ws,
                Err((i, k, t)) => r matches Err(e) && e.kind == k && e.token@ == t && final(self).binary_program@.len() == i && (forall|j: int|
                    0 <= j < i ==> spec_assemble_instruction(
                        spec_tokens(views_of_strings(old(self).program@)[j]),
                        old(self).code_labels@,
                        old(self).data_labels@,
                        j,
                    ) == Ok::<u32, (AsmErrorKind, Seq<char>)>(
                        final(self).binary_program@[j],
                    )),
            },
            final(self).registers == old(self).registers,
            final(self).memory == old(self).memory,
            final(self).pc == old(self).pc,
            final(self).program == old(self).program,
            final(self).code_labels == old(self).code_labels,
            final(self).data_labels == old(self).data_labels,
            final(self).next_free_address == old(self).next_free_address,
            final(self).in_data_section == old(self).in_data_section,
    {
        let ghost pv = views_of_strings(self.program@);
        let n = self.program.len();
        let mut i: usize = 0;
        while i < n
            invariant
                0 <= i <= n,
                n == self.program@.len(),
                n <= MAX_PROGRAM_WORDS,
                pv == views_of_strings(self.program@),
                self.binary_program@.len() == i,
                forall|j: int|
                    0 <= j < i ==> spec_assemble_instruction(
                        spec_tokens(pv[j]),
                        self.code_labels@,
                        self.data_labels@,
                        j,
                    ) == Ok::<u32, (AsmErrorKind, Seq<char>)>(self.binary_program@[j]),
                spec_assemble_from(pv, self.code_labels@, self.data_labels@, 0) == (
                match spec_assemble_from(pv, self.code_labels@, self.data_labels@, i as int) {
                    Ok(rest) => Ok::<Seq<u32>, (int, AsmErrorKind, Seq<char>)>(
                        self.binary_program@ + rest,
                    ),
                    Err(e) => Err::<Seq<u32>, (int, AsmErrorKind, Seq<char>)>(e),
                }),
                self.registers == old(self).registers,
                self.memory == old(self).memory,
                self.pc == old(self).pc,
                self.program == old(self).program,
                self.code_labels == old(self).code_labels,
                self.data_labels == old(self).data_labels,
                self.next_free_address == old(self).next_free_address,
                self.in_data_section == old(self).in_data_section,
                self.wf(),
            decreases n - i,
        {
            let instruction = self.program[i].clone();
            let toks = self.instruction_decode_assembly(instruction.as_str());
            let r = self.assemble_instruction(&toks, i as u32);
            match r {
                Ok(w) => {
                    let ghost pre = self.binary_program@;
                    self.binary_program.push(w);
                    proof {
                        assert(pv[i as int] == self.program@[i as int]@);
                        let r1 = spec_assemble_from(
                            pv,
                            self.code_labels@,
                            self.data_labels@,
                            i + 1,
                        );
                        if r1 is Ok {
                            assert(pre + (seq![w] + r1->Ok_0) =~= self.binary_program@
                                + r1->Ok_0);
                        }
                    }
                },
                Err(e) => {
                    proof {
                        assert(pv[i as int] == self.program@[i as int]@);
                    }
                    return Err(e);
                },
            }
            i += 1;
        }
        proof {
            assert(self.binary_program@ + Seq::<u32>::empty() =~= self.binary_program@);
        }
        Ok(())
    }
}

/// Pass 1's view of the simulator: the state one scanned line changes.
pub ghost struct ScanView {
    pub in_data: bool,
    pub code: Seq<(Seq<char>, u32)>,
    pub data: Seq<(Seq<char>, u32)>,
    pub prog: Seq<Seq<char>>,
    pub mem: Map<u32, i32>,
    pub next_free: u32,
}

/// What scanning one raw source line does to the pass-1 state.
///
/// The line is cleaned (comment stripped, whitespace trimmed) first. Blank
/// lines do nothing; `.data` and `.text` switch the current section. A line
/// with a `:` defines a label: in the data section it must be
/// `label: .word value`, which allocates the next free data word; in the
/// text section it binds the label to the next instruction index, and any
/// instruction after the `:` is appended to the program. Any other line in
/// the text section is an instruction; in the data section it is malformed.
pub open spec fn spec_scan_line(v: ScanView, line: Seq<char>, policy: DuplicatePolicy) -> Result<
    ScanView,
    (AsmErrorKind, Seq<char>),
> {
    let t = spec_clean_line(line);
    if t.len() == 0 {
        Ok(v)
    } else if spec_starts_with(t, ".data"@) {
        Ok(
            ScanView {
                in_data: true,
                code: v.code,
                data: v.data,
                prog: v.prog,
                mem: v.mem,
                next_free: v.next_free,
            },
        )
    } else if spec_starts_with(t, ".text"@) {
        Ok(
            ScanView {
                in_data: false,
                code: v.code,
                data: v.data,
                prog: v.prog,
                mem: v.mem,
                next_free: v.next_free,
            },
        )
    } else if spec_find(t, ':') < t.len() {
        let ci = spec_find(t, ':');
        let label = spec_trim(t.take(ci));
        let rest = spec_trim(t.skip(ci + 1));
        if label.len() == 0 {
            Err((AsmErrorKind::MalformedOperand, t))
        } else if v.in_data {
            let toks = spec_tokens(rest);
            if !(toks.len() == 2 && toks[0] == ".word"@) {
                Err((AsmErrorKind::MalformedOperand, rest))
            } else if !(spec_parse_int(toks[1]) matches Some(x) && -0x8000_0000 <= x
                <= 0x7fff_ffff) {
                Err((AsmErrorKind::MalformedOperand, toks[1]))
            } else if v.next_free > 0xffff_fffbu32 {
                Err((AsmErrorKind::MalformedOperand, label))
            } else if policy == DuplicatePolicy::Reject && spec_lookup(v.data, label) is Some {
                Err((AsmErrorKind::DuplicateLabel, label))
            } else {
                Ok(
                    ScanView {
                        in_data: v.in_data,
                        code: v.code,
                        data: spec_define(v.data, label, v.next_free),
                        prog: v.prog,
                        mem: v.mem.insert(
                            v.next_free,
                            spec_parse_int(toks[1]).unwrap() as i32,
                        ),
                        next_free: (v.next_free + 4) as u32,
                    },
                )
            }
        } else {
            if rest.len() > 0 && v.prog.len() >= MAX_PROGRAM_WORDS as int {
                Err((AsmErrorKind::MalformedOperand, rest))
            } else if policy == DuplicatePolicy::Reject && spec_lookup(v.code, label) is Some {
                Err((AsmErrorKind::DuplicateLabel, label))
            } else {
                let code2 = spec_define(v.code, label, v.prog.len() as u32);
                if rest.len() == 0 {
                    Ok(
                        ScanView {
                            in_data: v.in_data,
                            code: code2,
                            data: v.data,
                            prog: v.prog,
                            mem: v.mem,
                            next_free: v.next_free,
                        },
                    )
                } else {
                    Ok(
                        ScanView {
                            in_data: v.in_data,
                            code: code2,
                            data: v.data,
                            prog: v.prog.push(rest),
                            mem: v.mem,
                            next_free: v.next_free,
                        },
                    )
                }
            }
        }
    } else if v.in_data {
        Err((AsmErrorKind::MalformedOperand, t))
    } else if v.prog.len() >= MAX_PROGRAM_WORDS as int {
        Err((AsmErrorKind::MalformedOperand, t))
    } else {
        Ok(
            ScanView {
                in_data: v.in_data,
                code: v.code,
                data: v.data,
                prog: v.prog.push(t),
                mem: v.mem,
                next_free: v.next_free,
            },
        )
    }
}

/// The pass-1 state reached by scanning lines in order, stopping just
/// before the first line that produces a diagnostic.
pub open spec fn spec_scan_progress(
    v: ScanView,
    lines: Seq<Seq<char>>,
    policy: DuplicatePolicy,
) -> ScanView
    decreases lines.len(),
{
    if lines.len() == 0 {
        v
    } else {
        match spec_scan_line(v, lines[0], policy) {
            Ok(v2) => spec_scan_progress(v2, lines.drop_first(), policy),
            Err(e) => v,
        }
    }
}

/// Scanning a whole program: lines are processed in order; the first
/// diagnostic stops the scan.
pub open spec fn spec_scan_lines(
    v: ScanView,
    lines: Seq<Seq<char>>,
    policy: DuplicatePolicy,
) -> Result<ScanView, (AsmErrorKind, Seq<char>)>
    decreases lines.len(),
{
    if lines.len() == 0 {
        Ok(v)
    } else {
        match spec_scan_line(v, lines[0], policy) {
            Ok(v2) => spec_scan_lines(v2, lines.drop_first(), policy),
            Err(e) => Err(e),
        }
    }
}

impl MipsSimulator {
    /// The pass-1 state of this simulator.
    pub open spec fn scan_view(self) -> ScanView {
        ScanView {
            in_data: self.in_data_section,
            code: self.code_labels@,
            data: self.data_labels@,
            prog: views_of_strings(self.program@),
            mem: self.memory@,
            next_free: self.next_free_address,
        }
    }

    /// Pass 1, one line: cleans it and applies [`spec_scan_line`]. On an
    /// error the pass-1 state is left unchanged.
    pub fn scan_line(&mut self, line: &str) -> (r: Result<(), AsmError>)
        requires
            old(self).wf(),
            old(self).code_labels.spec_policy() == old(self).data_labels.spec_policy(),
        ensures
            final(self).wf(),
            final(self).code_labels.spec_policy() == old(self).code_labels.spec_policy(),
            final(self).data_labels.spec_policy() == old(self).data_labels.spec_policy(),
            match spec_scan_line(
                old(self).scan_view(),
                line@,
                old(self).data_labels.spec_policy(),
            ) {
                Ok(v) => r is Ok && final(self).scan_view() == v,
                Err((k, t)) => r matches Err(e) && e.kind == k && e.token@ == t && final(self).scan_view() == old(self).scan_view(),
            },
            final(self).registers == old(self).registers,
            final(self).pc == old(self).pc,
            final(self).binary_program == old(self).binary_program,
    {
        let stripped = strip_comment(line);
        let t = trim(stripped);
        let n = t.unicode_len();
        if n == 0 {
            return Ok(());
        }
        if str_starts_with(t, ".data") {
            self.in_data_section = true;
            return Ok(());
        }
        if str_starts_with(t, ".text") {
            self.in_data_section = false;
            return Ok(());
        }
        let ci = find_char(t, ':');
        if ci < n {
            let label_text = trim(t.substring_char(0, ci));
            let rest = trim(t.substring_char(ci + 1, n));
            if label_text.unicode_len() == 0 {
                return Err(
                    AsmError { kind: AsmErrorKind::MalformedOperand, token: String::from_str(t) },
                );
            }
            if self.in_data_section {
                let toks = tokenize(rest);
                let ghost tv = views_of_strings(toks@);
                if !(toks.len() == 2 && str_eq(toks[0].as_str(), ".word")) {
                    proof {
                        if toks@.len() == 2 {
                            assert(tv[0] == toks@[0]@);
                        }
                    }
                    return Err(
                        AsmError {
                            kind: AsmErrorKind::MalformedOperand,
                            token: String::from_str(rest),
                        },
                    );
                }
                proof {
                    assert(tv[0] == toks@[0]@);
                    assert(tv[1] == toks@[1]@);
                }
                let value = match parse_i32(toks[1].as_str()) {
                    Some(x) => x,
                    None => {
                        return Err(
                            AsmError {
                                kind: AsmErrorKind::MalformedOperand,
                                token: toks[1].clone(),
                            },
                        );
                    },
                };
                if self.next_free_address > 0xffff_fffbu32 {
                    return Err(
                        AsmError {
                            kind: AsmErrorKind::MalformedOperand,
                            token: String::from_str(label_text),
                        },
                    );
                }
                let addr = self.next_free_address;
                match self.data_labels.define(String::from_str(label_text), addr) {
                    Ok(_) => {},
                    Err(e) => {
                        return Err(e);
                    },
                }
                self.memory.insert(addr, value);
                self.next_free_address = addr + 4;
                Ok(())
            } else {
                let rest_len = rest.unicode_len();
                if rest_len > 0 && self.program.len() >= MAX_PROGRAM_WORDS {
                    return Err(
                        AsmError {
                            kind: AsmErrorKind::MalformedOperand,
                            token: String::from_str(rest),
                        },
                    );
                }
                let idx = self.program.len() as u32;
                match self.code_labels.define(String::from_str(label_text), idx) {
                    Ok(_) => {},
                    Err(e) => {
                        return Err(e);
                    },
                }
                if rest_len > 0 {
                    let ghost pre = views_of_strings(self.program@);
                    self.program.push(String::from_str(rest));
                    proof {
                        assert(views_of_strings(self.program@) =~= pre.push(rest@));
                    }
                }
                Ok(())
            }
        } else if self.in_data_section {
            Err(AsmError { kind: AsmErrorKind::MalformedOperand, token: String::from_str(t) })
        } else if self.program.len() >= MAX_PROGRAM_WORDS {
            Err(AsmError { kind: AsmErrorKind::MalformedOperand, token: String::from_str(t) })
        } else {
            let ghost pre = views_of_strings(self.program@);
            self.program.push(String::from_str(t));
            proof {
                assert(views_of_strings(self.program@) =~= pre.push(t@));
            }
            Ok(())
        }
    }

    /// Pass 1: scans the whole source, line by line. Builds the symbol
    /// tables, the initial data memory and the instruction list. The first
    /// diagnostic stops the scan; the execution state (registers, program
    /// counter, binary program) is never touched.
    pub fn load_program(&mut self, lines: &Vec<String>) -> (r: Result<(), AsmError>)
        requires
            old(self).wf(),
            old(self).code_labels.spec_policy() == old(self).data_labels.spec_policy(),
        ensures
            final(self).wf(),
            final(self).code_labels.spec_policy() == old(self).code_labels.spec_policy(),
            final(self).data_labels.spec_policy() == old(self).data_labels.spec_policy(),
            match spec_scan_lines(
                old(self).scan_view(),
                views_of_strings(lines@),
                old(self).data_labels.spec_policy(),
            ) {
                Ok(v) => r is Ok && final(self).scan_view() == v,
                Err((k, t)) => r matches Err(e) && e.kind == k && e.token@ == t,
            },
            final(self).scan_view() == spec_scan_progress(
                old(self).scan_view(),
                views_of_strings(lines@),
                old(self).data_labels.spec_policy(),
            ),
            final(self).registers == old(self).registers,
            final(self).pc == old(self).pc,
            final(self).binary_program == old(self).binary_program,
    {
        let ghost lv = views_of_strings(lines@);
        proof {
            assert(lv.skip(0) =~= lv);
        }
        let n = lines.len();
        let mut i: usize = 0;
        while i < n
            invariant
                0 <= i <= n,
                n == lines@.len(),
                lv == views_of_strings(lines@),
                self.wf(),
                self.code_labels.spec_policy() == old(self).code_labels.spec_policy(),
                self.data_labels.spec_policy() == old(self).data_labels.spec_policy(),
                self.code_labels.spec_policy() == self.data_labels.spec_policy(),
                spec_scan_lines(old(self).scan_view(), lv, old(self).data_labels.spec_policy())
                    == spec_scan_lines(
                    self.scan_view(),
                    lv.skip(i as int),
                    old(self).data_labels.spec_policy(),
                ),
                spec_scan_progress(
                    old(self).scan_view(),
                    lv,
                    old(self).data_labels.spec_policy(),
                ) == spec_scan_progress(
                    self.scan_view(),
                    lv.skip(i as int),
                    old(self).data_labels.spec_policy(),
                ),
                self.registers == old(self).registers,
                self.pc == old(self).pc,
                self.binary_program == old(self).binary_program,
            decreases n - i,
        {
            let ghost pre = self.scan_view();
            let r = self.scan_line(lines[i].as_str());
            proof {
                assert(lv[i as int] == lines@[i as int]@);
                assert(lv.skip(i as int)[0] == lv[i as int]);
                assert(lv.skip(i as int).drop_first() =~= lv.skip(i + 1));
            }
            match r {
                Ok(_) => {},
                Err(e) => {
                    return Err(e);
                },
            }
            i += 1;
        }
        proof {
            assert(lv.skip(n as int) =~= Seq::<Seq<char>>::empty());
        }
        Ok(())
    }
}


/// Length and leading character of each supported mnemonic: enough to tell
/// any two of them apart.
pub proof fn lemma_mnemonic_facts()
    ensures
        ("add"@).len() == 3 && ("add"@)[0] == 'a',
        ("sub"@).len() == 3 && ("sub"@)[0] == 's',
        ("and"@).len() == 3 && ("and"@)[0] == 'a' && ("and"@)[1] == 'n',
        ("or"@).len() == 2 && ("or"@)[0] == 'o',
        ("slt"@).len() == 3 && ("slt"@)[0] == 's' && ("slt"@)[1] == 'l',
        ("addi"@).len() == 4 && ("addi"@)[0] == 'a',
        ("lw"@).len() == 2 && ("lw"@)[0] == 'l',
        ("sw"@).len() == 2 && ("sw"@)[0] == 's',
        ("beq"@).len() == 3 && ("beq"@)[0] == 'b',
        ("j"@).len() == 1 && ("j"@)[0] == 'j',
{
    reveal_strlit("add");
    reveal_strlit("sub");
    reveal_strlit("and");
    reveal_strlit("or");
    reveal_strlit("slt");
    reveal_strlit("addi");
    reveal_strlit("lw");
    reveal_strlit("sw");
    reveal_strlit("beq");
    reveal_strlit("j");
}

/// The label, if any, that an instruction takes from the code-label
/// namespace: the target of a well-formed `beq` or `j`.
pub open spec fn spec_code_label_operand(toks: Seq<Seq<char>>) -> Option<Seq<char>> {
    if toks.len() == 4 && toks[0] == "beq"@ {
        Some(toks[3])
    } else if toks.len() == 2 && toks[0] == "j"@ {
        Some(toks[1])
    } else {
        None
    }
}

/// The label, if any, that an instruction takes from the data-label
/// namespace: the address operand of a well-formed `lw`/`sw` that is not
/// base-offset syntax.
pub open spec fn spec_data_label_operand(toks: Seq<Seq<char>>) -> Option<Seq<char>> {
    if toks.len() == 3 && (toks[0] == "lw"@ || toks[0] == "sw"@) && spec_find(toks[2], '(')
        == toks[2].len() {
        Some(toks[2])
    } else {
        None
    }
}

/// Label resolution: an instruction whose referenced label is defined never
/// reports `UnresolvedLabel`; one that references an undefined label, with
/// its other operands valid, reports exactly that kind for that label.
pub proof fn lemma_label_resolution(
    toks: Seq<Seq<char>>,
    code: Seq<(Seq<char>, u32)>,
    data: Seq<(Seq<char>, u32)>,
    idx: int,
)
    ensures
        spec_assemble_instruction(toks, code, data, idx) matches Err(e) ==> (e.0
            == AsmErrorKind::UnresolvedLabel ==> ((spec_code_label_operand(toks) matches Some(l)
            && spec_lookup(code, l) is None && e.1 == l) || (spec_data_label_operand(
            toks,
        ) matches Some(l2) && spec_lookup(data, l2) is None && e.1 == l2))),
        toks.len() == 2 && toks[0] == "j"@ && spec_lookup(code, toks[1]) is None
            ==> spec_assemble_instruction(toks, code, data, idx) == Err::<u32, (AsmErrorKind, Seq<
            char,
        >)>((AsmErrorKind::UnresolvedLabel, toks[1])),
        toks.len() == 4 && toks[0] == "beq"@ && spec_register_index(toks[1]) is Some
            && spec_register_index(toks[2]) is Some && spec_lookup(code, toks[3]) is None
            ==> spec_assemble_instruction(toks, code, data, idx) == Err::<u32, (AsmErrorKind, Seq<
            char,
        >)>((AsmErrorKind::UnresolvedLabel, toks[3])),
        toks.len() == 3 && (toks[0] == "lw"@ || toks[0] == "sw"@) && spec_register_index(
            toks[1],
        ) is Some && spec_find(toks[2], '(') == toks[2].len() && spec_lookup(data, toks[2]) is None
            ==> spec_assemble_instruction(toks, code, data, idx) == Err::<u32, (AsmErrorKind, Seq<
            char,
        >)>((AsmErrorKind::UnresolvedLabel, toks[2])),
{
    lemma_mnemonic_facts();
    if toks.len() == 3 {
        crate::text::lemma_find_props(toks[2], '(');
    }
}

/// Label resolution over a whole scanned program: when every referenced
/// label is defined, assembly never reports `UnresolvedLabel`.
pub proof fn lemma_program_label_resolution(
    prog: Seq<Seq<char>>,
    code: Seq<(Seq<char>, u32)>,
    data: Seq<(Seq<char>, u32)>,
    i: int,
)
    requires
        0 <= i <= prog.len(),
        forall|j: int|
            i <= j < prog.len() ==> ((#[trigger] spec_code_label_operand(
                spec_tokens(prog[j]),
            )) matches Some(l) ==> spec_lookup(code, l) is Some),
        forall|j: int|
            i <= j < prog.len() ==> ((#[trigger] spec_data_label_operand(
                spec_tokens(prog[j]),
            )) matches Some(l) ==> spec_lookup(data, l) is Some),
    ensures
        spec_assemble_from(prog, code, data, i) matches Err(e) ==> e.1
            != AsmErrorKind::UnresolvedLabel,
    decreases prog.len() - i,
{
    if i < prog.len() {
        lemma_label_resolution(spec_tokens(prog[i]), code, data, i);
        lemma_program_label_resolution(prog, code, data, i + 1);
    }
}

/// Branch offsets: a `beq` at instruction index `idx` whose label resolves
/// to index `l`, with `l - (idx + 1)` representable in 16 bits, encodes an
/// immediate that sign-extends to exactly `l - (idx + 1)`.
pub proof fn lemma_branch_offset_encoding(
    toks: Seq<Seq<char>>,
    code: Seq<(Seq<char>, u32)>,
    data: Seq<(Seq<char>, u32)>,
    idx: int,
)
    requires
        toks.len() == 4,
        toks[0] == "beq"@,
        spec_register_index(toks[1]) is Some,
        spec_register_index(toks[2]) is Some,
        spec_lookup(code, toks[3]) is Some,
        -0x8000 <= spec_lookup(code, toks[3]).unwrap() - (idx + 1) <= 0x7fff,
    ensures
        spec_assemble_instruction(toks, code, data, idx) matches Ok(w)
            && crate::numbers::spec_sign_extend(crate::encoding::spec_immediate(w)) == spec_lookup(
            code,
            toks[3],
        ).unwrap() - (idx + 1) && crate::encoding::spec_opcode(w) == 4
            && crate::encoding::spec_rs(w) == spec_register_index(toks[1]).unwrap()
            && crate::encoding::spec_rt(w) == spec_register_index(toks[2]).unwrap(),
{
    lemma_mnemonic_facts();
    let rs = spec_register_index(toks[1]).unwrap();
    let rt = spec_register_index(toks[2]).unwrap();
    let l = spec_lookup(code, toks[3]).unwrap();
    let off = l - (idx + 1);
    crate::registers::lemma_register_index_bound(toks[1]);
    crate::registers::lemma_register_index_bound(toks[2]);
    crate::encoding::lemma_i_round_trip(4, rs, rt, spec_to_u16(off));
    crate::numbers::lemma_sign_extend_to_u16(off);
}

/// Idempotence: assembly is a function of the scanned program and the two
/// symbol tables alone, so re-running it on the same inputs yields a
/// byte-identical binary program.
pub proof fn lemma_assembly_deterministic(
    prog1: Seq<Seq<char>>,
    code1: Seq<(Seq<char>, u32)>,
    data1: Seq<(Seq<char>, u32)>,
    prog2: Seq<Seq<char>>,
    code2: Seq<(Seq<char>, u32)>,
    data2: Seq<(Seq<char>, u32)>,
)
    requires
        prog1 == prog2,
        code1 == code2,
        data1 == data2,
    ensures
        spec_assemble_from(prog1, code1, data1, 0) == spec_assemble_from(prog2, code2, data2, 0),
{
}


/// Branch offset, end to end: when the assembled `beq` word stands at its
/// own index in the program, executing it lands the program counter on the
/// label's index when the compared registers are equal, and on the next
/// instruction otherwise.
pub proof fn lemma_branch_offset_end_to_end(
    toks: Seq<Seq<char>>,
    code: Seq<(Seq<char>, u32)>,
    data: Seq<(Seq<char>, u32)>,
    m: crate::machine::MachineView,
    idx: int,
)
    requires
        toks.len() == 4,
        toks[0] == "beq"@,
        spec_register_index(toks[1]) is Some,
        spec_register_index(toks[2]) is Some,
        spec_lookup(code, toks[3]) is Some,
        -0x8000 <= spec_lookup(code, toks[3]).unwrap() - (idx + 1) <= 0x7fff,
        m.pc == idx,
        0 <= idx < m.prog.len(),
        spec_assemble_instruction(toks, code, data, idx) == Ok::<u32, (AsmErrorKind, Seq<char>)>(
            m.prog[idx],
        ),
    ensures
        m.regs[spec_register_index(toks[1]).unwrap() as int] == m.regs[spec_register_index(
            toks[2],
        ).unwrap() as int] ==> crate::machine::spec_step(m).pc == spec_lookup(code, toks[3]).unwrap(),
        m.regs[spec_register_index(toks[1]).unwrap() as int] != m.regs[spec_register_index(
            toks[2],
        ).unwrap() as int] ==> crate::machine::spec_step(m).pc == idx + 1,
{
    lemma_branch_offset_encoding(toks, code, data, idx);
    let rs = spec_register_index(toks[1]).unwrap();
    let rt = spec_register_index(toks[2]).unwrap();
    let l = spec_lookup(code, toks[3]).unwrap();
    crate::registers::lemma_register_index_bound(toks[1]);
    crate::registers::lemma_register_index_bound(toks[2]);
    crate::encoding::lemma_i_round_trip(4, rs, rt, spec_to_u16(l - (idx + 1)));
    crate::machine::lemma_branch_execution(m, m.prog[idx], l as int);
}

} // verus!
