//! Textual rendering of encoded instructions: the 32-bit word grouped into
//! its fields, as the presentation layer prints it.

use vstd::prelude::*;

use crate::assembler::assemble_tokens;
use crate::assembler::is_r_type_mnemonic;
use crate::assembler::spec_assemble_instruction;
use crate::errors::AsmError;
use crate::errors::AsmErrorKind;
use crate::registers::register_index_of;
use crate::registers::spec_register_index;
use crate::symtab::SymbolTable;
use crate::text::binary_string;
use crate::text::spec_binary_chars;
use crate::text::spec_tokens;
use crate::text::str_eq;
use crate::text::tokenize;
use crate::text::views_of_strings;

verus! {

/// The I-format mnemonics: printed as four groups of 6/5/5/16 bits.
pub open spec fn is_i_format_mnemonic(m: Seq<char>) -> bool {
    m == "addi"@ || m == "lw"@ || m == "sw"@ || m == "beq"@
}

/// The word's 32 binary digits grouped by the fields of the mnemonic's
/// format, separated by single spaces. An unknown mnemonic is printed
/// ungrouped.
pub open spec fn spec_format_word(mnemonic: Seq<char>, w: u32) -> Seq<char> {
    let b = spec_binary_chars(w, 32);
    if is_r_type_mnemonic(mnemonic) {
        b.subrange(0, 6) + seq![' '] + b.subrange(6, 11) + seq![' '] + b.subrange(11, 16)
            + seq![' '] + b.subrange(16, 21) + seq![' '] + b.subrange(21, 26) + seq![' ']
            + b.subrange(26, 32)
    } else if is_i_format_mnemonic(mnemonic) {
        b.subrange(0, 6) + seq![' '] + b.subrange(6, 11) + seq![' '] + b.subrange(11, 16)
            + seq![' '] + b.subrange(16, 32)
    } else if mnemonic == "j"@ {
        b.subrange(0, 6) + seq![' '] + b.subrange(6, 32)
    } else {
        b
    }
}

proof fn lemma_binary_chars_len(v: u32, width: nat)
    ensures
        spec_binary_chars(v, width).len() == width,
    decreases width,
{
    if width > 0 {
        lemma_binary_chars_len(v, (width - 1) as nat);
    }
}

/// Renders an encoded word grouped by the fields of `mnemonic`'s format.
pub fn format_binary_instruction(mnemonic: &str, binary_instruction: u32) -> (r: String)
    ensures
        r@ == spec_format_word(mnemonic@, binary_instruction),
{
    let b = binary_string(binary_instruction, 32);
    let bs = b.as_str();
    proof {
        lemma_binary_chars_len(binary_instruction, 32);
        reveal_strlit(" ");
        assert(" "@ =~= seq![' ']);
    }
    let mut out = String::new();
    if str_eq(mnemonic, "add") || str_eq(mnemonic, "sub") || str_eq(mnemonic, "and") || str_eq(
        mnemonic,
        "or",
    ) || str_eq(mnemonic, "slt") {
        out.append(bs.substring_char(0, 6));
        out.append(" ");
        out.append(bs.substring_char(6, 11));
        out.append(" ");
        out.append(bs.substring_char(11, 16));
        out.append(" ");
        out.append(bs.substring_char(16, 21));
        out.append(" ");
        out.append(bs.substring_char(21, 26));
        out.append(" ");
        out.append(bs.substring_char(26, 32));
        proof {
            assert(out@ =~= spec_format_word(mnemonic@, binary_instruction));
        }
    } else if str_eq(mnemonic, "addi") || str_eq(mnemonic, "lw") || str_eq(mnemonic, "sw")
        || str_eq(mnemonic, "beq") {
        out.append(bs.substring_char(0, 6));
        out.append(" ");
        out.append(bs.substring_char(6, 11));
        out.append(" ");
        out.append(bs.substring_char(11, 16));
        out.append(" ");
        out.append(bs.substring_char(16, 32));
        proof {
            assert(out@ =~= spec_format_word(mnemonic@, binary_instruction));
        }
    } else if str_eq(mnemonic, "j") {
        out.append(bs.substring_char(0, 6));
        out.append(" ");
        out.append(bs.substring_char(6, 32));
        proof {
            assert(out@ =~= spec_format_word(mnemonic@, binary_instruction));
        }
    } else {
        out.append(bs);
        proof {
            assert(out@ =~= spec_format_word(mnemonic@, binary_instruction));
        }
    }
    out
}

/// Translates one instruction line to its grouped binary text, resolving
/// label operands against the given symbol tables; `current_pc` is the
/// instruction's word index.
pub fn instruction_to_binary(
    instru: &str,
    code_labels: &SymbolTable,
    data_labels: &SymbolTable,
    current_pc: u32,
) -> (r: Result<String, AsmError>)
    ensures
        match r {
            Ok(s) => spec_assemble_instruction(
                spec_tokens(instru@),
                code_labels@,
                data_labels@,
                current_pc as int,
            ) matches Ok(w) && s@ == spec_format_word(spec_tokens(instru@)[0], w),
            Err(e) => spec_assemble_instruction(
                spec_tokens(instru@),
                code_labels@,
                data_labels@,
                current_pc as int,
            ) == Err::<u32, (AsmErrorKind, Seq<char>)>((e.kind, e.token@)),
        },
{
    let toks = tokenize(instru);
    match assemble_tokens(&toks, code_labels, data_labels, current_pc) {
        Ok(w) => {
            proof {
                assert(views_of_strings(toks@)[0] == toks@[0]@);
            }
            let mnemonic = &toks[0];
            Ok(format_binary_instruction(mnemonic.as_str(), w))
        },
        Err(e) => Err(e),
    }
}

/// The 5-bit binary text of a register name; an unknown name is an error.
pub fn register_to_binary(reg: &str) -> (r: Result<String, AsmError>)
    ensures
        match r {
            Ok(s) => spec_register_index(reg@) matches Some(i) && s@ == spec_binary_chars(
                i as u32,
                5,
            ),
            Err(e) => spec_register_index(reg@) is None && e.kind == AsmErrorKind::UnknownRegister
                && e.token@ == reg@,
        },
{
    match register_index_of(reg) {
        Some(i) => Ok(binary_string(i as u32, 5)),
        None => Err(
            AsmError { kind: AsmErrorKind::UnknownRegister, token: String::from_str(reg) },
        ),
    }
}

/// Echoes an instruction line under a fixed caption: the placeholder
/// rendering used before an instruction has an encoding.
pub fn _intru_to_bin(instru: &str) -> (r: String)
    ensures
        r@ == "Binary representation of: "@ + instru@,
{
    let mut s = String::from_str("Binary representation of: ");
    s.append(instru);
    s
}

} // verus!
