//! Assembly-time diagnostics. Every lookup failure is surfaced as a value
//! carrying the offending token instead of being silently defaulted.

use vstd::prelude::*;

verus! {

/// What went wrong while assembling one instruction or scanning one line.
#[derive(Clone, Copy, PartialEq, Eq, Structural, Debug)]
pub enum AsmErrorKind {
    /// The mnemonic is not in the supported set.
    UnknownMnemonic,
    /// A register token is not in the architectural name table.
    UnknownRegister,
    /// A referenced label is absent from the symbol table consulted.
    UnresolvedLabel,
    /// Wrong operand count, a non-numeric immediate, an immediate out of its
    /// field's range, or a malformed directive.
    MalformedOperand,
    /// A label was defined twice under the rejecting duplicate policy.
    DuplicateLabel,
}

/// An assembly-time diagnostic: its kind and the offending token.
#[derive(Clone, PartialEq, Eq, Debug)]
pub struct AsmError {
    pub kind: AsmErrorKind,
    pub token: String,
}

impl AsmError {
    /// The spec-level image of this error: its kind and the token's text.
    pub open spec fn view_pair(self) -> (AsmErrorKind, Seq<char>) {
        (self.kind, self.token@)
    }
}

} // verus!
