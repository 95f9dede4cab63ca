//! The architectural register name table: all 32 names, mapped
//! bidirectionally to their indices. An unrecognized name is reported,
//! never silently mapped to register 0.

use vstd::prelude::*;

use crate::text::str_eq;

verus! {

/// The index a register name denotes, if any.
pub open spec fn spec_register_index(s: Seq<char>) -> Option<u8> {
    if s == "$zero"@ {
        Some(0u8)
    } else if s == "$at"@ {
        Some(1u8)
    } else if s == "$v0"@ {
        Some(2u8)
    } else if s == "$v1"@ {
        Some(3u8)
    } else if s == "$a0"@ {
        Some(4u8)
    } else if s == "$a1"@ {
        Some(5u8)
    } else if s == "$a2"@ {
        Some(6u8)
    } else if s == "$a3"@ {
        Some(7u8)
    } else if s == "$t0"@ {
        Some(8u8)
    } else if s == "$t1"@ {
        Some(9u8)
    } else if s == "$t2"@ {
        Some(10u8)
    } else if s == "$t3"@ {
        Some(11u8)
    } else if s == "$t4"@ {
        Some(12u8)
    } else if s == "$t5"@ {
        Some(13u8)
    } else if s == "$t6"@ {
        Some(14u8)
    } else if s == "$t7"@ {
        Some(15u8)
    } else if s == "$s0"@ {
        Some(16u8)
    } else if s == "$s1"@ {
        Some(17u8)
    } else if s == "$s2"@ {
        Some(18u8)
    } else if s == "$s3"@ {
        Some(19u8)
    } else if s == "$s4"@ {
        Some(20u8)
    } else if s == "$s5"@ {
        Some(21u8)
    } else if s == "$s6"@ {
        Some(22u8)
    } else if s == "$s7"@ {
        Some(23u8)
    } else if s == "$t8"@ {
        Some(24u8)
    } else if s == "$t9"@ {
        Some(25u8)
    } else if s == "$k0"@ {
        Some(26u8)
    } else if s == "$k1"@ {
        Some(27u8)
    } else if s == "$gp"@ {
        Some(28u8)
    } else if s == "$sp"@ {
        Some(29u8)
    } else if s == "$fp"@ {
        Some(30u8)
    } else if s == "$ra"@ {
        Some(31u8)
    } else {
        None
    }
}

/// The name of the register with the given index (for indices below 32).
pub open spec fn spec_register_name(i: int) -> Seq<char> {
    if i == 0 {
        "$zero"@
    } else if i == 1 {
        "$at"@
    } else if i == 2 {
        "$v0"@
    } else if i == 3 {
        "$v1"@
    } else if i == 4 {
        "$a0"@
    } else if i == 5 {
        "$a1"@
    } else if i == 6 {
        "$a2"@
    } else if i == 7 {
        "$a3"@
    } else if i == 8 {
        "$t0"@
    } else if i == 9 {
        "$t1"@
    } else if i == 10 {
        "$t2"@
    } else if i == 11 {
        "$t3"@
    } else if i == 12 {
        "$t4"@
    } else if i == 13 {
        "$t5"@
    } else if i == 14 {
        "$t6"@
    } else if i == 15 {
        "$t7"@
    } else if i == 16 {
        "$s0"@
    } else if i == 17 {
        "$s1"@
    } else if i == 18 {
        "$s2"@
    } else if i == 19 {
        "$s3"@
    } else if i == 20 {
        "$s4"@
    } else if i == 21 {
        "$s5"@
    } else if i == 22 {
        "$s6"@
    } else if i == 23 {
        "$s7"@
    } else if i == 24 {
        "$t8"@
    } else if i == 25 {
        "$t9"@
    } else if i == 26 {
        "$k0"@
    } else if i == 27 {
        "$k1"@
    } else if i == 28 {
        "$gp"@
    } else if i == 29 {
        "$sp"@
    } else if i == 30 {
        "$fp"@
    } else if i == 31 {
        "$ra"@
    } else {
        Seq::empty()
    }
}

/// Looks a register name up in the architectural name table.
pub fn register_index_of(register: &str) -> (r: Option<u8>)
    ensures
        r == spec_register_index(register@),
        r matches Some(i) ==> i < 32,
{
    if str_eq(register, "$zero") {
        Some(0)
    } else if str_eq(register, "$at") {
        Some(1)
    } else if str_eq(register, "$v0") {
        Some(2)
    } else if str_eq(register, "$v1") {
        Some(3)
    } else if str_eq(register, "$a0") {
        Some(4)
    } else if str_eq(register, "$a1") {
        Some(5)
    } else if str_eq(register, "$a2") {
        Some(6)
    } else if str_eq(register, "$a3") {
        Some(7)
    } else if str_eq(register, "$t0") {
        Some(8)
    } else if str_eq(register, "$t1") {
        Some(9)
    } else if str_eq(register, "$t2") {
        Some(10)
    } else if str_eq(register, "$t3") {
        Some(11)
    } else if str_eq(register, "$t4") {
        Some(12)
    } else if str_eq(register, "$t5") {
        Some(13)
    } else if str_eq(register, "$t6") {
        Some(14)
    } else if str_eq(register, "$t7") {
        Some(15)
    } else if str_eq(register, "$s0") {
        Some(16)
    } else if str_eq(register, "$s1") {
        Some(17)
    } else if str_eq(register, "$s2") {
        Some(18)
    } else if str_eq(register, "$s3") {
        Some(19)
    } else if str_eq(register, "$s4") {
        Some(20)
    } else if str_eq(register, "$s5") {
        Some(21)
    } else if str_eq(register, "$s6") {
        Some(22)
    } else if str_eq(register, "$s7") {
        Some(23)
    } else if str_eq(register, "$t8") {
        Some(24)
    } else if str_eq(register, "$t9") {
        Some(25)
    } else if str_eq(register, "$k0") {
        Some(26)
    } else if str_eq(register, "$k1") {
        Some(27)
    } else if str_eq(register, "$gp") {
        Some(28)
    } else if str_eq(register, "$sp") {
        Some(29)
    } else if str_eq(register, "$fp") {
        Some(30)
    } else if str_eq(register, "$ra") {
        Some(31)
    } else {
        None
    }
}

/// The symbolic name of a register index.
pub fn register_name_of(index: usize) -> (r: String)
    requires
        index < 32,
    ensures
        r@ == spec_register_name(index as int),
{
    if index == 0 {
        String::from_str("$zero")
    } else if index == 1 {
        String::from_str("$at")
    } else if index == 2 {
        String::from_str("$v0")
    } else if index == 3 {
        String::from_str("$v1")
    } else if index == 4 {
        String::from_str("$a0")
    } else if index == 5 {
        String::from_str("$a1")
    } else if index == 6 {
        String::from_str("$a2")
    } else if index == 7 {
        String::from_str("$a3")
    } else if index == 8 {
        String::from_str("$t0")
    } else if index == 9 {
        String::from_str("$t1")
    } else if index == 10 {
        String::from_str("$t2")
    } else if index == 11 {
        String::from_str("$t3")
    } else if index == 12 {
        String::from_str("$t4")
    } else if index == 13 {
        String::from_str("$t5")
    } else if index == 14 {
        String::from_str("$t6")
    } else if index == 15 {
        String::from_str("$t7")
    } else if index == 16 {
        String::from_str("$s0")
    } else if index == 17 {
        String::from_str("$s1")
    } else if index == 18 {
        String::from_str("$s2")
    } else if index == 19 {
        String::from_str("$s3")
    } else if index == 20 {
        String::from_str("$s4")
    } else if index == 21 {
        String::from_str("$s5")
    } else if index == 22 {
        String::from_str("$s6")
    } else if index == 23 {
        String::from_str("$s7")
    } else if index == 24 {
        String::from_str("$t8")
    } else if index == 25 {
        String::from_str("$t9")
    } else if index == 26 {
        String::from_str("$k0")
    } else if index == 27 {
        String::from_str("$k1")
    } else if index == 28 {
        String::from_str("$gp")
    } else if index == 29 {
        String::from_str("$sp")
    } else if index == 30 {
        String::from_str("$fp")
    } else if index == 31 {
        String::from_str("$ra")
    } else {
        String::from_str("$ra")
    }
}

/// A successful lookup always yields a valid register index.
pub proof fn lemma_register_index_bound(s: Seq<char>)
    ensures
        spec_register_index(s) matches Some(i) ==> i < 32,
{
}

/// Name and index are mutual inverses: looking up the name of any register
/// index yields that index back.
#[verifier::rlimit(100)]
pub proof fn lemma_register_name_index_inverse(i: int)
    requires
        0 <= i < 32,
    ensures
        spec_register_index(spec_register_name(i)) == Some(i as u8),
{
    reveal_strlit("$zero");
    reveal_strlit("$at");
    reveal_strlit("$v0");
    reveal_strlit("$v1");
    reveal_strlit("$a0");
    reveal_strlit("$a1");
    reveal_strlit("$a2");
    reveal_strlit("$a3");
    reveal_strlit("$t0");
    reveal_strlit("$t1");
    reveal_strlit("$t2");
    reveal_strlit("$t3");
    reveal_strlit("$t4");
    reveal_strlit("$t5");
    reveal_strlit("$t6");
    reveal_strlit("$t7");
    reveal_strlit("$s0");
    reveal_strlit("$s1");
    reveal_strlit("$s2");
    reveal_strlit("$s3");
    reveal_strlit("$s4");
    reveal_strlit("$s5");
    reveal_strlit("$s6");
    reveal_strlit("$s7");
    reveal_strlit("$t8");
    reveal_strlit("$t9");
    reveal_strlit("$k0");
    reveal_strlit("$k1");
    reveal_strlit("$gp");
    reveal_strlit("$sp");
    reveal_strlit("$fp");
    reveal_strlit("$ra");
    assert(("$zero"@).len() == 5);
    assert(("$zero"@)[1] == 'z');
    assert(("$zero"@)[2] == 'e');
    assert(("$at"@).len() == 3);
    assert(("$at"@)[1] == 'a');
    assert(("$at"@)[2] == 't');
    assert(("$v0"@).len() == 3);
    assert(("$v0"@)[1] == 'v');
    assert(("$v0"@)[2] == '0');
    assert(("$v1"@).len() == 3);
    assert(("$v1"@)[1] == 'v');
    assert(("$v1"@)[2] == '1');
    assert(("$a0"@).len() == 3);
    assert(("$a0"@)[1] == 'a');
    assert(("$a0"@)[2] == '0');
    assert(("$a1"@).len() == 3);
    assert(("$a1"@)[1] == 'a');
    assert(("$a1"@)[2] == '1');
    assert(("$a2"@).len() == 3);
    assert(("$a2"@)[1] == 'a');
    assert(("$a2"@)[2] == '2');
    assert(("$a3"@).len() == 3);
    assert(("$a3"@)[1] == 'a');
    assert(("$a3"@)[2] == '3');
    assert(("$t0"@).len() == 3);
    assert(("$t0"@)[1] == 't');
    assert(("$t0"@)[2] == '0');
    assert(("$t1"@).len() == 3);
    assert(("$t1"@)[1] == 't');
    assert(("$t1"@)[2] == '1');
    assert(("$t2"@).len() == 3);
    assert(("$t2"@)[1] == 't');
    assert(("$t2"@)[2] == '2');
    assert(("$t3"@).len() == 3);
    assert(("$t3"@)[1] == 't');
    assert(("$t3"@)[2] == '3');
    assert(("$t4"@).len() == 3);
    assert(("$t4"@)[1] == 't');
    assert(("$t4"@)[2] == '4');
    assert(("$t5"@).len() == 3);
    assert(("$t5"@)[1] == 't');
    assert(("$t5"@)[2] == '5');
    assert(("$t6"@).len() == 3);
    assert(("$t6"@)[1] == 't');
    assert(("$t6"@)[2] == '6');
    assert(("$t7"@).len() == 3);
    assert(("$t7"@)[1] == 't');
    assert(("$t7"@)[2] == '7');
    assert(("$s0"@).len() == 3);
    assert(("$s0"@)[1] == 's');
    assert(("$s0"@)[2] == '0');
    assert(("$s1"@).len() == 3);
    assert(("$s1"@)[1] == 's');
    assert(("$s1"@)[2] == '1');
    assert(("$s2"@).len() == 3);
    assert(("$s2"@)[1] == 's');
    assert(("$s2"@)[2] == '2');
    assert(("$s3"@).len() == 3);
    assert(("$s3"@)[1] == 's');
    assert(("$s3"@)[2] == '3');
    assert(("$s4"@).len() == 3);
    assert(("$s4"@)[1] == 's');
    assert(("$s4"@)[2] == '4');
    assert(("$s5"@).len() == 3);
    assert(("$s5"@)[1] == 's');
    assert(("$s5"@)[2] == '5');
    assert(("$s6"@).len() == 3);
    assert(("$s6"@)[1] == 's');
    assert(("$s6"@)[2] == '6');
    assert(("$s7"@).len() == 3);
    assert(("$s7"@)[1] == 's');
    assert(("$s7"@)[2] == '7');
    assert(("$t8"@).len() == 3);
    assert(("$t8"@)[1] == 't');
    assert(("$t8"@)[2] == '8');
    assert(("$t9"@).len() == 3);
    assert(("$t9"@)[1] == 't');
    assert(("$t9"@)[2] == '9');
    assert(("$k0"@).len() == 3);
    assert(("$k0"@)[1] == 'k');
    assert(("$k0"@)[2] == '0');
    assert(("$k1"@).len() == 3);
    assert(("$k1"@)[1] == 'k');
    assert(("$k1"@)[2] == '1');
    assert(("$gp"@).len() == 3);
    assert(("$gp"@)[1] == 'g');
    assert(("$gp"@)[2] == 'p');
    assert(("$sp"@).len() == 3);
    assert(("$sp"@)[1] == 's');
    assert(("$sp"@)[2] == 'p');
    assert(("$fp"@).len() == 3);
    assert(("$fp"@)[1] == 'f');
    assert(("$fp"@)[2] == 'p');
    assert(("$ra"@).len() == 3);
    assert(("$ra"@)[1] == 'r');
    assert(("$ra"@)[2] == 'a');
    if i == 0 {
        assert(spec_register_index("$zero"@) == Some(0u8));
    } else if i == 1 {
        assert("$at"@ != "$zero"@);
        assert(spec_register_index("$at"@) == Some(1u8));
    } else if i == 2 {
        assert("$v0"@ != "$zero"@);
        assert("$v0"@ != "$at"@);
        assert(spec_register_index("$v0"@) == Some(2u8));
    } else if i == 3 {
        assert("$v1"@ != "$zero"@);
        assert("$v1"@ != "$at"@);
        assert("$v1"@ != "$v0"@);
        assert(spec_register_index("$v1"@) == Some(3u8));
    } else if i == 4 {
        assert("$a0"@ != "$zero"@);
        assert("$a0"@ != "$at"@);
        assert("$a0"@ != "$v0"@);
        assert("$a0"@ != "$v1"@);
        assert(spec_register_index("$a0"@) == Some(4u8));
    } else if i == 5 {
        assert("$a1"@ != "$zero"@);
        assert("$a1"@ != "$at"@);
        assert("$a1"@ != "$v0"@);
        assert("$a1"@ != "$v1"@);
        assert("$a1"@ != "$a0"@);
        assert(spec_register_index("$a1"@) == Some(5u8));
    } else if i == 6 {
        assert("$a2"@ != "$zero"@);
        assert("$a2"@ != "$at"@);
        assert("$a2"@ != "$v0"@);
        assert("$a2"@ != "$v1"@);
        assert("$a2"@ != "$a0"@);
        assert("$a2"@ != "$a1"@);
        assert(spec_register_index("$a2"@) == Some(6u8));
    } else if i == 7 {
        assert("$a3"@ != "$zero"@);
        assert("$a3"@ != "$at"@);
        assert("$a3"@ != "$v0"@);
        assert("$a3"@ != "$v1"@);
        assert("$a3"@ != "$a0"@);
        assert("$a3"@ != "$a1"@);
        assert("$a3"@ != "$a2"@);
        assert(spec_register_index("$a3"@) == Some(7u8));
    } else if i == 8 {
        assert("$t0"@ != "$zero"@);
        assert("$t0"@ != "$at"@);
        assert("$t0"@ != "$v0"@);
        assert("$t0"@ != "$v1"@);
        assert("$t0"@ != "$a0"@);
        assert("$t0"@ != "$a1"@);
        assert("$t0"@ != "$a2"@);
        assert("$t0"@ != "$a3"@);
        assert(spec_register_index("$t0"@) == Some(8u8));
    } else if i == 9 {
        assert("$t1"@ != "$zero"@);
        assert("$t1"@ != "$at"@);
        assert("$t1"@ != "$v0"@);
        assert("$t1"@ != "$v1"@);
        assert("$t1"@ != "$a0"@);
        assert("$t1"@ != "$a1"@);
        assert("$t1"@ != "$a2"@);
        assert("$t1"@ != "$a3"@);
        assert("$t1"@ != "$t0"@);
        assert(spec_register_index("$t1"@) == Some(9u8));
    } else if i == 10 {
        assert("$t2"@ != "$zero"@);
        assert("$t2"@ != "$at"@);
        assert("$t2"@ != "$v0"@);
        assert("$t2"@ != "$v1"@);
        assert("$t2"@ != "$a0"@);
        assert("$t2"@ != "$a1"@);
        assert("$t2"@ != "$a2"@);
        assert("$t2"@ != "$a3"@);
        assert("$t2"@ != "$t0"@);
        assert("$t2"@ != "$t1"@);
        assert(spec_register_index("$t2"@) == Some(10u8));
    } else if i == 11 {
        assert("$t3"@ != "$zero"@);
        assert("$t3"@ != "$at"@);
        assert("$t3"@ != "$v0"@);
        assert("$t3"@ != "$v1"@);
        assert("$t3"@ != "$a0"@);
        assert("$t3"@ != "$a1"@);
        assert("$t3"@ != "$a2"@);
        assert("$t3"@ != "$a3"@);
        assert("$t3"@ != "$t0"@);
        assert("$t3"@ != "$t1"@);
        assert("$t3"@ != "$t2"@);
        assert(spec_register_index("$t3"@) == Some(11u8));
    } else if i == 12 {
        assert("$t4"@ != "$zero"@);
        assert("$t4"@ != "$at"@);
        assert("$t4"@ != "$v0"@);
        assert("$t4"@ != "$v1"@);
        assert("$t4"@ != "$a0"@);
        assert("$t4"@ != "$a1"@);
        assert("$t4"@ != "$a2"@);
        assert("$t4"@ != "$a3"@);
        assert("$t4"@ != "$t0"@);
        assert("$t4"@ != "$t1"@);
        assert("$t4"@ != "$t2"@);
        assert("$t4"@ != "$t3"@);
        assert(spec_register_index("$t4"@) == Some(12u8));
    } else if i == 13 {
        assert("$t5"@ != "$zero"@);
        assert("$t5"@ != "$at"@);
        assert("$t5"@ != "$v0"@);
        assert("$t5"@ != "$v1"@);
        assert("$t5"@ != "$a0"@);
        assert("$t5"@ != "$a1"@);
        assert("$t5"@ != "$a2"@);
        assert("$t5"@ != "$a3"@);
        assert("$t5"@ != "$t0"@);
        assert("$t5"@ != "$t1"@);
        assert("$t5"@ != "$t2"@);
        assert("$t5"@ != "$t3"@);
        assert("$t5"@ != "$t4"@);
        assert(spec_register_index("$t5"@) == Some(13u8));
    } else if i == 14 {
        assert("$t6"@ != "$zero"@);
        assert("$t6"@ != "$at"@);
        assert("$t6"@ != "$v0"@);
        assert("$t6"@ != "$v1"@);
        assert("$t6"@ != "$a0"@);
        assert("$t6"@ != "$a1"@);
        assert("$t6"@ != "$a2"@);
        assert("$t6"@ != "$a3"@);
        assert("$t6"@ != "$t0"@);
        assert("$t6"@ != "$t1"@);
        assert("$t6"@ != "$t2"@);
        assert("$t6"@ != "$t3"@);
        assert("$t6"@ != "$t4"@);
        assert("$t6"@ != "$t5"@);
        assert(spec_register_index("$t6"@) == Some(14u8));
    } else if i == 15 {
        assert("$t7"@ != "$zero"@);
        assert("$t7"@ != "$at"@);
        assert("$t7"@ != "$v0"@);
        assert("$t7"@ != "$v1"@);
        assert("$t7"@ != "$a0"@);
        assert("$t7"@ != "$a1"@);
        assert("$t7"@ != "$a2"@);
        assert("$t7"@ != "$a3"@);
        assert("$t7"@ != "$t0"@);
        assert("$t7"@ != "$t1"@);
        assert("$t7"@ != "$t2"@);
        assert("$t7"@ != "$t3"@);
        assert("$t7"@ != "$t4"@);
        assert("$t7"@ != "$t5"@);
        assert("$t7"@ != "$t6"@);
        assert(spec_register_index("$t7"@) == Some(15u8));
    } else if i == 16 {
        assert("$s0"@ != "$zero"@);
        assert("$s0"@ != "$at"@);
        assert("$s0"@ != "$v0"@);
        assert("$s0"@ != "$v1"@);
        assert("$s0"@ != "$a0"@);
        assert("$s0"@ != "$a1"@);
        assert("$s0"@ != "$a2"@);
        assert("$s0"@ != "$a3"@);
        assert("$s0"@ != "$t0"@);
        assert("$s0"@ != "$t1"@);
        assert("$s0"@ != "$t2"@);
        assert("$s0"@ != "$t3"@);
        assert("$s0"@ != "$t4"@);
        assert("$s0"@ != "$t5"@);
        assert("$s0"@ != "$t6"@);
        assert("$s0"@ != "$t7"@);
        assert(spec_register_index("$s0"@) == Some(16u8));
    } else if i == 17 {
        assert("$s1"@ != "$zero"@);
        assert("$s1"@ != "$at"@);
        assert("$s1"@ != "$v0"@);
        assert("$s1"@ != "$v1"@);
        assert("$s1"@ != "$a0"@);
        assert("$s1"@ != "$a1"@);
        assert("$s1"@ != "$a2"@);
        assert("$s1"@ != "$a3"@);
        assert("$s1"@ != "$t0"@);
        assert("$s1"@ != "$t1"@);
        assert("$s1"@ != "$t2"@);
        assert("$s1"@ != "$t3"@);
        assert("$s1"@ != "$t4"@);
        assert("$s1"@ != "$t5"@);
        assert("$s1"@ != "$t6"@);
        assert("$s1"@ != "$t7"@);
        assert("$s1"@ != "$s0"@);
        assert(spec_register_index("$s1"@) == Some(17u8));
    } else if i == 18 {
        assert("$s2"@ != "$zero"@);
        assert("$s2"@ != "$at"@);
        assert("$s2"@ != "$v0"@);
        assert("$s2"@ != "$v1"@);
        assert("$s2"@ != "$a0"@);
        assert("$s2"@ != "$a1"@);
        assert("$s2"@ != "$a2"@);
        assert("$s2"@ != "$a3"@);
        assert("$s2"@ != "$t0"@);
        assert("$s2"@ != "$t1"@);
        assert("$s2"@ != "$t2"@);
        assert("$s2"@ != "$t3"@);
        assert("$s2"@ != "$t4"@);
        assert("$s2"@ != "$t5"@);
        assert("$s2"@ != "$t6"@);
        assert("$s2"@ != "$t7"@);
        assert("$s2"@ != "$s0"@);
        assert("$s2"@ != "$s1"@);
        assert(spec_register_index("$s2"@) == Some(18u8));
    } else if i == 19 {
        assert("$s3"@ != "$zero"@);
        assert("$s3"@ != "$at"@);
        assert("$s3"@ != "$v0"@);
        assert("$s3"@ != "$v1"@);
        assert("$s3"@ != "$a0"@);
        assert("$s3"@ != "$a1"@);
        assert("$s3"@ != "$a2"@);
        assert("$s3"@ != "$a3"@);
        assert("$s3"@ != "$t0"@);
        assert("$s3"@ != "$t1"@);
        assert("$s3"@ != "$t2"@);
        assert("$s3"@ != "$t3"@);
        assert("$s3"@ != "$t4"@);
        assert("$s3"@ != "$t5"@);
        assert("$s3"@ != "$t6"@);
        assert("$s3"@ != "$t7"@);
        assert("$s3"@ != "$s0"@);
        assert("$s3"@ != "$s1"@);
        assert("$s3"@ != "$s2"@);
        assert(spec_register_index("$s3"@) == Some(19u8));
    } else if i == 20 {
        assert("$s4"@ != "$zero"@);
        assert("$s4"@ != "$at"@);
        assert("$s4"@ != "$v0"@);
        assert("$s4"@ != "$v1"@);
        assert("$s4"@ != "$a0"@);
        assert("$s4"@ != "$a1"@);
        assert("$s4"@ != "$a2"@);
        assert("$s4"@ != "$a3"@);
        assert("$s4"@ != "$t0"@);
        assert("$s4"@ != "$t1"@);
        assert("$s4"@ != "$t2"@);
        assert("$s4"@ != "$t3"@);
        assert("$s4"@ != "$t4"@);
        assert("$s4"@ != "$t5"@);
        assert("$s4"@ != "$t6"@);
        assert("$s4"@ != "$t7"@);
        assert("$s4"@ != "$s0"@);
        assert("$s4"@ != "$s1"@);
        assert("$s4"@ != "$s2"@);
        assert("$s4"@ != "$s3"@);
        assert(spec_register_index("$s4"@) == Some(20u8));
    } else if i == 21 {
        assert("$s5"@ != "$zero"@);
        assert("$s5"@ != "$at"@);
        assert("$s5"@ != "$v0"@);
        assert("$s5"@ != "$v1"@);
        assert("$s5"@ != "$a0"@);
        assert("$s5"@ != "$a1"@);
        assert("$s5"@ != "$a2"@);
        assert("$s5"@ != "$a3"@);
        assert("$s5"@ != "$t0"@);
        assert("$s5"@ != "$t1"@);
        assert("$s5"@ != "$t2"@);
        assert("$s5"@ != "$t3"@);
        assert("$s5"@ != "$t4"@);
        assert("$s5"@ != "$t5"@);
        assert("$s5"@ != "$t6"@);
        assert("$s5"@ != "$t7"@);
        assert("$s5"@ != "$s0"@);
        assert("$s5"@ != "$s1"@);
        assert("$s5"@ != "$s2"@);
        assert("$s5"@ != "$s3"@);
        assert("$s5"@ != "$s4"@);
        assert(spec_register_index("$s5"@) == Some(21u8));
    } else if i == 22 {
        assert("$s6"@ != "$zero"@);
        assert("$s6"@ != "$at"@);
        assert("$s6"@ != "$v0"@);
        assert("$s6"@ != "$v1"@);
        assert("$s6"@ != "$a0"@);
        assert("$s6"@ != "$a1"@);
        assert("$s6"@ != "$a2"@);
        assert("$s6"@ != "$a3"@);
        assert("$s6"@ != "$t0"@);
        assert("$s6"@ != "$t1"@);
        assert("$s6"@ != "$t2"@);
        assert("$s6"@ != "$t3"@);
        assert("$s6"@ != "$t4"@);
        assert("$s6"@ != "$t5"@);
        assert("$s6"@ != "$t6"@);
        assert("$s6"@ != "$t7"@);
        assert("$s6"@ != "$s0"@);
        assert("$s6"@ != "$s1"@);
        assert("$s6"@ != "$s2"@);
        assert("$s6"@ != "$s3"@);
        assert("$s6"@ != "$s4"@);
        assert("$s6"@ != "$s5"@);
        assert(spec_register_index("$s6"@) == Some(22u8));
    } else if i == 23 {
        assert("$s7"@ != "$zero"@);
        assert("$s7"@ != "$at"@);
        assert("$s7"@ != "$v0"@);
        assert("$s7"@ != "$v1"@);
        assert("$s7"@ != "$a0"@);
        assert("$s7"@ != "$a1"@);
        assert("$s7"@ != "$a2"@);
        assert("$s7"@ != "$a3"@);
        assert("$s7"@ != "$t0"@);
        assert("$s7"@ != "$t1"@);
        assert("$s7"@ != "$t2"@);
        assert("$s7"@ != "$t3"@);
        assert("$s7"@ != "$t4"@);
        assert("$s7"@ != "$t5"@);
        assert("$s7"@ != "$t6"@);
        assert("$s7"@ != "$t7"@);
        assert("$s7"@ != "$s0"@);
        assert("$s7"@ != "$s1"@);
        assert("$s7"@ != "$s2"@);
        assert("$s7"@ != "$s3"@);
        assert("$s7"@ != "$s4"@);
        assert("$s7"@ != "$s5"@);
        assert("$s7"@ != "$s6"@);
        assert(spec_register_index("$s7"@) == Some(23u8));
    } else if i == 24 {
        assert("$t8"@ != "$zero"@);
        assert("$t8"@ != "$at"@);
        assert("$t8"@ != "$v0"@);
        assert("$t8"@ != "$v1"@);
        assert("$t8"@ != "$a0"@);
        assert("$t8"@ != "$a1"@);
        assert("$t8"@ != "$a2"@);
        assert("$t8"@ != "$a3"@);
        assert("$t8"@ != "$t0"@);
        assert("$t8"@ != "$t1"@);
        assert("$t8"@ != "$t2"@);
        assert("$t8"@ != "$t3"@);
        assert("$t8"@ != "$t4"@);
        assert("$t8"@ != "$t5"@);
        assert("$t8"@ != "$t6"@);
        assert("$t8"@ != "$t7"@);
        assert("$t8"@ != "$s0"@);
        assert("$t8"@ != "$s1"@);
        assert("$t8"@ != "$s2"@);
        assert("$t8"@ != "$s3"@);
        assert("$t8"@ != "$s4"@);
        assert("$t8"@ != "$s5"@);
        assert("$t8"@ != "$s6"@);
        assert("$t8"@ != "$s7"@);
        assert(spec_register_index("$t8"@) == Some(24u8));
    } else if i == 25 {
        assert("$t9"@ != "$zero"@);
        assert("$t9"@ != "$at"@);
        assert("$t9"@ != "$v0"@);
        assert("$t9"@ != "$v1"@);
        assert("$t9"@ != "$a0"@);
        assert("$t9"@ != "$a1"@);
        assert("$t9"@ != "$a2"@);
        assert("$t9"@ != "$a3"@);
        assert("$t9"@ != "$t0"@);
        assert("$t9"@ != "$t1"@);
        assert("$t9"@ != "$t2"@);
        assert("$t9"@ != "$t3"@);
        assert("$t9"@ != "$t4"@);
        assert("$t9"@ != "$t5"@);
        assert("$t9"@ != "$t6"@);
        assert("$t9"@ != "$t7"@);
        assert("$t9"@ != "$s0"@);
        assert("$t9"@ != "$s1"@);
        assert("$t9"@ != "$s2"@);
        assert("$t9"@ != "$s3"@);
        assert("$t9"@ != "$s4"@);
        assert("$t9"@ != "$s5"@);
        assert("$t9"@ != "$s6"@);
        assert("$t9"@ != "$s7"@);
        assert("$t9"@ != "$t8"@);
        assert(spec_register_index("$t9"@) == Some(25u8));
    } else if i == 26 {
        assert("$k0"@ != "$zero"@);
        assert("$k0"@ != "$at"@);
        assert("$k0"@ != "$v0"@);
        assert("$k0"@ != "$v1"@);
        assert("$k0"@ != "$a0"@);
        assert("$k0"@ != "$a1"@);
        assert("$k0"@ != "$a2"@);
        assert("$k0"@ != "$a3"@);
        assert("$k0"@ != "$t0"@);
        assert("$k0"@ != "$t1"@);
        assert("$k0"@ != "$t2"@);
        assert("$k0"@ != "$t3"@);
        assert("$k0"@ != "$t4"@);
        assert("$k0"@ != "$t5"@);
        assert("$k0"@ != "$t6"@);
        assert("$k0"@ != "$t7"@);
        assert("$k0"@ != "$s0"@);
        assert("$k0"@ != "$s1"@);
        assert("$k0"@ != "$s2"@);
        assert("$k0"@ != "$s3"@);
        assert("$k0"@ != "$s4"@);
        assert("$k0"@ != "$s5"@);
        assert("$k0"@ != "$s6"@);
        assert("$k0"@ != "$s7"@);
        assert("$k0"@ != "$t8"@);
        assert("$k0"@ != "$t9"@);
        assert(spec_register_index("$k0"@) == Some(26u8));
    } else if i == 27 {
        assert("$k1"@ != "$zero"@);
        assert("$k1"@ != "$at"@);
        assert("$k1"@ != "$v0"@);
        assert("$k1"@ != "$v1"@);
        assert("$k1"@ != "$a0"@);
        assert("$k1"@ != "$a1"@);
        assert("$k1"@ != "$a2"@);
        assert("$k1"@ != "$a3"@);
        assert("$k1"@ != "$t0"@);
        assert("$k1"@ != "$t1"@);
        assert("$k1"@ != "$t2"@);
        assert("$k1"@ != "$t3"@);
        assert("$k1"@ != "$t4"@);
        assert("$k1"@ != "$t5"@);
        assert("$k1"@ != "$t6"@);
        assert("$k1"@ != "$t7"@);
        assert("$k1"@ != "$s0"@);
        assert("$k1"@ != "$s1"@);
        assert("$k1"@ != "$s2"@);
        assert("$k1"@ != "$s3"@);
        assert("$k1"@ != "$s4"@);
        assert("$k1"@ != "$s5"@);
        assert("$k1"@ != "$s6"@);
        assert("$k1"@ != "$s7"@);
        assert("$k1"@ != "$t8"@);
        assert("$k1"@ != "$t9"@);
        assert("$k1"@ != "$k0"@);
        assert(spec_register_index("$k1"@) == Some(27u8));
    } else if i == 28 {
        assert("$gp"@ != "$zero"@);
        assert("$gp"@ != "$at"@);
        assert("$gp"@ != "$v0"@);
        assert("$gp"@ != "$v1"@);
        assert("$gp"@ != "$a0"@);
        assert("$gp"@ != "$a1"@);
        assert("$gp"@ != "$a2"@);
        assert("$gp"@ != "$a3"@);
        assert("$gp"@ != "$t0"@);
        assert("$gp"@ != "$t1"@);
        assert("$gp"@ != "$t2"@);
        assert("$gp"@ != "$t3"@);
        assert("$gp"@ != "$t4"@);
        assert("$gp"@ != "$t5"@);
        assert("$gp"@ != "$t6"@);
        assert("$gp"@ != "$t7"@);
        assert("$gp"@ != "$s0"@);
        assert("$gp"@ != "$s1"@);
        assert("$gp"@ != "$s2"@);
        assert("$gp"@ != "$s3"@);
        assert("$gp"@ != "$s4"@);
        assert("$gp"@ != "$s5"@);
        assert("$gp"@ != "$s6"@);
        assert("$gp"@ != "$s7"@);
        assert("$gp"@ != "$t8"@);
        assert("$gp"@ != "$t9"@);
        assert("$gp"@ != "$k0"@);
        assert("$gp"@ != "$k1"@);
        assert(spec_register_index("$gp"@) == Some(28u8));
    } else if i == 29 {
        assert("$sp"@ != "$zero"@);
        assert("$sp"@ != "$at"@);
        assert("$sp"@ != "$v0"@);
        assert("$sp"@ != "$v1"@);
        assert("$sp"@ != "$a0"@);
        assert("$sp"@ != "$a1"@);
        assert("$sp"@ != "$a2"@);
        assert("$sp"@ != "$a3"@);
        assert("$sp"@ != "$t0"@);
        assert("$sp"@ != "$t1"@);
        assert("$sp"@ != "$t2"@);
        assert("$sp"@ != "$t3"@);
        assert("$sp"@ != "$t4"@);
        assert("$sp"@ != "$t5"@);
        assert("$sp"@ != "$t6"@);
        assert("$sp"@ != "$t7"@);
        assert("$sp"@ != "$s0"@);
        assert("$sp"@ != "$s1"@);
        assert("$sp"@ != "$s2"@);
        assert("$sp"@ != "$s3"@);
        assert("$sp"@ != "$s4"@);
        assert("$sp"@ != "$s5"@);
        assert("$sp"@ != "$s6"@);
        assert("$sp"@ != "$s7"@);
        assert("$sp"@ != "$t8"@);
        assert("$sp"@ != "$t9"@);
        assert("$sp"@ != "$k0"@);
        assert("$sp"@ != "$k1"@);
        assert("$sp"@ != "$gp"@);
        assert(spec_register_index("$sp"@) == Some(29u8));
    } else if i == 30 {
        assert("$fp"@ != "$zero"@);
        assert("$fp"@ != "$at"@);
        assert("$fp"@ != "$v0"@);
        assert("$fp"@ != "$v1"@);
        assert("$fp"@ != "$a0"@);
        assert("$fp"@ != "$a1"@);
        assert("$fp"@ != "$a2"@);
        assert("$fp"@ != "$a3"@);
        assert("$fp"@ != "$t0"@);
        assert("$fp"@ != "$t1"@);
        assert("$fp"@ != "$t2"@);
        assert("$fp"@ != "$t3"@);
        assert("$fp"@ != "$t4"@);
        assert("$fp"@ != "$t5"@);
        assert("$fp"@ != "$t6"@);
        assert("$fp"@ != "$t7"@);
        assert("$fp"@ != "$s0"@);
        assert("$fp"@ != "$s1"@);
        assert("$fp"@ != "$s2"@);
        assert("$fp"@ != "$s3"@);
        assert("$fp"@ != "$s4"@);
        assert("$fp"@ != "$s5"@);
        assert("$fp"@ != "$s6"@);
        assert("$fp"@ != "$s7"@);
        assert("$fp"@ != "$t8"@);
        assert("$fp"@ != "$t9"@);
        assert("$fp"@ != "$k0"@);
        assert("$fp"@ != "$k1"@);
        assert("$fp"@ != "$gp"@);
        assert("$fp"@ != "$sp"@);
        assert(spec_register_index("$fp"@) == Some(30u8));
    } else if i == 31 {
        assert("$ra"@ != "$zero"@);
        assert("$ra"@ != "$at"@);
        assert("$ra"@ != "$v0"@);
        assert("$ra"@ != "$v1"@);
        assert("$ra"@ != "$a0"@);
        assert("$ra"@ != "$a1"@);
        assert("$ra"@ != "$a2"@);
        assert("$ra"@ != "$a3"@);
        assert("$ra"@ != "$t0"@);
        assert("$ra"@ != "$t1"@);
        assert("$ra"@ != "$t2"@);
        assert("$ra"@ != "$t3"@);
        assert("$ra"@ != "$t4"@);
        assert("$ra"@ != "$t5"@);
        assert("$ra"@ != "$t6"@);
        assert("$ra"@ != "$t7"@);
        assert("$ra"@ != "$s0"@);
        assert("$ra"@ != "$s1"@);
        assert("$ra"@ != "$s2"@);
        assert("$ra"@ != "$s3"@);
        assert("$ra"@ != "$s4"@);
        assert("$ra"@ != "$s5"@);
        assert("$ra"@ != "$s6"@);
        assert("$ra"@ != "$s7"@);
        assert("$ra"@ != "$t8"@);
        assert("$ra"@ != "$t9"@);
        assert("$ra"@ != "$k0"@);
        assert("$ra"@ != "$k1"@);
        assert("$ra"@ != "$gp"@);
        assert("$ra"@ != "$sp"@);
        assert("$ra"@ != "$fp"@);
        assert(spec_register_index("$ra"@) == Some(31u8));
    }
}

} // verus!
