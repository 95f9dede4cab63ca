use mips_sim::encoding::{decode_word, encode_i_type, encode_j_type, encode_r_type};
use mips_sim::format::{_intru_to_bin, format_binary_instruction, register_to_binary};
use mips_sim::numbers::{parse_i16, parse_i32, sign_extend, to_u16};
use mips_sim::registers::{register_index_of, register_name_of};
use mips_sim::text::{binary_string, find_char, str_eq, strip_comment, tokenize, trim};

#[test]
fn r_type_round_trip() {
    let w = encode_r_type(8, 9, 10, 32); // add $t2, $t0, $t1
    assert_eq!(w, 0x0109_5020);
    let d = decode_word(w);
    assert_eq!(d.opcode, 0);
    assert_eq!(d.rs, 8);
    assert_eq!(d.rt, 9);
    assert_eq!(d.rd, 10);
    assert_eq!(d.funct, 32);
    // re-encoding the decoded fields rebuilds the word bit for bit
    assert_eq!(encode_r_type(d.rs, d.rt, d.rd, d.funct), w);
}

#[test]
fn i_type_round_trip() {
    let w = encode_i_type(8, 0, 8, 5); // addi $t0, $zero, 5
    assert_eq!(w, 0x2008_0005);
    let d = decode_word(w);
    assert_eq!(d.opcode, 8);
    assert_eq!(d.rs, 0);
    assert_eq!(d.rt, 8);
    assert_eq!(d.immediate, 5);
    assert_eq!(encode_i_type(d.opcode, d.rs, d.rt, d.immediate), w);
}

#[test]
fn i_type_round_trip_negative_immediate() {
    let w = encode_i_type(4, 8, 8, 0xfffe); // beq $t0, $t0, -2
    let d = decode_word(w);
    assert_eq!(d.immediate, 0xfffe);
    assert_eq!(sign_extend(d.immediate), -2);
    assert_eq!(encode_i_type(d.opcode, d.rs, d.rt, d.immediate), w);
}

#[test]
fn j_type_round_trip() {
    let w = encode_j_type(7);
    let d = decode_word(w);
    assert_eq!(d.opcode, 2);
    assert_eq!(d.address, 7);
    assert_eq!(encode_j_type(d.address), w);
}

#[test]
fn decode_extracts_every_field() {
    let d = decode_word(0xffff_ffff);
    assert_eq!(d.opcode, 63);
    assert_eq!(d.rs, 31);
    assert_eq!(d.rt, 31);
    assert_eq!(d.rd, 31);
    assert_eq!(d.funct, 63);
    assert_eq!(d.immediate, 0xffff);
    assert_eq!(d.address, 0x3ff_ffff);
}

#[test]
fn sign_extension_preserves_sign() {
    assert_eq!(sign_extend(0x7fff), 32767);
    assert_eq!(sign_extend(0x8000), -32768);
    assert_eq!(sign_extend(0xffff), -1);
    assert_eq!(to_u16(-2), 0xfffe);
    assert_eq!(to_u16(5), 5);
}

#[test]
fn parse_decimal_integers() {
    assert_eq!(parse_i32("123"), Some(123));
    assert_eq!(parse_i32("-45"), Some(-45));
    assert_eq!(parse_i32("+7"), Some(7));
    assert_eq!(parse_i32("0"), Some(0));
    assert_eq!(parse_i32("2147483647"), Some(2147483647));
    assert_eq!(parse_i32("-2147483648"), Some(-2147483648));
    assert_eq!(parse_i32("2147483648"), None);
    assert_eq!(parse_i32("99999999999999999999"), None);
    assert_eq!(parse_i32(""), None);
    assert_eq!(parse_i32("-"), None);
    assert_eq!(parse_i32("12a"), None);
    assert_eq!(parse_i16("32767"), Some(32767));
    assert_eq!(parse_i16("-32768"), Some(-32768));
    assert_eq!(parse_i16("32768"), None);
    assert_eq!(parse_i16("40000"), None);
}

#[test]
fn register_table_is_bidirectional() {
    assert_eq!(register_index_of("$zero"), Some(0));
    assert_eq!(register_index_of("$t0"), Some(8));
    assert_eq!(register_index_of("$sp"), Some(29));
    assert_eq!(register_index_of("$ra"), Some(31));
    assert_eq!(register_index_of("$bogus"), None);
    assert_eq!(register_index_of("t0"), None);
    for i in 0..32usize {
        let name = register_name_of(i);
        assert_eq!(register_index_of(&name), Some(i as u8));
    }
}

#[test]
fn text_helpers() {
    assert_eq!(trim("  a b  "), "a b");
    assert_eq!(trim("\t\r "), "");
    assert_eq!(strip_comment("ab#c"), "ab");
    assert_eq!(strip_comment("no comment"), "no comment");
    assert_eq!(strip_comment("#all"), "");
    assert!(str_eq("same", "same"));
    assert!(!str_eq("same", "sam"));
    assert_eq!(find_char("a(b)", '('), 1);
    assert_eq!(find_char("ab", '('), 2);
}

#[test]
fn tokenize_splits_on_whitespace_and_commas() {
    let toks = tokenize("add $t0, $t1,$t2");
    assert_eq!(toks, vec!["add", "$t0", "$t1", "$t2"]);
    let toks = tokenize("  lw  $t0 ,  8($t1) ");
    assert_eq!(toks, vec!["lw", "$t0", "8($t1)"]);
    let toks = tokenize("");
    assert!(toks.is_empty());
}

#[test]
fn binary_rendering() {
    assert_eq!(binary_string(5, 5), "00101");
    assert_eq!(binary_string(0, 1), "0");
    assert_eq!(binary_string(0xffff_ffff, 32), "11111111111111111111111111111111");
    assert_eq!(
        format_binary_instruction("add", 0x0109_5020),
        "000000 01000 01001 01010 00000 100000"
    );
    assert_eq!(
        format_binary_instruction("addi", 0x2008_0005),
        "001000 00000 01000 0000000000000101"
    );
    assert_eq!(format_binary_instruction("j", encode_j_type(3)), "000010 00000000000000000000000011");
}

#[test]
fn register_to_binary_renders_five_bits() {
    assert_eq!(register_to_binary("$t0").unwrap(), "01000");
    assert_eq!(register_to_binary("$zero").unwrap(), "00000");
    assert!(register_to_binary("$nope").is_err());
}

#[test]
fn intru_to_bin_echoes_the_line() {
    assert_eq!(_intru_to_bin("add $t0, $t1, $t2"), "Binary representation of: add $t0, $t1, $t2");
}
