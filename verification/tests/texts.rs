use trace_reasm::opcode::{AddrMode, Mnemonic, Opcode};
use trace_reasm::pattern::{find, Rejected};
use trace_reasm::text::{
    char_digit, char_is_space, digit_str, parse_hex, push_blanks, push_hex, push_padded, to_chars,
    trim_end, trim_start,
};
use trace_reasm::token::{copy_range, cut, read_bytes, read_hex, remove_char, trim};
use trace_reasm::config::same_text;

fn chars(s: &str) -> Vec<char> {
    s.chars().collect()
}

fn hex(v: u64, width: u64) -> String {
    let mut out = String::from(">");
    push_hex(&mut out, v, width);
    out
}

#[test]
fn hexadecimal_is_padded_and_never_cut() {
    assert_eq!(hex(0, 0), ">0");
    assert_eq!(hex(0, 1), ">0");
    assert_eq!(hex(0, 2), ">00");
    assert_eq!(hex(0xA, 6), ">00000A");
    assert_eq!(hex(0xABCDEF, 6), ">ABCDEF");
    assert_eq!(hex(0x1234567, 6), ">1234567");
    assert_eq!(hex(u64::MAX, 2), ">FFFFFFFFFFFFFFFF");
    assert_eq!(hex(0x10, 20), format!(">{:020X}", 0x10));
}

#[test]
fn digits_of_both_cases_are_read() {
    for (i, c) in "0123456789ABCDEF".chars().enumerate() {
        assert_eq!(char_digit(c), Some(i as u64));
        assert_eq!(digit_str(i as u64), c.to_string());
    }
    for (i, c) in "abcdef".chars().enumerate() {
        assert_eq!(char_digit(c), Some(10 + i as u64));
    }
    for c in "gG/:@`+- ".chars() {
        assert_eq!(char_digit(c), None);
    }
}

#[test]
fn hexadecimal_numbers_are_read() {
    let text = chars("xx80FFc0yy");
    assert_eq!(parse_hex(&text, 2, 8), Some(0x80FFC0));
    assert_eq!(parse_hex(&text, 2, 2), None);
    assert_eq!(parse_hex(&text, 1, 4), None);
    assert_eq!(parse_hex(&text, 7, 9), None);
    assert_eq!(read_hex(&chars("FFFFFFFFFFFFFFFF"), u64::MAX), Some(u64::MAX));
    assert_eq!(read_hex(&chars("0FFFFFFFFFFFFFFFF"), u64::MAX), Some(u64::MAX));
    assert_eq!(read_hex(&chars("10000000000000000"), u64::MAX), None);
    assert_eq!(read_hex(&chars("FFFFFFFFFFFFFFFFF"), u64::MAX), None);
    assert_eq!(read_hex(&chars("100"), 0xFF), None);
    assert_eq!(read_hex(&chars("0FF"), 0xFF), Some(0xFF));
    assert_eq!(read_hex(&chars("+1"), 0xFF), None);
    assert_eq!(read_hex(&chars(""), 0xFF), None);
}

#[test]
fn written_numbers_are_read_back() {
    for v in [0u64, 1, 9, 10, 15, 16, 255, 0x8000, 0xABCDEF, u64::MAX] {
        for width in [0u64, 1, 2, 6, 17] {
            let text = hex(v, width);
            assert_eq!(read_hex(&chars(&text[1..]), u64::MAX), Some(v));
        }
    }
}

#[test]
fn white_space_is_what_trimming_removes() {
    for n in 0..0x3100u32 {
        if let Some(c) = char::from_u32(n) {
            assert_eq!(char_is_space(c), c.is_whitespace(), "{:X}", n);
        }
    }
    assert!(!char_is_space('\u{FEFF}'));
}

#[test]
fn trimming_drops_white_space_at_both_ends() {
    let text = chars(" \t a b \u{3000}\n");
    assert_eq!(trim_start(&text, 0, text.len()), 3);
    assert_eq!(trim_end(&text, 3, text.len()), 6);
    assert_eq!(trim_start(&text, 4, text.len()), 5);
    assert_eq!(trim_end(&text, 0, 2), 0);
    assert_eq!(trim_start(&text, 0, 2), 2);
    assert_eq!(trim(&text), chars("a b"));
    assert_eq!(trim(&chars("   ")), chars(""));
    assert_eq!(trim(&chars("")), chars(""));
    assert_eq!(trim(&chars("x")), chars("x"));
}

#[test]
fn padding_counts_characters() {
    let mut out = String::from("[");
    push_padded(&mut out, "abc", 5);
    out.push(']');
    assert_eq!(out, "[abc  ]");
    let mut out = String::from("[");
    push_padded(&mut out, "äbc", 5);
    out.push(']');
    assert_eq!(out, "[äbc  ]");
    let mut out = String::from("[");
    push_padded(&mut out, "abcdef", 5);
    push_padded(&mut out, "", 0);
    push_blanks(&mut out, 0);
    push_blanks(&mut out, 2);
    out.push(']');
    assert_eq!(out, "[abcdef  ]");
}

#[test]
fn cutting_keeps_empty_pieces() {
    let pieces = |s: &str, sep: char| -> Vec<String> {
        cut(&chars(s), sep).into_iter().map(|p| p.into_iter().collect()).collect()
    };
    assert_eq!(pieces("a,b,c", ','), vec!["a", "b", "c"]);
    assert_eq!(pieces("", ','), vec![""]);
    assert_eq!(pieces(",", ','), vec!["", ""]);
    assert_eq!(pieces("a,,b,", ','), vec!["a", "", "b", ""]);
    assert_eq!(pieces("a b", ','), vec!["a b"]);
    assert_eq!(copy_range(&chars("abcdef"), 2, 4), chars("cd"));
    assert_eq!(copy_range(&chars("abcdef"), 6, 6), chars(""));
    assert_eq!(remove_char(&chars("80:80:00"), ':'), chars("808000"));
    assert_eq!(remove_char(&chars(":::"), ':'), chars(""));
    assert_eq!(to_chars("añ"), vec!['a', 'ñ']);
}

#[test]
fn instruction_bytes_are_read_between_blanks() {
    assert_eq!(read_bytes(&chars("A9 42 00 ")), Some(vec![0xA9, 0x42, 0x00]));
    assert_eq!(read_bytes(&chars("  0a  ")), Some(vec![0x0A]));
    assert_eq!(read_bytes(&chars("A9  42")), None);
    assert_eq!(read_bytes(&chars("A942")), None);
    assert_eq!(read_bytes(&chars("")), None);
    assert_eq!(read_bytes(&chars("A9 4G")), None);
}

#[test]
fn texts_are_compared_by_their_characters() {
    assert!(same_text("Pointer", "Pointer"));
    assert!(same_text("", ""));
    assert!(!same_text("Pointer", "pointer"));
    assert!(!same_text("Pointer", "Pointers"));
    assert!(!same_text("Pointers", "Pointer"));
    assert!(!same_text("é", "e"));
}

#[test]
fn a_pattern_that_is_not_accepted_is_rejected() {
    assert_eq!(find("(", "text"), Err(Rejected));
    assert_eq!(
        find("a(b)?(c)", "xxacxx"),
        Ok(Some(vec![Some("ac".to_string()), None, Some("c".to_string())]))
    );
    assert_eq!(find("a(b)?(c)", "xxabxx"), Ok(None));
}

#[test]
fn every_opcode_byte_has_an_entry() {
    let mut implied = 0;
    for byte in 0..=255u8 {
        let op = Opcode::from_byte(byte);
        assert_eq!(op.name.as_str().len(), 3);
        assert!(op.name.as_str().chars().all(|c| c.is_ascii_uppercase()));
        if op.addr_mode == AddrMode::Implied {
            implied += 1;
        }
    }
    assert_eq!(implied, 50);
    let expected = [
        (0x00u8, Mnemonic::BRK, AddrMode::ImmediateByte),
        (0x20, Mnemonic::JSR, AddrMode::Absolute),
        (0x22, Mnemonic::JSL, AddrMode::AbsoluteLong),
        (0x44, Mnemonic::MVP, AddrMode::BlockMove),
        (0x54, Mnemonic::MVN, AddrMode::BlockMove),
        (0x5C, Mnemonic::JML, AddrMode::AbsoluteLong),
        (0x62, Mnemonic::PER, AddrMode::RelativeLong),
        (0x6C, Mnemonic::JMP, AddrMode::AbsoluteIndirect),
        (0x7C, Mnemonic::JMP, AddrMode::AbsoluteIndexedIndirect),
        (0x82, Mnemonic::BRL, AddrMode::RelativeLong),
        (0x96, Mnemonic::STX, AddrMode::DirectIndexedY),
        (0xA9, Mnemonic::LDA, AddrMode::Immediate),
        (0xC2, Mnemonic::REP, AddrMode::ImmediateByte),
        (0xD4, Mnemonic::PEI, AddrMode::DirectIndirect),
        (0xDC, Mnemonic::JML, AddrMode::AbsoluteIndirectLong),
        (0xE2, Mnemonic::SEP, AddrMode::ImmediateByte),
        (0xF4, Mnemonic::PEA, AddrMode::Absolute),
        (0xFC, Mnemonic::JSR, AddrMode::AbsoluteIndexedIndirect),
        (0xD3, Mnemonic::CMP, AddrMode::StackRelativeIndirectIndexed),
        (0xE3, Mnemonic::SBC, AddrMode::StackRelative),
        (0xB7, Mnemonic::LDA, AddrMode::DirectIndirectIndexedLong),
        (0xA7, Mnemonic::LDA, AddrMode::DirectIndirectLong),
        (0xB1, Mnemonic::LDA, AddrMode::DirectIndirectIndexed),
        (0xA1, Mnemonic::LDA, AddrMode::DirectIndexedIndirect),
        (0xBF, Mnemonic::LDA, AddrMode::AbsoluteIndexedLong),
        (0xB9, Mnemonic::LDA, AddrMode::AbsoluteIndexedY),
        (0xD0, Mnemonic::BNE, AddrMode::Relative),
        (0xEA, Mnemonic::NOP, AddrMode::Implied),
    ];
    for (byte, name, addr_mode) in expected {
        assert_eq!(Opcode::from_byte(byte), Opcode { name, addr_mode });
    }
    assert_eq!(Mnemonic::XCE.as_str(), "XCE");
}
