use trace_reasm::code::ArgType;
use trace_reasm::config::Config;
use trace_reasm::data::DataVal;
use trace_reasm::line::{Line, ParseError, ParserState, Shape};
use trace_reasm::opcode::{AddrMode, Mnemonic};

fn read(text: &str, state: &mut ParserState) -> Result<(Option<u64>, Line), ParseError> {
    Line::parse(text, &Config::load(Vec::new(), Vec::new(), Vec::new()), state)
}

fn state_at(pc: u64) -> ParserState {
    ParserState { last_data_cmd: String::new(), last_pc: pc }
}

#[test]
fn comment_line_keeps_its_text() {
    let mut state = state_at(0);
    match read("   ; set up the stack", &mut state) {
        Ok((None, Line::Comment(text))) => assert_eq!(text, "; set up the stack"),
        other => panic!("{:?}", other),
    }
}

#[test]
fn fill_directive_becomes_pad_directives() {
    let mut state = state_at(0);
    match read("fillto $80FFC0, $FF", &mut state) {
        Ok((None, Line::Comment(text))) => assert_eq!(text, "padbyte $FF : pad $80FFC0"),
        other => panic!("{:?}", other),
    }
}

#[test]
fn fill_directive_with_short_address_is_padded() {
    let mut state = state_at(0);
    match read("  fillto $8000 ,  $0", &mut state) {
        Ok((None, Line::Comment(text))) => assert_eq!(text, "padbyte $00 : pad $008000"),
        other => panic!("{:?}", other),
    }
}

#[test]
fn fill_directive_with_wide_pad_byte_is_an_error() {
    let mut state = state_at(0);
    match read("fillto $80FFC0, $1FF", &mut state) {
        Err(e) => assert_eq!(e, ParseError::Number),
        other => panic!("{:?}", other),
    }
}

#[test]
fn block_move_takes_its_banks_from_the_bytes() {
    let mut state = state_at(0);
    match read("$80:8123  54 7E 80  MVN 80 7E", &mut state) {
        Ok((Some(pc), Line::Code(c))) => {
            assert_eq!(pc, 0x808123);
            assert_eq!(c.address, 0x808123);
            assert_eq!(c.opcode.name, Mnemonic::MVN);
            assert_eq!(c.opcode.addr_mode, AddrMode::BlockMove);
            assert_eq!(c.arg, ArgType::BlockMove(0x7E, 0x80));
            assert_eq!(c.length, 3);
            assert_eq!(c.db, 0x80);
            assert_eq!(c.comment, None);
        },
        other => panic!("{:?}", other),
    }
}

#[test]
fn instruction_without_operand() {
    let mut state = state_at(0);
    match read("$C0:FFE0  18        CLC ; carry off", &mut state) {
        Ok((Some(0xC0FFE0), Line::Code(c))) => {
            assert_eq!(c.opcode.name, Mnemonic::CLC);
            assert_eq!(c.arg, ArgType::NoArg);
            assert_eq!(c.length, 0);
            assert_eq!(c.db, 0xC0);
            assert_eq!(c.comment, Some(" carry off".to_string()));
        },
        other => panic!("{:?}", other),
    }
}

#[test]
fn operand_bytes_are_little_endian() {
    let mut state = state_at(0);
    match read("$80:8000  AF 56 34 12      LDA $123456", &mut state) {
        Ok((_, Line::Code(c))) => assert_eq!(c.arg, ArgType::Address(0x123456)),
        other => panic!("{:?}", other),
    }
    match read("$80:8004  AD 34 12      LDA $1234", &mut state) {
        Ok((_, Line::Code(c))) => assert_eq!(c.arg, ArgType::Address(0x1234)),
        other => panic!("{:?}", other),
    }
    match read("$80:8007  A5 12      LDA $12", &mut state) {
        Ok((_, Line::Code(c))) => assert_eq!(c.arg, ArgType::Address(0x12)),
        other => panic!("{:?}", other),
    }
}

#[test]
fn effective_address_gives_the_data_bank_above_8000() {
    let mut state = state_at(0);
    match read("$80:8000  AD 01 80  LDA $8001 [$7E:8001]", &mut state) {
        Ok((_, Line::Code(c))) => assert_eq!(c.db, 0x7E),
        other => panic!("{:?}", other),
    }
}

#[test]
fn effective_address_is_ignored_at_8000_and_below() {
    let mut state = state_at(0);
    match read("$80:8000  AD 00 80  LDA $8000 [$7E:8000]", &mut state) {
        Ok((_, Line::Code(c))) => assert_eq!(c.db, 0x80),
        other => panic!("{:?}", other),
    }
    match read("$80:8000  AD 10 21  LDA $2110 [$7E:2110]", &mut state) {
        Ok((_, Line::Code(c))) => assert_eq!(c.db, 0x80),
        other => panic!("{:?}", other),
    }
}

#[test]
fn effective_address_without_bank_is_ignored() {
    let mut state = state_at(0);
    match read("$81:8000  AD 01 90  LDA $9001 [$9001]", &mut state) {
        Ok((_, Line::Code(c))) => assert_eq!(c.db, 0x81),
        other => panic!("{:?}", other),
    }
}

#[test]
fn brk_without_operand_is_a_zero_byte() {
    let mut state = state_at(0);
    match read("$80:FFFF  00        BRK ;end", &mut state) {
        Ok((Some(0x80FFFF), Line::Data(d))) => {
            assert_eq!(d.address, 0x80FFFF);
            assert_eq!(d.data, vec![DataVal::DB(0)]);
            assert_eq!(d.comment, Some("end".to_string()));
        },
        other => panic!("{:?}", other),
    }
}

#[test]
fn brk_with_operand_stays_an_instruction() {
    let mut state = state_at(0);
    match read("$80:FFF0  00 12     BRK #$12", &mut state) {
        Ok((_, Line::Code(c))) => {
            assert_eq!(c.opcode.name, Mnemonic::BRK);
            assert_eq!(c.arg, ArgType::Address(0x12));
        },
        other => panic!("{:?}", other),
    }
}

#[test]
fn more_than_three_operand_bytes_is_an_error() {
    let mut state = state_at(0);
    match read("$80:8000  AD 01 02 03 04  LDA $01", &mut state) {
        Err(e) => assert_eq!(e, ParseError::OperandLength),
        other => panic!("{:?}", other),
    }
}

#[test]
fn bytes_without_blanks_are_an_error() {
    let mut state = state_at(0);
    match read("$80:8000  AD0180  LDA $8001", &mut state) {
        Err(e) => assert_eq!(e, ParseError::Number),
        other => panic!("{:?}", other),
    }
}

#[test]
fn data_width_follows_the_digits() {
    let mut state = state_at(0);
    match read("$80:9000 dw 01, 0203,040506 ; table", &mut state) {
        Ok((Some(0x809000), Line::Data(d))) => {
            assert_eq!(d.address, 0x809000);
            assert_eq!(
                d.data,
                vec![DataVal::DB(0x01), DataVal::DW(0x0203), DataVal::DL(0x040506)]
            );
            assert_eq!(d.comment, Some("table".to_string()));
        },
        other => panic!("{:?}", other),
    }
    assert_eq!(state.last_pc, 0x809006);
    assert_eq!(state.last_data_cmd, "dw");
}

#[test]
fn eight_digits_are_two_words_of_the_first_four_digits() {
    let mut state = state_at(0);
    match read("$80:9000 dx AABBCCDD", &mut state) {
        Ok((_, Line::Data(d))) => {
            assert_eq!(d.data, vec![DataVal::DW(0xAA), DataVal::DW(0xBB)]);
            assert_eq!(d.comment, None);
        },
        other => panic!("{:?}", other),
    }
    assert_eq!(state.last_pc, 0x809004);
}

#[test]
fn data_with_odd_digits_is_an_error() {
    let mut state = state_at(0x1234);
    match read("$80:9000 db 012", &mut state) {
        Err(e) => assert_eq!(e, ParseError::DataWidth),
        other => panic!("{:?}", other),
    }
    assert_eq!(state.last_pc, 0x1234);
}

#[test]
fn data_goes_on_at_the_remembered_address() {
    let mut state = state_at(0);
    read("$80:9000 db 01,02,03", &mut state).unwrap();
    assert_eq!(state.last_pc, 0x809003);
    match read("    0405, 06 ;more", &mut state) {
        Ok((Some(0x809003), Line::Data(d))) => {
            assert_eq!(d.address, 0x809003);
            assert_eq!(d.data, vec![DataVal::DW(0x0405), DataVal::DB(0x06)]);
            assert_eq!(d.comment, Some("more".to_string()));
        },
        other => panic!("{:?}", other),
    }
    assert_eq!(state.last_pc, 0x809006);
    assert_eq!(state.last_data_cmd, "db");
}

#[test]
fn data_that_leaves_the_bank_goes_on_in_the_rom_half() {
    let mut state = state_at(0);
    read("$80:FFFE dw 0102,0304", &mut state).unwrap();
    assert_eq!(state.last_pc, 0x818002);
    let mut state = state_at(0x80FFFF);
    read("  01", &mut state).unwrap();
    assert_eq!(state.last_pc, 0x818000);
}

#[test]
fn short_indented_text_is_a_comment() {
    let mut state = state_at(0x809000);
    match read("   A  ", &mut state) {
        Ok((None, Line::Comment(text))) => assert_eq!(text, "A"),
        other => panic!("{:?}", other),
    }
    assert_eq!(state.last_pc, 0x809000);
}

#[test]
fn anything_else_is_a_comment_as_it_stands() {
    let mut state = state_at(0);
    match read("org $808000", &mut state) {
        Ok((None, Line::Comment(text))) => assert_eq!(text, "org $808000"),
        other => panic!("{:?}", other),
    }
}

#[test]
fn banner_shape_puts_a_semicolon_before_the_line() {
    let mut state = state_at(0);
    let groups: Vec<Option<String>> = Vec::new();
    match Line::from_groups(Shape::Banner, &groups, ";;; reset", &mut state) {
        Ok((None, Line::Comment(text))) => assert_eq!(text, ";;;; reset"),
        other => panic!("{:?}", other),
    }
}

#[test]
fn match_without_its_groups_is_an_error() {
    let mut state = state_at(0);
    let groups: Vec<Option<String>> = vec![Some("x".to_string())];
    for shape in [Shape::Comment, Shape::Fill, Shape::BlockMove, Shape::Code, Shape::DataStart, Shape::DataMore] {
        match Line::from_groups(shape, &groups, "x", &mut state) {
            Err(e) => assert_eq!(e, ParseError::Groups),
            other => panic!("{:?}", other),
        }
    }
}

#[test]
fn code_from_groups_reads_what_the_groups_hold() {
    let mut state = state_at(0);
    let mut groups: Vec<Option<String>> = vec![None; 11];
    groups[1] = Some("7E:2000".to_string());
    groups[2] = Some("BD 00 90 ".to_string());
    groups[8] = Some("[$7F:9000]".to_string());
    groups[10] = Some(";x".to_string());
    match Line::from_groups(Shape::Code, &groups, "", &mut state) {
        Ok((Some(0x7E2000), Line::Code(c))) => {
            assert_eq!(c.opcode.name, Mnemonic::LDA);
            assert_eq!(c.opcode.addr_mode, AddrMode::AbsoluteIndexedX);
            assert_eq!(c.arg, ArgType::Address(0x9000));
            assert_eq!(c.db, 0x7F);
            assert_eq!(c.length, 2);
            assert_eq!(c.comment, Some("x".to_string()));
        },
        other => panic!("{:?}", other),
    }
}
