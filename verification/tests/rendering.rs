use std::collections::HashMap;

use trace_reasm::code::{find_label, ArgType, Code};
use trace_reasm::config::{Config, Override, OverrideAddr};
use trace_reasm::data::{Data, DataVal};
use trace_reasm::label::{Label, LabelType};
use trace_reasm::line::Line;
use trace_reasm::opcode::{AddrMode, Mnemonic, Opcode};

fn empty_config() -> Config {
    Config::load(Vec::new(), Vec::new(), Vec::new())
}

fn code(address: u64, byte: u8, arg: ArgType, length: u8, db: u8) -> Code {
    Code { address, opcode: Opcode::from_byte(byte), arg, comment: None, length, db }
}

fn labels_at(entries: &[(u64, &str, LabelType)]) -> HashMap<u64, Label> {
    let mut labels = HashMap::new();
    for (address, name, label_type) in entries {
        labels.insert(
            *address,
            Label {
                address: *address,
                name: name.to_string(),
                label_type: *label_type,
                assigned: false,
            },
        );
    }
    labels
}

fn written(c: &Code, labels: &HashMap<u64, Label>) -> String {
    let text = c.to_string(&empty_config(), labels);
    assert_eq!(&text[..4], "    ");
    let rest = &text[4..];
    let end = rest.find(";|").unwrap();
    rest[..end].trim_end().to_string()
}

#[test]
fn syntax_of_each_addressing_mode() {
    let none = HashMap::new();
    let cases: [(u8, u64, u8, &str); 24] = [
        (0xAD, 0x9000, 2, "LDA.w $9000"),
        (0x7C, 0x9000, 2, "JMP.w ($9000,X)"),
        (0xBF, 0x819000, 3, "LDA.l $819000,X"),
        (0xBD, 0x9000, 2, "LDA.w $9000,X"),
        (0xB9, 0x9000, 2, "LDA.w $9000,Y"),
        (0x6C, 0x9000, 2, "JMP.w ($9000)"),
        (0xDC, 0x9000, 2, "JML.w [$9000]"),
        (0xAF, 0x819000, 3, "LDA.l $819000"),
        (0xA5, 0x12, 1, "LDA.b $12"),
        (0xA1, 0x12, 1, "LDA.b ($12,X)"),
        (0xB5, 0x12, 1, "LDA.b $12,X"),
        (0xB6, 0x12, 1, "LDX.b $12,Y"),
        (0xB2, 0x12, 1, "LDA.b ($12)"),
        (0xB1, 0x12, 1, "LDA.b ($12),Y"),
        (0xB7, 0x12, 1, "LDA.b [$12],Y"),
        (0xA7, 0x12, 1, "LDA.b [$12]"),
        (0xA9, 0x12, 1, "LDA.b #$12"),
        (0xA9, 0x1234, 2, "LDA.w #$1234"),
        (0xC2, 0x30, 1, "REP.b #$30"),
        (0x80, 0x10, 1, "BRA $10"),
        (0x82, 0x1000, 2, "BRL $1000"),
        (0xA3, 0x03, 1, "LDA.b $03,S"),
        (0xB3, 0x03, 1, "LDA.b ($03,S),Y"),
        (0x5C, 0x819000, 3, "JML.l $819000"),
    ];
    for (byte, arg, length, expected) in cases {
        let c = code(0x808000, byte, ArgType::Address(arg), length, 0x80);
        assert_eq!(written(&c, &none), expected);
    }
}

#[test]
fn instruction_without_operand_is_its_mnemonic() {
    let none = HashMap::new();
    assert_eq!(written(&code(0x808000, 0x18, ArgType::NoArg, 0, 0x80), &none), "CLC");
    assert_eq!(written(&code(0x808000, 0x0A, ArgType::Address(0x12), 1, 0x80), &none), "ASL");
    assert_eq!(written(&code(0x808000, 0xEA, ArgType::BlockMove(1, 2), 3, 0x80), &none), "NOP");
}

#[test]
fn block_move_writes_its_two_banks() {
    let none = HashMap::new();
    assert_eq!(
        written(&code(0x808000, 0x54, ArgType::BlockMove(0x7E, 0x80), 3, 0x80), &none),
        "MVN $7E,$80"
    );
    assert_eq!(
        written(&code(0x808000, 0x44, ArgType::BlockMove(0x00, 0x0F), 3, 0x80), &none),
        "MVP $00,$0F"
    );
    assert_eq!(
        written(&code(0x808000, 0xAD, ArgType::BlockMove(0x01, 0x02), 3, 0x80), &none),
        "LDA.w $01,$02"
    );
}

#[test]
fn the_whole_line_has_address_bank_and_comment() {
    let mut c = code(0x80ABCD, 0xAD, ArgType::Address(0x9000), 2, 0x7E);
    c.comment = Some(" read the flag".to_string());
    assert_eq!(
        c.to_string(&empty_config(), &HashMap::new()),
        "    LDA.w $9000                             ;| 80ABCD | 7E |  read the flag"
    );
    c.comment = None;
    c.address = 0x1234567;
    c.db = 0x05;
    assert_eq!(
        c.to_string(&empty_config(), &HashMap::new()),
        "    LDA.w $9000                             ;| 1234567 | 05 | "
    );
}

#[test]
fn a_long_instruction_is_not_cut() {
    let name = "A".repeat(50);
    let labels = labels_at(&[(0x819000, &name, LabelType::Data)]);
    let c = code(0x808000, 0xAD, ArgType::Address(0x9000), 2, 0x81);
    assert_eq!(
        c.to_string(&empty_config(), &labels),
        format!("    LDA.w {};| 808000 | 81 | ", name)
    );
    let name = "é".repeat(34);
    let labels = labels_at(&[(0x819000, &name, LabelType::Data)]);
    assert_eq!(
        c.to_string(&empty_config(), &labels),
        format!("    LDA.w {};| 808000 | 81 | ", name)
    );
    let name = "é".repeat(33);
    let labels = labels_at(&[(0x819000, &name, LabelType::Data)]);
    assert_eq!(
        c.to_string(&empty_config(), &labels),
        format!("    LDA.w {} ;| 808000 | 81 | ", name)
    );
}

#[test]
fn raw_operand_is_as_wide_as_its_length() {
    let none = HashMap::new();
    let c = |arg: u64, length: u8| code(0x808000, 0xAD, ArgType::Address(arg), length, 0x80);
    assert_eq!(c(0x5, 1).arg_label(&empty_config(), &none), "$05");
    assert_eq!(c(0x5, 2).arg_label(&empty_config(), &none), "$0005");
    assert_eq!(c(0x5, 3).arg_label(&empty_config(), &none), "$000005");
    assert_eq!(c(0x12345, 1).arg_label(&empty_config(), &none), "$12345");
    assert_eq!(c(u64::MAX, 2).arg_label(&empty_config(), &none), "$FFFFFFFFFFFFFFFF");
}

#[test]
fn label_at_the_target_is_written() {
    let labels = labels_at(&[
        (0x819000, "Table", LabelType::DataTable(4)),
        (0x7E0012, "Counter", LabelType::Data),
        (0x7E1000, "Buffer", LabelType::Data),
        (0x2100, "INIDISP", LabelType::Data),
        (0xC08000, "Far", LabelType::Subroutine),
        (0x808012, "Loop", LabelType::Branch),
        (0x808112, "Away", LabelType::Undefined),
    ]);
    let cases: [(u8, u64, u8, &str); 7] = [
        (0xBD, 0x9000, 2, "LDA.w Table,X"),
        (0xA5, 0x12, 1, "LDA.b Counter"),
        (0xAD, 0x1000, 2, "LDA.w Buffer"),
        (0x8D, 0x2100, 2, "STA.w INIDISP"),
        (0x22, 0xC08000, 3, "JSL.l Far"),
        (0xD0, 0x10, 1, "BNE Loop"),
        (0x82, 0x0110, 2, "BRL Away"),
    ];
    for (byte, arg, length, expected) in cases {
        let c = code(0x808000, byte, ArgType::Address(arg), length, 0x81);
        assert_eq!(written(&c, &labels), expected);
    }
}

#[test]
fn label_next_to_the_target_is_written_with_its_distance() {
    let at = |address: u64| labels_at(&[(address, "Near", LabelType::Data)]);
    let c = code(0x808000, 0xAD, ArgType::Address(0x9000), 2, 0x81);
    assert_eq!(written(&c, &at(0x819000)), "LDA.w Near");
    assert_eq!(written(&c, &at(0x818FFF)), "LDA.w Near+1");
    assert_eq!(written(&c, &at(0x819001)), "LDA.w Near-1");
    assert_eq!(written(&c, &at(0x818FFE)), "LDA.w Near+2");
    assert_eq!(written(&c, &at(0x819002)), "LDA.w Near-2");
    assert_eq!(written(&c, &at(0x818FFD)), "LDA.w $9000");
    assert_eq!(written(&c, &at(0x819003)), "LDA.w $9000");
}

#[test]
fn nearer_label_below_comes_first() {
    let labels = labels_at(&[
        (0x818FFE, "TwoBelow", LabelType::Data),
        (0x819001, "OneAbove", LabelType::Data),
        (0x819002, "TwoAbove", LabelType::Data),
    ]);
    assert_eq!(find_label(&labels, 0x819000, true), Some((0x819001, -1)));
    let labels = labels_at(&[
        (0x818FFF, "OneBelow", LabelType::Data),
        (0x819001, "OneAbove", LabelType::Data),
    ]);
    assert_eq!(find_label(&labels, 0x819000, true), Some((0x818FFF, 1)));
    assert_eq!(find_label(&labels, 0x819000, false), None);
    let labels = labels_at(&[
        (0x818FFE, "TwoBelow", LabelType::Data),
        (0x819002, "TwoAbove", LabelType::Data),
    ]);
    assert_eq!(find_label(&labels, 0x819000, true), Some((0x818FFE, 2)));
    let ends = labels_at(&[(u64::MAX, "Last", LabelType::Data), (1, "One", LabelType::Data)]);
    assert_eq!(find_label(&ends, 0, true), Some((1, -1)));
    assert_eq!(find_label(&ends, u64::MAX - 1, true), Some((u64::MAX, -1)));
}

#[test]
fn branches_and_calls_take_no_neighbours() {
    let labels = labels_at(&[(0x808013, "Near", LabelType::Data), (0x819001, "Sub", LabelType::Subroutine)]);
    assert_eq!(written(&code(0x808000, 0xD0, ArgType::Address(0x10), 1, 0x81), &labels), "BNE $10");
    assert_eq!(
        written(&code(0x808000, 0x82, ArgType::Address(0x10), 2, 0x81), &labels),
        "BRL $0010"
    );
    assert_eq!(
        written(&code(0x808000, 0x20, ArgType::Address(0x9000), 2, 0x81), &labels),
        "JSR.w $9000"
    );
    assert_eq!(
        written(&code(0x808000, 0xFC, ArgType::Address(0x9000), 2, 0x81), &labels),
        "JSR.w ($9000,X)"
    );
    assert_eq!(
        written(&code(0x808000, 0x22, ArgType::Address(0x819000), 3, 0x81), &labels),
        "JSL.l $819000"
    );
    assert_eq!(
        written(&code(0x808000, 0x4C, ArgType::Address(0x9000), 2, 0x81), &labels),
        "JMP.w Sub-1"
    );
}

#[test]
fn blocked_label_is_not_written() {
    let labels = labels_at(&[
        (0x819000, "Hidden", LabelType::Blocked),
        (0x819001, "Shown", LabelType::Data),
    ]);
    let c = code(0x808000, 0xAD, ArgType::Address(0x9000), 2, 0x81);
    assert_eq!(written(&c, &labels), "LDA.w $9000");
    let labels = labels_at(&[(0x819001, "Hidden", LabelType::Blocked)]);
    assert_eq!(written(&c, &labels), "LDA.w $9000");
}

#[test]
fn immediate_takes_a_label_only_under_an_override() {
    let config = Config::load(
        Vec::new(),
        vec![Override {
            addr: OverrideAddr::Range(0x808000, 0x808002),
            db: Some(0x81),
            _type: None,
            _struct: None,
            opcode: None,
        }],
        Vec::new(),
    );
    let labels = labels_at(&[
        (0x819000, "Table", LabelType::DataTable(0)),
        (0x7E0030, "Flags", LabelType::Data),
        (0x7E1234, "Var", LabelType::Data),
    ]);
    let instruction = |c: &Code| c.to_string(&config, &labels)[4..44].trim_end().to_string();
    let c = code(0x808000, 0xA9, ArgType::Address(0x9000), 2, 0x81);
    assert_eq!(instruction(&c), "LDA.w #Table");
    let c = code(0x808003, 0xA9, ArgType::Address(0x9000), 2, 0x81);
    assert_eq!(instruction(&c), "LDA.w #$9000");
    let c = code(0x808002, 0xC2, ArgType::Address(0x30), 1, 0x81);
    assert_eq!(instruction(&c), "REP.b #Flags");
    let c = code(0x808005, 0xC2, ArgType::Address(0x30), 1, 0x81);
    assert_eq!(instruction(&c), "REP.b #$30");
    let c = code(0x808001, 0xA9, ArgType::Address(0x1235), 2, 0x81);
    assert_eq!(instruction(&c), "LDA.w #Var+1");
}

#[test]
fn written_label_names_the_target() {
    let c = code(0x808000, 0xAD, ArgType::Address(0x9000), 2, 0x81);
    for address in [0x818FFEu64, 0x818FFF, 0x819000, 0x819001, 0x819002] {
        let labels = labels_at(&[(address, "L", LabelType::Data)]);
        let (at, add) = find_label(&labels, 0x819000, true).unwrap();
        assert_eq!(labels[&at].address as i64 + add as i64, 0x819000);
        let operand = c.arg_label(&empty_config(), &labels);
        let expected = match add {
            0 => "L".to_string(),
            n if n > 0 => format!("L+{}", n),
            n => format!("L{}", n),
        };
        assert_eq!(operand, expected);
    }
}

#[test]
fn renderable_instructions() {
    assert!(code(0x808000, 0x18, ArgType::NoArg, 0, 0x80).is_renderable());
    assert!(code(0x808000, 0x18, ArgType::Address(1), 9, 0x80).is_renderable());
    assert!(!code(0x808000, 0xAD, ArgType::NoArg, 0, 0x80).is_renderable());
    assert!(!code(0x808000, 0xAD, ArgType::Address(1), 0, 0x80).is_renderable());
    assert!(code(0x808000, 0xAD, ArgType::Address(1), 1, 0x80).is_renderable());
    assert!(code(0x808000, 0xAD, ArgType::Address(1), 3, 0x80).is_renderable());
    assert!(!code(0x808000, 0xAD, ArgType::Address(1), 4, 0x80).is_renderable());
    assert!(code(0x808000, 0x54, ArgType::BlockMove(1, 2), 0, 0x80).is_renderable());
    assert_eq!(
        Opcode::from_byte(0x18),
        Opcode { name: Mnemonic::CLC, addr_mode: AddrMode::Implied }
    );
}

fn data(address: u64, values: Vec<DataVal>, comment: Option<&str>) -> Data {
    Data { address, data: values, comment: comment.map(|c| c.to_string()) }
}

#[test]
fn data_is_grouped_by_width() {
    let mut labels = HashMap::new();
    let d = data(
        0x809000,
        vec![
            DataVal::DB(0x01),
            DataVal::DB(0xFF),
            DataVal::DW(0x1234),
            DataVal::DW(0x0005),
            DataVal::DL(0x123456),
            DataVal::DL(0x1234567),
            DataVal::DB(0x00),
        ],
        None,
    );
    assert_eq!(
        d.to_string(&empty_config(), &mut labels),
        "    db $01,$FF : dw $1234,$0005 : dl $123456,$1234567 : db $00"
    );
}

#[test]
fn data_without_values_is_four_blanks() {
    let mut labels = HashMap::new();
    assert_eq!(data(0x809000, Vec::new(), None).to_string(&empty_config(), &mut labels), "    ");
    assert_eq!(
        data(0x809000, Vec::new(), Some("nothing")).to_string(&empty_config(), &mut labels),
        "     ; | 809000 | nothing"
    );
}

#[test]
fn data_comment_follows_the_address() {
    let mut labels = HashMap::new();
    assert_eq!(
        data(0x9000, vec![DataVal::DW(0xBEEF)], Some("magic")).to_string(&empty_config(), &mut labels),
        "    dw $BEEF ; | 009000 | magic"
    );
}

#[test]
fn labels_inside_data_are_marked() {
    let mut labels = labels_at(&[
        (0x809000, "Start", LabelType::Data),
        (0x809001, "Second", LabelType::Blocked),
        (0x809002, "Inside", LabelType::Data),
        (0x809004, "Fourth", LabelType::Data),
    ]);
    let d = data(
        0x809000,
        vec![DataVal::DB(1), DataVal::DW(2), DataVal::DB(3), DataVal::DB(4)],
        None,
    );
    assert_eq!(
        d.to_string(&empty_config(), &mut labels),
        "    db $01 : Second: dw $0002 : db $03 : Fourth: db $04"
    );
    assert!(!labels[&0x809000].assigned);
    assert!(labels[&0x809001].assigned);
    assert!(!labels[&0x809002].assigned);
    assert!(labels[&0x809004].assigned);
    assert_eq!(labels[&0x809001].label_type, LabelType::Blocked);
    assert_eq!(labels.len(), 4);
}

#[test]
fn data_values_that_are_addresses_take_labels() {
    let config = Config::load(
        Vec::new(),
        vec![
            Override {
                addr: OverrideAddr::Range(0x809000, 0x809003),
                db: Some(0x81),
                _type: Some("Pointer".to_string()),
                _struct: None,
                opcode: None,
            },
            Override {
                addr: OverrideAddr::Range(0x809004, 0x809007),
                db: None,
                _type: Some("Data".to_string()),
                _struct: None,
                opcode: None,
            },
        ],
        Vec::new(),
    );
    let mut labels = labels_at(&[
        (0x818000, "Handler", LabelType::Subroutine),
        (0x80A000, "Text", LabelType::Blocked),
        (0x808000, "Elsewhere", LabelType::Data),
    ]);
    let d = data(
        0x809000,
        vec![
            DataVal::DW(0x8000),
            DataVal::DW(0x8002),
            DataVal::DW(0xA000),
            DataVal::DW(0x8000),
            DataVal::DW(0x8000),
        ],
        None,
    );
    assert_eq!(
        d.to_string(&config, &mut labels),
        "    dw Handler,$8002,Text,Elsewhere,$8000"
    );
    assert!(labels.values().all(|l| !l.assigned));
}

#[test]
fn a_line_is_written_by_its_kind() {
    let mut labels = labels_at(&[(0x809001, "Mid", LabelType::Data)]);
    let config = empty_config();
    assert_eq!(
        Line::Comment("; as it is".to_string()).to_string(&config, &mut labels),
        "; as it is"
    );
    assert_eq!(
        Line::Code(code(0x808000, 0x60, ArgType::NoArg, 0, 0x80)).to_string(&config, &mut labels),
        format!("    {:<40};| 808000 | 80 | ", "RTS")
    );
    assert!(!labels[&0x809001].assigned);
    assert_eq!(
        Line::Data(data(0x809000, vec![DataVal::DB(1), DataVal::DB(2)], None)).to_string(&config, &mut labels),
        "    db $01 : Mid: db $02"
    );
    assert!(labels[&0x809001].assigned);
}
