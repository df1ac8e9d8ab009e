use std::collections::{BTreeMap, HashMap};

use trace_reasm::code::{ArgType, Code};
use trace_reasm::config::Config;
use trace_reasm::data::{Data, DataVal};
use trace_reasm::label::{generate_labels, Label, LabelType};
use trace_reasm::line::{Line, ParseError, ParserState};
use trace_reasm::opcode::{AddrMode, Mnemonic, Opcode};

fn read(text: &str, state: &mut ParserState) -> Result<(Option<u64>, Line), ParseError> {
    Line::parse(text, &Config::load(Vec::new(), Vec::new(), Vec::new()), state)
}

fn empty_config() -> Config {
    Config::load(Vec::new(), Vec::new(), Vec::new())
}

fn fresh_state() -> ParserState {
    ParserState::new()
}

fn parse_code(text: &str) -> Code {
    let mut state = fresh_state();
    match read(text, &mut state) {
        Ok((Some(_), Line::Code(c))) => c,
        other => panic!("not an instruction: {:?}", other),
    }
}

fn labels_of(code: &Code) -> HashMap<u64, Label> {
    let mut lines: BTreeMap<u64, Vec<Line>> = BTreeMap::new();
    lines.insert(code.address, vec![Line::Code(code.clone())]);
    let mut labels = HashMap::new();
    generate_labels(&lines, &empty_config(), &mut labels);
    labels
}

fn instruction(rendered: &str) -> String {
    rendered[4..44].trim_end().to_string()
}

#[test]
fn jsr_gets_a_subroutine_label_in_its_own_bank() {
    let code = parse_code("$80:8000  20 34 12         JSR $1234");
    assert_eq!(code.address, 0x808000);
    assert_eq!(code.db, 0x80);
    assert_eq!(code.length, 2);
    assert_eq!(code.arg, ArgType::Address(0x1234));
    assert_eq!(code.opcode, Opcode { name: Mnemonic::JSR, addr_mode: AddrMode::Absolute });
    let labels = labels_of(&code);
    let label = &labels[&0x801234];
    assert_eq!(label.name, "SUB_801234");
    assert_eq!(label.label_type, LabelType::Subroutine);
    assert_eq!(labels.len(), 1);
}

#[test]
fn jsr_into_rom_is_written_with_its_label() {
    let code = parse_code("$80:8000  20 34 92         JSR $9234");
    let labels = labels_of(&code);
    assert_eq!(labels[&0x809234].name, "SUB_809234");
    let text = code.to_string(&empty_config(), &labels);
    assert_eq!(instruction(&text), "JSR.w SUB_809234");
}

#[test]
fn jsr_below_the_rom_is_written_as_a_number() {
    let code = parse_code("$80:8000  20 34 12         JSR $1234");
    let labels = labels_of(&code);
    let text = code.to_string(&empty_config(), &labels);
    assert_eq!(instruction(&text), "JSR.w $1234");
}

#[test]
fn jsl_gets_a_long_subroutine_label() {
    let code = parse_code("$80:8003  22 56 34 12      JSL $123456");
    assert_eq!(code.arg, ArgType::Address(0x123456));
    assert_eq!(code.length, 3);
    let labels = labels_of(&code);
    let label = &labels[&0x123456];
    assert_eq!(label.name, "SUBL_123456");
    assert_eq!(label.label_type, LabelType::Subroutine);
    let text = code.to_string(&empty_config(), &labels);
    assert_eq!(instruction(&text), "JSL.l SUBL_123456");
    assert_eq!(text, format!("    {:<40};| 808003 | 80 | ", "JSL.l SUBL_123456"));
}

#[test]
fn immediate_without_override_stays_a_number() {
    let code = parse_code("$80:8007  A9 42 00         LDA #$0042");
    assert_eq!(code.arg, ArgType::Address(0x0042));
    let labels = labels_of(&code);
    assert!(labels.is_empty());
    let text = code.to_string(&empty_config(), &labels);
    assert_eq!(instruction(&text), "LDA.w #$0042");
}

#[test]
fn indexed_read_in_work_ram_gets_a_table_label() {
    let mut code = parse_code("$80:800A  BD 00 80         LDA $8000,X");
    code.db = 0x7E;
    let labels = labels_of(&code);
    let label = &labels[&0x7E8000];
    assert_eq!(label.name, "WRAM_TBL_7E8000");
    assert_eq!(label.label_type, LabelType::DataTable(0));
    let text = code.to_string(&empty_config(), &labels);
    assert_eq!(instruction(&text), "LDA.w WRAM_TBL_7E8000,X");
}

#[test]
fn branch_gets_a_label_at_its_target() {
    let code = parse_code("$80:800D  F0 10            BEQ $801F");
    assert_eq!(code.arg, ArgType::Address(0x10));
    assert_eq!(code.length, 1);
    let labels = labels_of(&code);
    let label = &labels[&0x80801F];
    assert_eq!(label.name, "BRA_80801F");
    assert_eq!(label.label_type, LabelType::Branch);
    let text = code.to_string(&empty_config(), &labels);
    assert_eq!(instruction(&text), "BEQ BRA_80801F");
}

#[test]
fn label_inside_data_starts_a_new_group() {
    let data = Data {
        address: 0x809000,
        data: vec![DataVal::DB(0x01), DataVal::DB(0x02), DataVal::DW(0x1234)],
        comment: None,
    };
    let mut labels = HashMap::new();
    labels.insert(
        0x809002,
        Label {
            address: 0x809002,
            name: "LBL_009002".to_string(),
            label_type: LabelType::Data,
            assigned: false,
        },
    );
    let text = data.to_string(&empty_config(), &mut labels);
    assert_eq!(text, "    db $01,$02 : LBL_009002: dw $1234");
    assert!(labels[&0x809002].assigned);
}
