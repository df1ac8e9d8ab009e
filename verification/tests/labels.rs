use std::collections::{BTreeMap, HashMap};

use trace_reasm::code::{ArgType, Code};
use trace_reasm::config::{Config, Override, OverrideAddr};
use trace_reasm::label::{
    classify, generate_labels, insert_new, is_crowded, label_addresses, mark_assigned, offer,
    prefix_str, Label, LabelType, Purpose, Region,
};
use trace_reasm::line::Line;
use trace_reasm::opcode::{AddrMode, Mnemonic, Opcode};

fn empty_config() -> Config {
    Config::load(Vec::new(), Vec::new(), Vec::new())
}

fn code(address: u64, byte: u8, arg: u64, length: u8, db: u8) -> Code {
    Code {
        address,
        opcode: Opcode::from_byte(byte),
        arg: ArgType::Address(arg),
        comment: None,
        length,
        db,
    }
}

fn asked(c: &Code) -> Option<(u64, String, LabelType)> {
    Label::for_code(c, &empty_config()).map(|l| {
        assert!(!l.assigned);
        (l.address, l.name, l.label_type)
    })
}

fn some(address: u64, name: &str, label_type: LabelType) -> Option<(u64, String, LabelType)> {
    Some((address, name.to_string(), label_type))
}

#[test]
fn regions_of_the_memory_map() {
    assert_eq!(classify(0x800000), None);
    assert_eq!(classify(0x8000FF), None);
    assert_eq!(classify(0x7200FF), None);
    assert_eq!(classify(0x800100), Some((0x7E0100, Region::LowRam)));
    assert_eq!(classify(0x001FFF), Some((0x7E1FFF, Region::LowRam)));
    assert_eq!(classify(0x721FFF), Some((0x7E1FFF, Region::LowRam)));
    assert_eq!(classify(0x802000), Some((0x2000, Region::Hardware)));
    assert_eq!(classify(0x3F7FFF), Some((0x7FFF, Region::Hardware)));
    assert_eq!(classify(0x402000), Some((0x402000, Region::Rom)));
    assert_eq!(classify(0x6F7FFF), Some((0x6F7FFF, Region::Rom)));
    assert_eq!(classify(0x702000), Some((0x702000, Region::SaveRam)));
    assert_eq!(classify(0x7DFFFF), Some((0x7DFFFF, Region::SaveRam)));
    assert_eq!(classify(0x7E0000), Some((0x7E0000, Region::WorkRam)));
    assert_eq!(classify(0x7E2100), Some((0x7E2100, Region::WorkRam)));
    assert_eq!(classify(0x7FFFFF), Some((0x7FFFFF, Region::WorkRam)));
    assert_eq!(classify(0x808000), Some((0x808000, Region::Rom)));
    assert_eq!(classify(0xFFFFFF), Some((0xFFFFFF, Region::Rom)));
    assert_eq!(classify(0x1_0000_8000), Some((0x1_0000_8000, Region::Rom)));
}

#[test]
fn prefixes_by_region_and_purpose() {
    let expected = [
        (Region::LowRam, ["LORAM", "LORAM_PTR", "LORAM_TBL"]),
        (Region::Hardware, ["HWREG", "HW_PTR", "HW_TBL"]),
        (Region::WorkRam, ["WRAM", "WRAM_PTR", "WRAM_TBL"]),
        (Region::SaveRam, ["SRAM", "SRAM_PTR", "SRAM_TBL"]),
        (Region::Rom, ["DAT", "PTR", "TBL"]),
    ];
    for (region, names) in expected {
        assert_eq!(prefix_str(region, Purpose::Plain), names[0]);
        assert_eq!(prefix_str(region, Purpose::Pointers), names[1]);
        assert_eq!(prefix_str(region, Purpose::Table), names[2]);
    }
}

#[test]
fn synthesized_name_has_at_least_six_digits() {
    assert_eq!(Label::synthesize("SUB", 0x12, LabelType::Subroutine).name, "SUB_000012");
    assert_eq!(Label::synthesize("SUB", 0xABCDEF, LabelType::Subroutine).name, "SUB_ABCDEF");
    assert_eq!(Label::synthesize("X", 0x1234567, LabelType::Data).name, "X_1234567");
    assert_eq!(Label::synthesize("", 0, LabelType::Data).name, "_000000");
}

#[test]
fn calls_ask_for_subroutines() {
    assert_eq!(
        asked(&code(0x818000, 0x20, 0x9000, 2, 0x7E)),
        some(0x819000, "SUB_819000", LabelType::Subroutine)
    );
    assert_eq!(
        asked(&code(0x818000, 0x22, 0xC09000, 3, 0x7E)),
        some(0xC09000, "SUBL_C09000", LabelType::Subroutine)
    );
    assert_eq!(
        asked(&code(0x818000, 0x20, 0x0010, 2, 0x7E)),
        some(0x810010, "SUB_810010", LabelType::Subroutine)
    );
}

#[test]
fn jump_through_a_table_asks_for_pointers() {
    assert_eq!(
        asked(&code(0x818000, 0x7C, 0x9000, 2, 0x82)),
        some(0x829000, "PTR_829000", LabelType::PointerTable(0))
    );
    assert_eq!(
        asked(&code(0x818000, 0xFC, 0x9000, 2, 0x7F)),
        some(0x7F9000, "WRAM_PTR_7F9000", LabelType::PointerTable(0))
    );
    assert_eq!(
        asked(&code(0x818000, 0x7C, 0x0200, 2, 0x82)),
        some(0x7E0200, "LORAM_PTR_7E0200", LabelType::PointerTable(0))
    );
    assert_eq!(
        asked(&code(0x818000, 0x7C, 0x4200, 2, 0x82)),
        some(0x4200, "HW_PTR_004200", LabelType::PointerTable(0))
    );
    assert_eq!(
        asked(&code(0x818000, 0x7C, 0x4200, 2, 0x71)),
        some(0x714200, "SRAM_PTR_714200", LabelType::PointerTable(0))
    );
    assert_eq!(asked(&code(0x818000, 0x7C, 0x0042, 2, 0x82)), None);
}

#[test]
fn indexed_access_asks_for_a_table() {
    assert_eq!(
        asked(&code(0x818000, 0xBD, 0x9000, 2, 0x82)),
        some(0x829000, "TBL_829000", LabelType::DataTable(0))
    );
    assert_eq!(
        asked(&code(0x818000, 0xB9, 0x0100, 2, 0x82)),
        some(0x7E0100, "LORAM_TBL_7E0100", LabelType::DataTable(0))
    );
    assert_eq!(asked(&code(0x818000, 0xB9, 0x00FF, 2, 0x7E)), None);
    assert_eq!(
        asked(&code(0x818000, 0xBD, 0x2100, 2, 0x00)),
        some(0x2100, "HW_TBL_002100", LabelType::DataTable(0))
    );
    assert_eq!(
        asked(&code(0x818000, 0xBD, 0x2100, 2, 0x7D)),
        some(0x7D2100, "SRAM_TBL_7D2100", LabelType::DataTable(0))
    );
    assert_eq!(
        asked(&code(0x818000, 0xBF, 0xC19345, 3, 0x82)),
        some(0xC19345, "TBL_C19345", LabelType::DataTable(0))
    );
    assert_eq!(
        asked(&code(0x818000, 0xBF, 0xC12345, 3, 0x82)),
        some(0x2345, "HW_TBL_002345", LabelType::DataTable(0))
    );
    assert_eq!(
        asked(&code(0x818000, 0xBF, 0x7E2345, 3, 0x82)),
        some(0x7E2345, "WRAM_TBL_7E2345", LabelType::DataTable(0))
    );
    assert_eq!(asked(&code(0x818000, 0xBF, 0xC10045, 3, 0x82)), None);
}

#[test]
fn plain_access_asks_for_data() {
    assert_eq!(
        asked(&code(0x818000, 0xAD, 0x9000, 2, 0x82)),
        some(0x829000, "DAT_829000", LabelType::Data)
    );
    assert_eq!(
        asked(&code(0x818000, 0xAD, 0x9000, 2, 0x7E)),
        some(0x7E9000, "WRAM_7E9000", LabelType::Data)
    );
    assert_eq!(
        asked(&code(0x818000, 0xAD, 0x0050, 2, 0x7E)),
        some(0x7E0050, "WRAM_7E0050", LabelType::Data)
    );
    assert_eq!(
        asked(&code(0x818000, 0xAD, 0x9000, 2, 0x70)),
        some(0x709000, "SRAM_709000", LabelType::Data)
    );
    assert_eq!(
        asked(&code(0x818000, 0xAD, 0x1000, 2, 0x82)),
        some(0x7E1000, "LORAM_7E1000", LabelType::Data)
    );
    assert_eq!(asked(&code(0x818000, 0xAD, 0x0010, 2, 0x82)), None);
    assert_eq!(
        asked(&code(0x818000, 0x8D, 0x2100, 2, 0x82)),
        some(0x2100, "HWREG_002100", LabelType::Data)
    );
    assert_eq!(
        asked(&code(0x818000, 0x8D, 0x2100, 2, 0x3F)),
        some(0x2100, "HWREG_002100", LabelType::Data)
    );
    assert_eq!(
        asked(&code(0x818000, 0x8D, 0x2100, 2, 0x40)),
        some(0x402100, "DAT_402100", LabelType::Data)
    );
    assert_eq!(
        asked(&code(0x818000, 0xAF, 0xC19345, 3, 0x82)),
        some(0xC19345, "DAT_C19345", LabelType::Data)
    );
    assert_eq!(
        asked(&code(0x818000, 0xAF, 0x412345, 3, 0x82)),
        some(0x412345, "DAT_412345", LabelType::Data)
    );
    assert_eq!(
        asked(&code(0x818000, 0x4C, 0x9000, 2, 0x81)),
        some(0x819000, "DAT_819000", LabelType::Data)
    );
}

#[test]
fn pea_asks_for_the_subroutine_behind_the_address() {
    assert_eq!(
        asked(&code(0x818000, 0xF4, 0x8FFF, 2, 0x81)),
        some(0x819000, "SUB_819000", LabelType::Subroutine)
    );
    assert_eq!(
        asked(&code(0x818000, 0xF4, 0x8FFF, 2, 0x7E)),
        some(0x7E8FFF, "WRAM_7E8FFF", LabelType::Data)
    );
    assert_eq!(
        asked(&code(0x818000, 0xF4, 0x1000, 2, 0x81)),
        some(0x7E1000, "LORAM_7E1000", LabelType::Data)
    );
    let last = code(0x818000, 0xF4, 0xFFFF, 2, 0xFF);
    assert_eq!(asked(&last), some(0, "SUB_000000", LabelType::Subroutine));
    assert!(Label::wraps(&last));
    assert!(!Label::wraps(&code(0x818000, 0xF4, 0xFFFE, 2, 0xFF)));
}

#[test]
fn branch_asks_for_a_branch_label() {
    assert_eq!(
        asked(&code(0x818000, 0xD0, 0xFC, 1, 0x81)),
        some(0x817FFE, "BRA_817FFE", LabelType::Branch)
    );
    assert_eq!(asked(&code(0x818000, 0x82, 0x1000, 2, 0x81)), None);
    let wrapped = code(0x000001, 0x80, 0x80, 1, 0x00);
    assert_eq!(asked(&wrapped), some(0xFFFF83, "BRA_FFFF83", LabelType::Branch));
    assert!(Label::wraps(&wrapped));
    assert!(!Label::wraps(&code(0x818000, 0xD0, 0xFC, 1, 0x81)));
}

#[test]
fn other_instructions_ask_for_nothing() {
    assert_eq!(asked(&code(0x818000, 0xA5, 0x12, 1, 0x81)), None);
    assert_eq!(asked(&code(0x818000, 0x6C, 0x9000, 2, 0x81)), None);
    assert_eq!(asked(&code(0x818000, 0xA9, 0x9000, 2, 0x81)), None);
    assert_eq!(asked(&code(0x818000, 0xC2, 0x30, 1, 0x81)), None);
    let mut nothing = code(0x818000, 0xAD, 0x9000, 2, 0x81);
    nothing.arg = ArgType::NoArg;
    assert_eq!(asked(&nothing), None);
    nothing.arg = ArgType::BlockMove(0x7E, 0x7F);
    assert_eq!(asked(&nothing), None);
}

#[test]
fn immediate_pointer_needs_an_override() {
    let pointer = |addr: u64, db: Option<u64>, kind: &str| Override {
        addr: OverrideAddr::Address(addr),
        db,
        _type: Some(kind.to_string()),
        _struct: None,
        opcode: None,
    };
    let config = Config::load(
        Vec::new(),
        vec![
            pointer(0x818000, Some(0x85), "Pointer"),
            pointer(0x818003, None, "Pointer"),
            pointer(0x818006, None, "Data"),
        ],
        Vec::new(),
    );
    let ask = |c: &Code| Label::for_code(c, &config).map(|l| (l.address, l.name, l.label_type));
    assert_eq!(
        ask(&code(0x818000, 0xA9, 0x9000, 2, 0x81)),
        some(0x859000, "IMM_859000", LabelType::DataTable(0))
    );
    assert_eq!(
        ask(&code(0x818003, 0xA2, 0x9000, 2, 0x7E)),
        some(0x819000, "IMM_819000", LabelType::DataTable(0))
    );
    assert_eq!(ask(&code(0x818006, 0xA9, 0x9000, 2, 0x81)), None);
    assert_eq!(ask(&code(0x818009, 0xA9, 0x9000, 2, 0x81)), None);
    assert_eq!(ask(&code(0x818000, 0xC2, 0x30, 1, 0x81)), None);
}

fn plain(address: u64, name: &str) -> Label {
    Label { address, name: name.to_string(), label_type: LabelType::Data, assigned: false }
}

#[test]
fn the_first_label_at_an_address_stays() {
    let mut labels = HashMap::new();
    insert_new(&mut labels, plain(0x10, "First"));
    insert_new(&mut labels, plain(0x10, "Second"));
    assert_eq!(labels.len(), 1);
    assert_eq!(labels[&0x10].name, "First");
}

#[test]
fn table_labels_keep_two_bytes_of_distance() {
    for distance in [-2i64, -1, 1, 2] {
        let mut labels = HashMap::new();
        insert_new(&mut labels, plain((0x809000 + distance) as u64, "Near"));
        assert!(is_crowded(&labels, 0x809000));
        offer(&mut labels, Label::synthesize("TBL", 0x809000, LabelType::DataTable(0)));
        offer(&mut labels, Label::synthesize("PTR", 0x809000, LabelType::PointerTable(0)));
        assert_eq!(labels.len(), 1);
        offer(&mut labels, Label::synthesize("DAT", 0x809000, LabelType::Data));
        assert_eq!(labels.len(), 2);
    }
    for distance in [-3i64, 3] {
        let mut labels = HashMap::new();
        insert_new(&mut labels, plain((0x809000 + distance) as u64, "Far"));
        assert!(!is_crowded(&labels, 0x809000));
        offer(&mut labels, Label::synthesize("TBL", 0x809000, LabelType::DataTable(0)));
        assert_eq!(labels[&0x809000].name, "TBL_809000");
    }
}

#[test]
fn distance_is_not_counted_around_the_ends() {
    let mut labels = HashMap::new();
    insert_new(&mut labels, plain(u64::MAX, "Last"));
    insert_new(&mut labels, plain(0, "First"));
    assert!(!is_crowded(&labels, 1 << 63));
    assert!(is_crowded(&labels, 1));
    assert!(is_crowded(&labels, 2));
    assert!(!is_crowded(&labels, 3));
    assert!(!is_crowded(&labels, 0));
    assert!(is_crowded(&labels, u64::MAX - 1));
    assert!(is_crowded(&labels, u64::MAX - 2));
    assert!(!is_crowded(&labels, u64::MAX));
}

#[test]
fn a_table_label_does_not_displace_a_label() {
    let mut labels = HashMap::new();
    insert_new(&mut labels, plain(0x809000, "Known"));
    offer(&mut labels, Label::synthesize("TBL", 0x809000, LabelType::DataTable(0)));
    assert_eq!(labels[&0x809000].name, "Known");
}

#[test]
fn marking_a_label_hands_out_its_name() {
    let mut labels = HashMap::new();
    insert_new(&mut labels, plain(0x10, "Here"));
    assert_eq!(mark_assigned(&mut labels, 0x11), None);
    assert!(!labels[&0x10].assigned);
    assert_eq!(mark_assigned(&mut labels, 0x10), Some("Here".to_string()));
    assert!(labels[&0x10].assigned);
    assert_eq!(labels[&0x10].name, "Here");
    assert_eq!(labels[&0x10].label_type, LabelType::Data);
    assert_eq!(labels[&0x10].address, 0x10);
    assert_eq!(labels.len(), 1);
}

#[test]
fn every_label_is_listed_once() {
    let mut labels = HashMap::new();
    for a in [5u64, 1, 9, 3] {
        insert_new(&mut labels, plain(a, "L"));
    }
    let mut listed = label_addresses(&labels);
    listed.sort();
    assert_eq!(listed, vec![1, 3, 5, 9]);
}

#[test]
fn lines_are_looked_at_from_the_lowest_address_up() {
    let mut lines: BTreeMap<u64, Vec<Line>> = BTreeMap::new();
    lines.insert(
        0x818010,
        vec![
            Line::Code(code(0x818010, 0xAD, 0x9001, 2, 0x81)),
            Line::Code(code(0x818013, 0xBD, 0x9003, 2, 0x81)),
            Line::Code(code(0x818016, 0xBD, 0x9004, 2, 0x81)),
        ],
    );
    lines.insert(0x818000, vec![Line::Code(code(0x818000, 0xBD, 0x9000, 2, 0x81))]);
    let mut labels = HashMap::new();
    generate_labels(&lines, &empty_config(), &mut labels);
    let mut names: Vec<String> = labels.values().map(|l| l.name.clone()).collect();
    names.sort();
    assert_eq!(names, vec!["DAT_819001", "TBL_819000", "TBL_819004"]);
    let mut reversed: BTreeMap<u64, Vec<Line>> = BTreeMap::new();
    reversed.insert(0x818000, vec![Line::Code(code(0x818000, 0xAD, 0x9001, 2, 0x81))]);
    reversed.insert(0x818010, vec![Line::Code(code(0x818010, 0xBD, 0x9000, 2, 0x81))]);
    let mut labels = HashMap::new();
    generate_labels(&reversed, &empty_config(), &mut labels);
    let names: Vec<String> = labels.values().map(|l| l.name.clone()).collect();
    assert_eq!(names, vec!["DAT_819001"]);
}

#[test]
fn no_two_labels_share_an_address() {
    let mut lines: BTreeMap<u64, Vec<Line>> = BTreeMap::new();
    for (i, byte) in [0x20u8, 0xAD, 0xBD, 0x7C, 0xF4, 0x4C].iter().enumerate() {
        let address = 0x818000 + 3 * i as u64;
        lines.insert(address, vec![Line::Code(code(address, *byte, 0x9000, 2, 0x81))]);
    }
    let mut labels = HashMap::new();
    generate_labels(&lines, &empty_config(), &mut labels);
    let mut found: Vec<(u64, String)> = labels.iter().map(|(a, l)| (*a, l.name.clone())).collect();
    found.sort();
    assert_eq!(
        found,
        vec![(0x819000, "SUB_819000".to_string()), (0x819001, "SUB_819001".to_string())]
    );
    assert!(labels.iter().all(|(a, l)| *a == l.address));
}

#[test]
fn label_types_follow_the_instruction() {
    let cases = [
        (0x20u8, 2u8, LabelType::Subroutine),
        (0x22, 3, LabelType::Subroutine),
        (0x7C, 2, LabelType::PointerTable(0)),
        (0xFC, 2, LabelType::PointerTable(0)),
        (0xBD, 2, LabelType::DataTable(0)),
        (0xB9, 2, LabelType::DataTable(0)),
        (0xBF, 3, LabelType::DataTable(0)),
        (0xD0, 1, LabelType::Branch),
        (0xAD, 2, LabelType::Data),
        (0xAF, 3, LabelType::Data),
        (0xF4, 2, LabelType::Subroutine),
    ];
    for (byte, length, expected) in cases {
        let c = code(0x818000, byte, 0x819000, length, 0x81);
        let label = Label::for_code(&c, &empty_config()).unwrap();
        assert_eq!(label.label_type, expected, "{:?}", c.opcode);
    }
    assert_eq!(
        Opcode::from_byte(0xF4),
        Opcode { name: Mnemonic::PEA, addr_mode: AddrMode::Absolute }
    );
}

#[test]
fn hardware_register_labels_stand_without_a_bank() {
    for db in [0x00u8, 0x3F, 0x80, 0xC0, 0xFF] {
        for arg in [0x2000u64, 0x2100, 0x4212, 0x7FFF] {
            for byte in [0xADu8, 0x8D, 0x4C, 0x0C] {
                let label = Label::for_code(&code(0x818000, byte, arg, 2, db), &empty_config()).unwrap();
                assert_eq!(label.address, arg);
                assert_eq!(label.name, format!("HWREG_{:06X}", arg));
            }
        }
    }
    let call = Label::for_code(&code(0x818000, 0x20, 0x2100, 2, 0x80), &empty_config()).unwrap();
    assert_eq!(call.address, 0x812100);
}
