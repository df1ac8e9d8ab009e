use trace_reasm::address::{
    is_wrapping_branch, resolve_absolute, resolve_branch, resolve_target,
};
use trace_reasm::data::{advance, near, read_value, DataVal, Reading};
use trace_reasm::config::{Config, Override, OverrideAddr, Struct, StructField};
use trace_reasm::opcode::AddrMode;

#[test]
fn branch_forward() {
    assert_eq!(resolve_branch(0x80800D, 0x10, false), 0x80801F);
    assert_eq!(resolve_branch(0x808000, 0x7F, false), 0x808081);
}

#[test]
fn branch_backward() {
    assert_eq!(resolve_branch(0x808010, 0xFE, false), 0x808010);
    assert_eq!(resolve_branch(0x808010, 0x80, false), 0x807F92);
}

#[test]
fn branch_reads_only_the_low_byte() {
    assert_eq!(resolve_branch(0x808010, 0x12FE, false), 0x808010);
}

#[test]
fn long_branch() {
    assert_eq!(resolve_branch(0x808000, 0x1000, true), 0x809002);
    assert_eq!(resolve_branch(0x808000, 0xFFFD, true), 0x807FFF);
    assert_eq!(resolve_branch(0x808000, 0x8000, true), 0x800002);
}

#[test]
fn branch_may_leave_its_bank() {
    assert_eq!(resolve_branch(0x80FFF0, 0x7F, false), 0x810071);
    assert!(!is_wrapping_branch(0x80FFF0, 0x7F, false));
}

#[test]
fn branch_wraps_at_the_ends_of_the_address_space() {
    assert_eq!(resolve_branch(0x000000, 0x80, false), 0xFFFF82);
    assert!(is_wrapping_branch(0x000000, 0x80, false));
    assert_eq!(resolve_branch(0xFFFFFE, 0x00, false), 0x000000);
    assert!(is_wrapping_branch(0xFFFFFE, 0x00, false));
    assert!(!is_wrapping_branch(0xFFFFFD, 0x00, false));
    assert_eq!(resolve_branch(0xFFFFF0, 0x7FFF, true), 0x007FF1);
    assert!(is_wrapping_branch(0xFFFFF0, 0x7FFF, true));
    assert!(is_wrapping_branch(u64::MAX, 0xFF, false));
    assert!(!is_wrapping_branch(0x1000000, 0xFD, false));
    assert!(is_wrapping_branch(0x1000000, 0xFE, false));
}

#[test]
fn absolute_operand_by_its_range() {
    assert_eq!(resolve_absolute(0x80, 0x0000), 0x7E0000);
    assert_eq!(resolve_absolute(0x80, 0x1FFF), 0x7E1FFF);
    assert_eq!(resolve_absolute(0x80, 0x2000), 0x2000);
    assert_eq!(resolve_absolute(0x80, 0x7FFF), 0x7FFF);
    assert_eq!(resolve_absolute(0x80, 0x8000), 0x808000);
    assert_eq!(resolve_absolute(0x7E, 0xFFFF), 0x7EFFFF);
    assert_eq!(resolve_absolute(0x81, 0x129000), 0x819000);
}

#[test]
fn target_by_operand_length() {
    assert_eq!(resolve_target(0x808000, 0x80, 0x12, AddrMode::Direct, 1), Some(0x7E0012));
    assert_eq!(resolve_target(0x808000, 0x80, 0x3412, AddrMode::Direct, 1), Some(0x7E0012));
    assert_eq!(resolve_target(0x808000, 0x81, 0x9000, AddrMode::Absolute, 2), Some(0x819000));
    assert_eq!(resolve_target(0x808000, 0x81, 0x123456, AddrMode::AbsoluteLong, 3), Some(0x123456));
    assert_eq!(resolve_target(0x808000, 0x81, 0x10, AddrMode::Relative, 1), Some(0x808012));
    assert_eq!(resolve_target(0x808000, 0x81, 0x10, AddrMode::Relative, 7), Some(0x808012));
    assert_eq!(resolve_target(0x808000, 0x81, 0x0110, AddrMode::RelativeLong, 2), Some(0x808112));
    assert_eq!(resolve_target(0x808000, 0x81, 0x10, AddrMode::Absolute, 0), None);
    assert_eq!(resolve_target(0x808000, 0x81, 0x10, AddrMode::Absolute, 4), None);
}

#[test]
fn data_addresses_advance_within_24_bits() {
    assert_eq!(advance(0x809000, 3), 0x809003);
    assert_eq!(advance(0xFFFFFF, 1), 0);
    assert_eq!(advance(0xFFFFFE, 3), 1);
}

#[test]
fn near_address_takes_the_given_bank() {
    assert_eq!(near(Some(0x82), 0x809000, 0x1234), 0x821234);
    assert_eq!(near(None, 0x809000, 0x1234), 0x801234);
    assert_eq!(near(None, 0x809000, 0x561234), 0x801234);
}

fn with_override(addr: OverrideAddr, kind: Option<&str>, layout: Option<&str>, db: Option<u64>) -> Override {
    Override {
        addr,
        db,
        _type: kind.map(|k| k.to_string()),
        _struct: layout.map(|k| k.to_string()),
        opcode: None,
    }
}

#[test]
fn values_are_read_by_the_first_override_that_covers_them() {
    let config = Config::load(
        Vec::new(),
        vec![
            with_override(OverrideAddr::Address(0x809000), Some("Data"), None, None),
            with_override(OverrideAddr::Range(0x809000, 0x809010), Some("Pointer"), None, Some(0x90)),
            with_override(OverrideAddr::Address(0x809020), None, None, None),
            with_override(OverrideAddr::Address(0x809030), Some("Code"), None, None),
        ],
        Vec::new(),
    );
    assert_eq!(read_value(&config, DataVal::DW(0x8123), 0x809000, 0), Reading::Reference(0x808123));
    assert_eq!(read_value(&config, DataVal::DW(0x8123), 0x809001, 0), Reading::Pointer(0x908123));
    assert_eq!(read_value(&config, DataVal::DL(0x128123), 0x809010, 0), Reading::Pointer(0x908123));
    assert_eq!(read_value(&config, DataVal::DW(0x8123), 0x809011, 0), Reading::Plain);
    assert_eq!(read_value(&config, DataVal::DW(0x8123), 0x809020, 0), Reading::Plain);
    assert_eq!(read_value(&config, DataVal::DW(0x8123), 0x809030, 0), Reading::Plain);
}

#[test]
fn struct_fields_are_found_by_their_offset_in_the_record() {
    let field = |offset: u64, length: u64, kind: &str, db: Option<u64>| StructField {
        name: format!("f{}", offset),
        offset,
        length,
        _type: kind.to_string(),
        db,
    };
    let config = Config::load(
        Vec::new(),
        vec![
            with_override(OverrideAddr::Range(0x809000, 0x8090FF), Some("Struct"), Some("Pair"), None),
            with_override(OverrideAddr::Range(0x80A000, 0x80A0FF), Some("Struct"), Some("Empty"), None),
            with_override(OverrideAddr::Range(0x80B000, 0x80B0FF), Some("Struct"), None, None),
            with_override(OverrideAddr::Range(0x80C000, 0x80C0FF), Some("Struct"), Some("Flat"), None),
        ],
        vec![
            Struct {
                name: "Pair".to_string(),
                fields: vec![
                    field(0, 2, "Pointer", None),
                    field(2, 2, "Word", None),
                    field(2, 2, "Pointer", None),
                    field(4, 3, "Pointer", Some(0x99)),
                ],
            },
            Struct { name: "Empty".to_string(), fields: Vec::new() },
            Struct { name: "".to_string(), fields: vec![field(0, 2, "Pointer", Some(0x85))] },
            Struct { name: "Flat".to_string(), fields: vec![field(0, 0, "Pointer", None)] },
            Struct { name: "Pair".to_string(), fields: vec![field(0, 2, "Word", None)] },
        ],
    );
    let word = DataVal::DW(0x8123);
    assert_eq!(read_value(&config, word, 0x809000, 0), Reading::Pointer(0x808123));
    assert_eq!(read_value(&config, word, 0x809002, 2), Reading::Plain);
    assert_eq!(read_value(&config, DataVal::DL(0x12C000), 0x809004, 4), Reading::Pointer(0x12C000));
    assert_eq!(read_value(&config, DataVal::DL(0x124000), 0x809004, 4), Reading::Plain);
    assert_eq!(read_value(&config, word, 0x809007, 7), Reading::Pointer(0x808123));
    assert_eq!(read_value(&config, word, 0x809008, 8), Reading::Plain);
    assert_eq!(read_value(&config, word, 0x809001, 1), Reading::Plain);
    assert_eq!(read_value(&config, DataVal::DW(0x7FFF), 0x809000, 0), Reading::Plain);
    assert_eq!(read_value(&config, word, 0x80A000, 0), Reading::Plain);
    assert_eq!(read_value(&config, word, 0x80B000, 0), Reading::Pointer(0x858123));
    assert_eq!(read_value(&config, word, 0x80C000, 0), Reading::Plain);
    assert_eq!(read_value(&config, word, 0x809000, 7u128 << 64), Reading::Pointer(0x808123));
    assert_eq!(read_value(&config, word, 0x809000, (7u128 << 64) + 1), Reading::Plain);
}

#[test]
fn a_branch_that_stays_in_its_bank_lands_in_it() {
    for pc in [0x808000u64, 0x80FF7D, 0x80007E, 0x7E1234] {
        for arg in [0x00u64, 0x01, 0x7F, 0x80, 0xFE, 0xFF] {
            let displacement = if arg >= 0x80 { arg as i64 - 0x100 } else { arg as i64 };
            let low = ((pc + 2) & 0xFFFF) as i64 + displacement;
            if (0..0x10000).contains(&low) {
                assert_eq!(resolve_branch(pc, arg, false) >> 16, (pc + 2) >> 16);
            }
        }
    }
    assert_eq!(resolve_branch(0x80FFF0, 0x7F, false) >> 16, 0x81);
    assert_eq!(resolve_branch(0x808000, 0x8000, true) >> 16, 0x80);
    assert_eq!(resolve_branch(0x808000, 0x7FFF, true) >> 16, 0x81);
}
