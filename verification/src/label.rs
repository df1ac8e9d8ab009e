//! Labels: the names given to addresses, and how they are synthesized from
//! the configuration and from the code and data of a trace.

use vstd::prelude::*;
use vstd::string::*;
use vstd::std_specs::iter::IteratorSpec;
use std::collections::BTreeMap;
use std::collections::HashMap;
use crate::address::{
    branch_target, branch_wraps, in_bank, is_wrapping_branch, resolve_branch, wrap24,
};
use crate::code::{ArgType, Code, CodeView};
use crate::config::{same_text, Config, ConfigView, LabelEntryView, OverrideView};
use crate::data::{
    advance, near, near_target, read_value, reading_of, Data, DataVal, DataView, Reading,
};
use crate::line::{line_views, Line, LineView};
use crate::opcode::{AddrMode, Mnemonic};
use crate::order::{entry_at, in_order, keys_in_order, lists_in_order};
use crate::text::{hex_upper, push_hex};

verus! {

/// What a label stands for.
#[derive(Debug, Clone, Copy, PartialEq, Eq, Structural)]
pub enum LabelType {
    Undefined,
    Subroutine,
    Branch,
    Data,
    /// A table of pointers, with the number of entries where it is known.
    PointerTable(u64),
    /// A table of data, with the number of entries where it is known.
    DataTable(u64),
    /// A label that is never put in place of an address.
    Blocked,
}

/// A name for an address.
#[derive(Debug, Clone)]
pub struct Label {
    pub address: u64,
    pub name: String,
    pub label_type: LabelType,
    /// Whether the label has been written at its address in a bank file.
    pub assigned: bool,
}

/// A label as contracts see it.
pub struct LabelView {
    pub address: u64,
    pub name: Seq<char>,
    pub label_type: LabelType,
    pub assigned: bool,
}

impl View for Label {
    type V = LabelView;

    open spec fn view(&self) -> LabelView {
        LabelView {
            address: self.address,
            name: self.name@,
            label_type: self.label_type,
            assigned: self.assigned,
        }
    }
}

/// The labels of a map, each by its view.
pub open spec fn label_map(m: Map<u64, Label>) -> Map<u64, LabelView> {
    m.map_values(|l: Label| l@)
}

/// The lines of a map, each by its view.
pub open spec fn line_map(m: Map<u64, Vec<Line>>) -> Map<u64, Seq<LineView>> {
    m.map_values(|v: Vec<Line>| line_views(v@))
}

/// Every label is filed under its own address.
pub open spec fn keyed(m: Map<u64, LabelView>) -> bool {
    forall|a: u64| m.contains_key(a) ==> (#[trigger] m[a]).address == a
}

/// The part of the memory map an address belongs to.
#[derive(Debug, Clone, Copy, PartialEq, Eq, Structural)]
pub enum Region {
    /// The low 8 KiB of work RAM as every bank but the work RAM banks shows
    /// it.
    LowRam,
    /// The hardware registers.
    Hardware,
    /// Banks 0x7E and 0x7F.
    WorkRam,
    /// Banks 0x70 to 0x7D.
    SaveRam,
    /// Everything else.
    Rom,
}

/// What the code does with the address.
#[derive(Debug, Clone, Copy, PartialEq, Eq, Structural)]
pub enum Purpose {
    /// It reads or writes it.
    Plain,
    /// It jumps through a table of pointers there.
    Pointers,
    /// It indexes a table there.
    Table,
}

/// The address a label for `a` stands at, and the region it is in. There is
/// none for the first 256 bytes of a bank outside work RAM, the direct page.
/// Low RAM is labelled in bank 0x7E and a hardware register without its
/// bank.
pub open spec fn region_of(a: u64) -> Option<(u64, Region)> {
    let bank = a >> 16;
    let low = a & 0xFFFF;
    let work = bank == 0x7E || bank == 0x7F;
    if !work && low < 0x100 {
        None
    } else if !work && low < 0x2000 {
        Some((0x7E_0000 | low, Region::LowRam))
    } else if (bank < 0x40 || bank >= 0x80) && 0x2000 <= low < 0x8000 {
        Some((low, Region::Hardware))
    } else if work {
        Some((a, Region::WorkRam))
    } else if 0x70 <= bank <= 0x7D {
        Some((a, Region::SaveRam))
    } else {
        Some((a, Region::Rom))
    }
}

/// The first part of the name of a label in `region` that serves `purpose`.
pub open spec fn prefix_of(region: Region, purpose: Purpose) -> Seq<char> {
    match (region, purpose) {
        (Region::LowRam, Purpose::Plain) => "LORAM"@,
        (Region::LowRam, Purpose::Pointers) => "LORAM_PTR"@,
        (Region::LowRam, Purpose::Table) => "LORAM_TBL"@,
        (Region::Hardware, Purpose::Plain) => "HWREG"@,
        (Region::Hardware, Purpose::Pointers) => "HW_PTR"@,
        (Region::Hardware, Purpose::Table) => "HW_TBL"@,
        (Region::WorkRam, Purpose::Plain) => "WRAM"@,
        (Region::WorkRam, Purpose::Pointers) => "WRAM_PTR"@,
        (Region::WorkRam, Purpose::Table) => "WRAM_TBL"@,
        (Region::SaveRam, Purpose::Plain) => "SRAM"@,
        (Region::SaveRam, Purpose::Pointers) => "SRAM_PTR"@,
        (Region::SaveRam, Purpose::Table) => "SRAM_TBL"@,
        (Region::Rom, Purpose::Plain) => "DAT"@,
        (Region::Rom, Purpose::Pointers) => "PTR"@,
        (Region::Rom, Purpose::Table) => "TBL"@,
    }
}

/// The name of a synthesized label: the prefix, an underscore, and the
/// address in at least six hexadecimal digits.
pub open spec fn name_of(prefix: Seq<char>, address: u64) -> Seq<char> {
    prefix + "_"@ + hex_upper(address as nat, 6)
}

/// A synthesized label.
pub open spec fn synthesized(prefix: Seq<char>, address: u64, label_type: LabelType) -> LabelView {
    LabelView { address, name: name_of(prefix, address), label_type, assigned: false }
}

/// The label for the address `a` by its region, if the region has one.
pub open spec fn region_label(a: u64, purpose: Purpose, label_type: LabelType) -> Option<
    LabelView,
> {
    match region_of(a) {
        Some((address, region)) => Some(
            synthesized(prefix_of(region, purpose), address, label_type),
        ),
        None => None,
    }
}

/// The label for the address `a` that an instruction reads, writes or
/// jumps to. `PEA` outside RAM and the hardware registers pushes a return
/// address: the label is a subroutine one byte further on.
pub open spec fn operand_label(a: u64, pushes: bool) -> Option<LabelView> {
    match region_of(a) {
        Some((address, region)) => if pushes && region == Region::Rom {
            Some(synthesized("SUB"@, wrap24(a + 1), LabelType::Subroutine))
        } else {
            Some(synthesized(prefix_of(region, Purpose::Plain), address, LabelType::Data))
        },
        None => None,
    }
}

/// The label an instruction asks for, given the override in force at its
/// address.
pub open spec fn code_label(c: CodeView, ov: Option<OverrideView>) -> Option<LabelView> {
    match c.arg {
        ArgType::Address(arg) => {
            if c.opcode.name == Mnemonic::JSR && c.opcode.addr_mode == AddrMode::Absolute {
                Some(
                    synthesized(
                        "SUB"@,
                        (c.address & 0xFF_0000) | (arg & 0xFFFF),
                        LabelType::Subroutine,
                    ),
                )
            } else if c.opcode.name == Mnemonic::JSL {
                Some(synthesized("SUBL"@, arg, LabelType::Subroutine))
            } else {
                match c.opcode.addr_mode {
                    AddrMode::AbsoluteIndexedIndirect => region_label(
                        in_bank(c.db as u64, arg),
                        Purpose::Pointers,
                        LabelType::PointerTable(0),
                    ),
                    AddrMode::AbsoluteIndexedX | AddrMode::AbsoluteIndexedY => if (arg & 0xFFFF)
                        >= 0x100 {
                        region_label(
                            in_bank(c.db as u64, arg),
                            Purpose::Table,
                            LabelType::DataTable(0),
                        )
                    } else {
                        None
                    },
                    AddrMode::AbsoluteIndexedLong => if (arg & 0xFFFF) >= 0x100 {
                        region_label(arg, Purpose::Table, LabelType::DataTable(0))
                    } else {
                        None
                    },
                    AddrMode::Immediate => match ov {
                        Some(o) => if o.kind == Some("Pointer"@) {
                            Some(
                                synthesized(
                                    "IMM"@,
                                    near_target(o.db, c.address, arg),
                                    LabelType::DataTable(0),
                                ),
                            )
                        } else {
                            None
                        },
                        None => None,
                    },
                    AddrMode::Relative => Some(
                        synthesized(
                            "BRA"@,
                            branch_target(c.address, arg, false),
                            LabelType::Branch,
                        ),
                    ),
                    AddrMode::Absolute => operand_label(
                        in_bank(c.db as u64, arg),
                        c.opcode.name == Mnemonic::PEA,
                    ),
                    AddrMode::AbsoluteLong => operand_label(arg, c.opcode.name == Mnemonic::PEA),
                    _ => None,
                }
            }
        },
        _ => None,
    }
}

/// `m` with `l` filed under its address, unless a label is there already.
pub open spec fn put_new(m: Map<u64, LabelView>, l: LabelView) -> Map<u64, LabelView> {
    if m.contains_key(l.address) {
        m
    } else {
        m.insert(l.address, l)
    }
}

/// Whether `m` has a label at the address `a`.
pub open spec fn labelled(m: Map<u64, LabelView>, a: int) -> bool {
    0 <= a <= u64::MAX && m.contains_key(a as u64)
}

/// Whether `m` has a label one or two bytes to either side of `a`.
pub open spec fn crowded(m: Map<u64, LabelView>, a: u64) -> bool {
    labelled(m, a - 1) || labelled(m, a + 1) || labelled(m, a - 2) || labelled(m, a + 2)
}

/// `m` after the synthesized label `l` was offered to it: a table label
/// enters only where no label stands within two bytes of it, any other
/// label where none stands at its address.
pub open spec fn offered(m: Map<u64, LabelView>, l: LabelView) -> Map<u64, LabelView> {
    if (l.label_type is DataTable || l.label_type is PointerTable) && crowded(m, l.address) {
        m
    } else {
        put_new(m, l)
    }
}

/// `m` with the label at `a`, if there is one, marked as written.
pub open spec fn assigned_at(m: Map<u64, LabelView>, a: u64) -> Map<u64, LabelView> {
    if m.contains_key(a) {
        m.insert(
            a,
            LabelView {
                address: m[a].address,
                name: m[a].name,
                label_type: m[a].label_type,
                assigned: true,
            },
        )
    } else {
        m
    }
}

/// Two maps hold labels of the same names and types at the same addresses;
/// only which of them are marked as written may differ.
pub open spec fn same_labels(a: Map<u64, LabelView>, b: Map<u64, LabelView>) -> bool {
    forall|k: u64|
        a.contains_key(k) == b.contains_key(k) && (a.contains_key(k) ==> (#[trigger] a[k]).name
            == b[k].name && a[k].label_type == b[k].label_type && a[k].address == b[k].address)
}

/// The type that the configuration's name for it stands for; `Data` where
/// it gives none.
pub open spec fn type_named(kind: Option<Seq<char>>, length: Option<u64>) -> LabelType {
    let n = match length {
        Some(n) => n,
        None => 0,
    };
    match kind {
        None => LabelType::Data,
        Some(k) => if k == "Subroutine"@ {
            LabelType::Subroutine
        } else if k == "Branch"@ {
            LabelType::Branch
        } else if k == "DataTable"@ {
            LabelType::DataTable(n)
        } else if k == "PointerTable"@ {
            LabelType::PointerTable(n)
        } else if k == "Data"@ {
            LabelType::Data
        } else if k == "Blocked"@ {
            LabelType::Blocked
        } else {
            LabelType::Undefined
        },
    }
}

/// The label that an entry of the configuration gives.
pub open spec fn known_label(e: LabelEntryView) -> LabelView {
    LabelView {
        address: e.addr,
        name: e.name,
        label_type: type_named(e.kind, e.length),
        assigned: false,
    }
}

/// `m` after the first `n` labels of the configuration were put in.
pub open spec fn seeded(known: Seq<LabelEntryView>, n: int, m: Map<u64, LabelView>) -> Map<
    u64,
    LabelView,
>
    decreases n,
{
    if n <= 0 || n > known.len() {
        m
    } else {
        put_new(seeded(known, n - 1, m), known_label(known[n - 1]))
    }
}

/// `m` after the value at position `i` of a data line was looked at: a
/// pointer gets a subroutine label where it points.
pub open spec fn after_value(cfg: ConfigView, d: DataView, i: int, m: Map<u64, LabelView>) -> Map<
    u64,
    LabelView,
> {
    match reading_of(cfg, d.data[i], d.pc_of(i), d.offset_of(i)) {
        Reading::Pointer(t) => put_new(m, synthesized("SUB"@, t, LabelType::Subroutine)),
        _ => m,
    }
}

/// `m` after the first `n` values of a data line were looked at.
pub open spec fn after_values(cfg: ConfigView, d: DataView, n: int, m: Map<u64, LabelView>) -> Map<
    u64,
    LabelView,
>
    decreases n,
{
    if n <= 0 || n > d.data.len() {
        m
    } else {
        after_value(cfg, d, n - 1, after_values(cfg, d, n - 1, m))
    }
}

/// `m` after one line was looked at.
pub open spec fn after_line(cfg: ConfigView, line: LineView, m: Map<u64, LabelView>) -> Map<
    u64,
    LabelView,
> {
    match line {
        LineView::Code(c) => match code_label(c, cfg.override_at(c.address)) {
            Some(l) => offered(m, l),
            None => m,
        },
        LineView::Data(d) => after_values(cfg, d, d.data.len() as int, m),
        LineView::Comment(_) => m,
    }
}

/// `m` after the first `n` of `lines` were looked at.
pub open spec fn after_lines(
    cfg: ConfigView,
    lines: Seq<LineView>,
    n: int,
    m: Map<u64, LabelView>,
) -> Map<u64, LabelView>
    decreases n,
{
    if n <= 0 || n > lines.len() {
        m
    } else {
        after_line(cfg, lines[n - 1], after_lines(cfg, lines, n - 1, m))
    }
}

/// `m` after the lines at the first `n` of `keys` were looked at.
pub open spec fn after_entries(
    cfg: ConfigView,
    lines: Map<u64, Seq<LineView>>,
    keys: Seq<u64>,
    n: int,
    m: Map<u64, LabelView>,
) -> Map<u64, LabelView>
    decreases n,
{
    if n <= 0 || n > keys.len() {
        m
    } else {
        let before = after_entries(cfg, lines, keys, n - 1, m);
        after_lines(cfg, lines[keys[n - 1]], lines[keys[n - 1]].len() as int, before)
    }
}

/// The labels of a trace: those of the configuration first, then what each
/// line asks for, from the lowest address to the highest and at one address
/// in the order of the lines. A label never displaces one that is there.
pub open spec fn generated(
    cfg: ConfigView,
    lines: Map<u64, Seq<LineView>>,
    m: Map<u64, LabelView>,
) -> Map<u64, LabelView> {
    let keys = in_order(lines.dom());
    after_entries(
        cfg,
        lines,
        keys,
        keys.len() as int,
        seeded(cfg.labels, cfg.labels.len() as int, m),
    )
}

/// The address that an instruction with an absolute operand reads, writes
/// or jumps to: the operand itself where it is long, else the operand in
/// the data bank.
pub open spec fn accessed(c: CodeView) -> u64 {
    match c.arg {
        ArgType::Address(arg) => if c.opcode.addr_mode == AddrMode::AbsoluteLong {
            arg
        } else {
            in_bank(c.db as u64, arg)
        },
        _ => 0,
    }
}

/// Whether the address of the label that an instruction asks for left the
/// 24-bit address space and was wrapped around: the target of a branch, or
/// the return address that `PEA` pushes.
pub open spec fn label_wraps(c: CodeView) -> bool {
    match c.arg {
        ArgType::Address(arg) => if (c.opcode.name == Mnemonic::JSR && c.opcode.addr_mode
            == AddrMode::Absolute) || c.opcode.name == Mnemonic::JSL {
            false
        } else {
            match c.opcode.addr_mode {
                AddrMode::Relative => branch_wraps(c.address, arg, false),
                AddrMode::Absolute | AddrMode::AbsoluteLong => c.opcode.name == Mnemonic::PEA
                    && region_of(accessed(c)) == Some((accessed(c), Region::Rom)) && accessed(c)
                    + 1 >= 0x100_0000,
                _ => false,
            }
        },
        _ => false,
    }
}

/// The type of a label that an instruction asks for follows from the
/// instruction: a call asks for a subroutine, a jump through a table for a
/// table of pointers, an indexed access and an immediate pointer for a
/// table of data, a branch for a branch, and any other access for data, or
/// for a subroutine one byte further on where `PEA` pushes an address
/// outside RAM and the hardware registers. Such a label is not marked as
/// written.
pub proof fn lemma_label_type(c: CodeView, ov: Option<OverrideView>)
    ensures
        match code_label(c, ov) {
            Some(l) => !l.assigned && l.label_type == (if (c.opcode.name == Mnemonic::JSR
                && c.opcode.addr_mode == AddrMode::Absolute) || c.opcode.name == Mnemonic::JSL {
                LabelType::Subroutine
            } else {
                match c.opcode.addr_mode {
                    AddrMode::AbsoluteIndexedIndirect => LabelType::PointerTable(0),
                    AddrMode::AbsoluteIndexedX
                    | AddrMode::AbsoluteIndexedY
                    | AddrMode::AbsoluteIndexedLong
                    | AddrMode::Immediate => LabelType::DataTable(0),
                    AddrMode::Relative => LabelType::Branch,
                    _ => if c.opcode.name == Mnemonic::PEA && region_of(accessed(c)) == Some(
                        (accessed(c), Region::Rom),
                    ) {
                        LabelType::Subroutine
                    } else {
                        LabelType::Data
                    },
                }
            }),
            None => true,
        },
{
}

/// An instruction with an absolute operand between 0x2000 and 0x7FFF and
/// a data bank below 0x40 or from 0x80 on, that is no call, asks for a
/// label of a hardware register, and the label stands at the operand
/// without a bank.
pub proof fn lemma_hardware_label(c: CodeView, ov: Option<OverrideView>, arg: u64)
    requires
        c.arg == ArgType::Address(arg),
        c.opcode.addr_mode == AddrMode::Absolute,
        c.opcode.name != Mnemonic::JSR,
        c.opcode.name != Mnemonic::JSL,
        0x2000 <= (arg & 0xFFFF) <= 0x7FFF,
        c.db < 0x40 || c.db >= 0x80,
    ensures
        code_label(c, ov) == Some(
            synthesized("HWREG"@, (arg & 0xFFFF) as u64, LabelType::Data),
        ),
{
    let db = c.db as u64;
    let a = in_bank(db, arg);
    assert(a >> 16 == db && a & 0xFFFF == arg & 0xFFFF) by (bit_vector)
        requires
            a == (db << 16) | (arg & 0xFFFF),
            db < 0x100,
    ;
}

/// Labels that differ from labels filed under their own addresses only in
/// which of them are marked as written are filed so too.
pub proof fn lemma_same_labels_keyed(a: Map<u64, LabelView>, b: Map<u64, LabelView>)
    requires
        same_labels(a, b),
        keyed(b),
    ensures
        keyed(a),
{
    assert forall|k: u64| a.contains_key(k) implies (#[trigger] a[k]).address == k by {
        assert(b.contains_key(k));
        assert(b[k].address == k);
    }
}

/// A label that is put in is filed under its own address.
pub proof fn lemma_put_new_keyed(m: Map<u64, LabelView>, l: LabelView)
    requires
        keyed(m),
    ensures
        keyed(put_new(m, l)),
{
}

/// The labels of the configuration are filed under their own addresses.
pub proof fn lemma_seeded_keyed(known: Seq<LabelEntryView>, n: int, m: Map<u64, LabelView>)
    requires
        keyed(m),
    ensures
        keyed(seeded(known, n, m)),
    decreases n,
{
    if n <= 0 || n > known.len() {
    } else {
        lemma_seeded_keyed(known, n - 1, m);
    }
}

/// The labels that data asks for are filed under their own addresses.
pub proof fn lemma_after_values_keyed(cfg: ConfigView, d: DataView, n: int, m: Map<u64, LabelView>)
    requires
        keyed(m),
    ensures
        keyed(after_values(cfg, d, n, m)),
    decreases n,
{
    if n <= 0 || n > d.data.len() {
    } else {
        lemma_after_values_keyed(cfg, d, n - 1, m);
    }
}

/// The label that a line asks for is filed under its own address.
pub proof fn lemma_after_line_keyed(cfg: ConfigView, line: LineView, m: Map<u64, LabelView>)
    requires
        keyed(m),
    ensures
        keyed(after_line(cfg, line, m)),
{
    match line {
        LineView::Data(d) => {
            lemma_after_values_keyed(cfg, d, d.data.len() as int, m);
        },
        _ => {},
    }
}

/// The labels that lines ask for are filed under their own addresses.
pub proof fn lemma_after_lines_keyed(
    cfg: ConfigView,
    lines: Seq<LineView>,
    n: int,
    m: Map<u64, LabelView>,
)
    requires
        keyed(m),
    ensures
        keyed(after_lines(cfg, lines, n, m)),
    decreases n,
{
    if n <= 0 || n > lines.len() {
    } else {
        lemma_after_lines_keyed(cfg, lines, n - 1, m);
        lemma_after_line_keyed(cfg, lines[n - 1], after_lines(cfg, lines, n - 1, m));
    }
}

/// The labels that the lines of a map ask for are filed under their own
/// addresses.
pub proof fn lemma_after_entries_keyed(
    cfg: ConfigView,
    lines: Map<u64, Seq<LineView>>,
    keys: Seq<u64>,
    n: int,
    m: Map<u64, LabelView>,
)
    requires
        keyed(m),
    ensures
        keyed(after_entries(cfg, lines, keys, n, m)),
    decreases n,
{
    if n <= 0 || n > keys.len() {
    } else {
        lemma_after_entries_keyed(cfg, lines, keys, n - 1, m);
        lemma_after_lines_keyed(
            cfg,
            lines[keys[n - 1]],
            lines[keys[n - 1]].len() as int,
            after_entries(cfg, lines, keys, n - 1, m),
        );
    }
}

/// No two labels share an address: where every label is filed under its
/// own address, it is so after the labels of a trace were added, and a
/// label that was there is there unchanged.
pub proof fn lemma_generated_keyed(
    cfg: ConfigView,
    lines: Map<u64, Seq<LineView>>,
    m: Map<u64, LabelView>,
)
    requires
        keyed(m),
    ensures
        keyed(generated(cfg, lines, m)),
{
    let keys = in_order(lines.dom());
    let seeds = seeded(cfg.labels, cfg.labels.len() as int, m);
    lemma_seeded_keyed(cfg.labels, cfg.labels.len() as int, m);
    lemma_after_entries_keyed(cfg, lines, keys, keys.len() as int, seeds);
}

/// Computes `region_of`.
pub fn classify(a: u64) -> (r: Option<(u64, Region)>)
    ensures
        r == region_of(a),
{
    let bank: u64 = a >> 16;
    let low: u64 = a & 0xFFFF;
    let work: bool = bank == 0x7E || bank == 0x7F;
    if !work && low < 0x100 {
        None
    } else if !work && low < 0x2000 {
        Some((0x7E_0000 | low, Region::LowRam))
    } else if (bank < 0x40 || bank >= 0x80) && 0x2000 <= low && low < 0x8000 {
        Some((low, Region::Hardware))
    } else if work {
        Some((a, Region::WorkRam))
    } else if 0x70 <= bank && bank <= 0x7D {
        Some((a, Region::SaveRam))
    } else {
        Some((a, Region::Rom))
    }
}

/// The text of `prefix_of`.
pub fn prefix_str(region: Region, purpose: Purpose) -> (r: &'static str)
    ensures
        r@ == prefix_of(region, purpose),
{
    match (region, purpose) {
        (Region::LowRam, Purpose::Plain) => "LORAM",
        (Region::LowRam, Purpose::Pointers) => "LORAM_PTR",
        (Region::LowRam, Purpose::Table) => "LORAM_TBL",
        (Region::Hardware, Purpose::Plain) => "HWREG",
        (Region::Hardware, Purpose::Pointers) => "HW_PTR",
        (Region::Hardware, Purpose::Table) => "HW_TBL",
        (Region::WorkRam, Purpose::Plain) => "WRAM",
        (Region::WorkRam, Purpose::Pointers) => "WRAM_PTR",
        (Region::WorkRam, Purpose::Table) => "WRAM_TBL",
        (Region::SaveRam, Purpose::Plain) => "SRAM",
        (Region::SaveRam, Purpose::Pointers) => "SRAM_PTR",
        (Region::SaveRam, Purpose::Table) => "SRAM_TBL",
        (Region::Rom, Purpose::Plain) => "DAT",
        (Region::Rom, Purpose::Pointers) => "PTR",
        (Region::Rom, Purpose::Table) => "TBL",
    }
}

impl Label {
    /// A label that has not been written anywhere yet, named by `prefix`
    /// and its address.
    pub fn synthesize(prefix: &str, address: u64, label_type: LabelType) -> (r: Label)
        ensures
            r@ == synthesized(prefix@, address, label_type),
    {
        let mut name = String::from_str(prefix);
        name.append("_");
        push_hex(&mut name, address, 6);
        Label { address, name, label_type, assigned: false }
    }

    /// The label for the address `a` by its region.
    pub fn for_region(a: u64, purpose: Purpose, label_type: LabelType) -> (r: Option<Label>)
        ensures
            opt_label(r) == region_label(a, purpose, label_type),
    {
        match classify(a) {
            Some((address, region)) => Some(
                Label::synthesize(prefix_str(region, purpose), address, label_type),
            ),
            None => None,
        }
    }

    /// The label for the address `a` that an instruction reads, writes or
    /// jumps to.
    pub fn for_operand(a: u64, pushes: bool) -> (r: Option<Label>)
        ensures
            opt_label(r) == operand_label(a, pushes),
    {
        match classify(a) {
            Some((address, region)) => {
                if pushes && region == Region::Rom {
                    Some(Label::synthesize("SUB", advance(a, 1), LabelType::Subroutine))
                } else {
                    Some(
                        Label::synthesize(
                            prefix_str(region, Purpose::Plain),
                            address,
                            LabelType::Data,
                        ),
                    )
                }
            },
            None => None,
        }
    }

    /// The label that the instruction `c` asks for.
    pub fn for_code(c: &Code, config: &Config) -> (r: Option<Label>)
        ensures
            opt_label(r) == code_label(c@, config@.override_at(c.address)),
    {
        let arg: u64 = match c.arg {
            ArgType::Address(arg) => arg,
            _ => {
                return None;
            },
        };
        let bank: u64 = c.db as u64;
        if c.opcode.name == Mnemonic::JSR && c.opcode.addr_mode == AddrMode::Absolute {
            return Some(
                Label::synthesize(
                    "SUB",
                    (c.address & 0xFF_0000) | (arg & 0xFFFF),
                    LabelType::Subroutine,
                ),
            );
        }
        if c.opcode.name == Mnemonic::JSL {
            return Some(Label::synthesize("SUBL", arg, LabelType::Subroutine));
        }
        match c.opcode.addr_mode {
            AddrMode::AbsoluteIndexedIndirect => Label::for_region(
                (bank << 16) | (arg & 0xFFFF),
                Purpose::Pointers,
                LabelType::PointerTable(0),
            ),
            AddrMode::AbsoluteIndexedX | AddrMode::AbsoluteIndexedY => {
                if (arg & 0xFFFF) >= 0x100 {
                    Label::for_region(
                        (bank << 16) | (arg & 0xFFFF),
                        Purpose::Table,
                        LabelType::DataTable(0),
                    )
                } else {
                    None
                }
            },
            AddrMode::AbsoluteIndexedLong => {
                if (arg & 0xFFFF) >= 0x100 {
                    Label::for_region(arg, Purpose::Table, LabelType::DataTable(0))
                } else {
                    None
                }
            },
            AddrMode::Immediate => {
                match config.get_override(c.address) {
                    Some(o) => {
                        let pointer: bool = match &o._type {
                            Some(k) => same_text(k.as_str(), "Pointer"),
                            None => false,
                        };
                        if pointer {
                            Some(
                                Label::synthesize(
                                    "IMM",
                                    near(o.db, c.address, arg),
                                    LabelType::DataTable(0),
                                ),
                            )
                        } else {
                            None
                        }
                    },
                    None => None,
                }
            },
            AddrMode::Relative => Some(
                Label::synthesize("BRA", resolve_branch(c.address, arg, false), LabelType::Branch),
            ),
            AddrMode::Absolute => Label::for_operand(
                (bank << 16) | (arg & 0xFFFF),
                c.opcode.name == Mnemonic::PEA,
            ),
            AddrMode::AbsoluteLong => Label::for_operand(arg, c.opcode.name == Mnemonic::PEA),
            _ => None,
        }
    }

    /// Whether the address of the label that the instruction `c` asks for
    /// was wrapped around.
    pub fn wraps(c: &Code) -> (r: bool)
        ensures
            r == label_wraps(c@),
    {
        let arg: u64 = match c.arg {
            ArgType::Address(arg) => arg,
            _ => {
                return false;
            },
        };
        if (c.opcode.name == Mnemonic::JSR && c.opcode.addr_mode == AddrMode::Absolute)
            || c.opcode.name == Mnemonic::JSL {
            return false;
        }
        match c.opcode.addr_mode {
            AddrMode::Relative => is_wrapping_branch(c.address, arg, false),
            AddrMode::Absolute | AddrMode::AbsoluteLong => {
                let a: u64 = if c.opcode.addr_mode == AddrMode::AbsoluteLong {
                    arg
                } else {
                    ((c.db as u64) << 16) | (arg & 0xFFFF)
                };
                let rom: bool = match classify(a) {
                    Some((_, region)) => region == Region::Rom,
                    None => false,
                };
                c.opcode.name == Mnemonic::PEA && rom && a >= 0xFF_FFFF
            },
            _ => false,
        }
    }

    /// The label that an entry of the configuration gives.
    pub fn from_config(e: &crate::config::Label) -> (r: Label)
        ensures
            r@ == known_label(e@),
    {
        let n: u64 = match e.length {
            Some(n) => n,
            None => 0,
        };
        let label_type = match &e.label_type {
            None => LabelType::Data,
            Some(k) => {
                if same_text(k.as_str(), "Subroutine") {
                    LabelType::Subroutine
                } else if same_text(k.as_str(), "Branch") {
                    LabelType::Branch
                } else if same_text(k.as_str(), "DataTable") {
                    LabelType::DataTable(n)
                } else if same_text(k.as_str(), "PointerTable") {
                    LabelType::PointerTable(n)
                } else if same_text(k.as_str(), "Data") {
                    LabelType::Data
                } else if same_text(k.as_str(), "Blocked") {
                    LabelType::Blocked
                } else {
                    LabelType::Undefined
                }
            },
        };
        Label { address: e.addr, name: e.name.clone(), label_type, assigned: false }
    }
}

/// The view of a label that may be missing.
pub open spec fn opt_label(l: Option<Label>) -> Option<LabelView> {
    match l {
        Some(l) => Some(l@),
        None => None,
    }
}

/// Files `l` under its address unless a label is there already.
pub fn insert_new(labels: &mut HashMap<u64, Label>, l: Label)
    ensures
        label_map(final(labels)@) == put_new(label_map(old(labels)@), l@),
{
    if !labels.contains_key(&l.address) {
        let ghost v = l@;
        labels.insert(l.address, l);
        assert(label_map(labels@) =~= put_new(label_map(old(labels)@), v));
    } else {
        assert(label_map(labels@) =~= put_new(label_map(old(labels)@), l@));
    }
}

/// Marks the label at `a`, if there is one, as written, and hands out its
/// name.
pub fn mark_assigned(labels: &mut HashMap<u64, Label>, a: u64) -> (r: Option<String>)
    ensures
        label_map(final(labels)@) == assigned_at(label_map(old(labels)@), a),
        match r {
            Some(name) => old(labels)@.contains_key(a) && name@ == old(labels)@[a].name@,
            None => !old(labels)@.contains_key(a),
        },
{
    let marked = match labels.get(&a) {
        Some(l) => Label {
            address: l.address,
            name: l.name.clone(),
            label_type: l.label_type,
            assigned: true,
        },
        None => {
            assert(label_map(labels@) =~= assigned_at(label_map(old(labels)@), a));
            return None;
        },
    };
    let name = marked.name.clone();
    let ghost v = marked@;
    labels.insert(a, marked);
    assert(label_map(labels@) =~= label_map(old(labels)@).insert(a, v));
    Some(name)
}

/// The addresses that have a label, each once, in the order in which the
/// map hands them out.
pub fn label_addresses(labels: &HashMap<u64, Label>) -> (r: Vec<u64>)
    ensures
        r@.no_duplicates(),
        r@.to_set() == labels@.dom(),
{
    let mut out: Vec<u64> = Vec::new();
    for k in it: labels.keys()
        invariant
            out@.len() == it.index(),
            forall|j: int| 0 <= j < out@.len() ==> out@[j] == *it.seq()[j],
    {
        out.push(*k);
    }
    proof {
        let keys = vstd::std_specs::hash::spec_keys_iter(labels).remaining();
        assert(out@ =~= keys.unref());
        assert forall|i: int, j: int| 0 <= i < j < out@.len() implies out@[i] != out@[j] by {
            assert(keys[i] != keys[j]);
        }
    }
    out
}

/// Whether a label stands one or two bytes to either side of `a`.
pub fn is_crowded(labels: &HashMap<u64, Label>, a: u64) -> (r: bool)
    ensures
        r == crowded(label_map(labels@), a),
{
    (a >= 1 && labels.contains_key(&(a - 1))) || (a <= u64::MAX - 1 && labels.contains_key(
        &(a + 1),
    )) || (a >= 2 && labels.contains_key(&(a - 2))) || (a <= u64::MAX - 2
        && labels.contains_key(&(a + 2)))
}

/// Offers the synthesized label `l` to the map.
pub fn offer(labels: &mut HashMap<u64, Label>, l: Label)
    ensures
        label_map(final(labels)@) == offered(label_map(old(labels)@), l@),
{
    let table: bool = match l.label_type {
        LabelType::DataTable(_) => true,
        LabelType::PointerTable(_) => true,
        _ => false,
    };
    if table && is_crowded(labels, l.address) {
    } else {
        insert_new(labels, l);
    }
}

/// Puts in a subroutine label wherever a value of the data line is a
/// pointer.
pub fn scan_data(d: &Data, config: &Config, labels: &mut HashMap<u64, Label>)
    ensures
        label_map(final(labels)@) == after_values(
            config@,
            d@,
            d@.data.len() as int,
            label_map(old(labels)@),
        ),
{
    let mut pc: u64 = d.address;
    let mut offset: u128 = 0;
    let mut i: usize = 0;
    while i < d.data.len()
        invariant
            i <= d.data.len(),
            pc == d@.pc_of(i as int),
            offset == d@.offset_of(i as int),
            offset <= 3 * i,
            label_map(labels@) == after_values(config@, d@, i as int, label_map(old(labels)@)),
        decreases d.data.len() - i,
    {
        let v: DataVal = d.data[i];
        match read_value(config, v, pc, offset) {
            Reading::Pointer(t) => {
                insert_new(labels, Label::synthesize("SUB", t, LabelType::Subroutine));
            },
            _ => {},
        }
        pc = advance(pc, v.len());
        offset = offset + (v.len() as u128);
        i = i + 1;
    }
}

/// Looks at one line.
pub fn scan_line(line: &Line, config: &Config, labels: &mut HashMap<u64, Label>)
    ensures
        label_map(final(labels)@) == after_line(config@, line@, label_map(old(labels)@)),
{
    match line {
        Line::Code(c) => {
            match Label::for_code(c, config) {
                Some(l) => {
                    offer(labels, l);
                },
                None => {},
            }
        },
        Line::Data(d) => {
            scan_data(d, config, labels);
        },
        Line::Comment(_) => {},
    }
}

/// Fills `labels` with the labels of a trace: those of the configuration,
/// then those that the lines ask for.
pub fn generate_labels(
    lines: &BTreeMap<u64, Vec<Line>>,
    config: &Config,
    labels: &mut HashMap<u64, Label>,
)
    ensures
        label_map(final(labels)@) == generated(config@, line_map(lines@), label_map(old(labels)@)),
        keyed(label_map(old(labels)@)) ==> keyed(label_map(final(labels)@)),
{
    proof {
        if keyed(label_map(labels@)) {
            lemma_generated_keyed(config@, line_map(lines@), label_map(labels@));
        }
    }
    let mut i: usize = 0;
    while i < config.labels.len()
        invariant
            i <= config.labels.len(),
            label_map(labels@) == seeded(config@.labels, i as int, label_map(old(labels)@)),
        decreases config.labels.len() - i,
    {
        let l = Label::from_config(&config.labels[i]);
        assert(config@.labels[i as int] == config.labels[i as int]@);
        insert_new(labels, l);
        i = i + 1;
    }
    let ghost seeds = label_map(labels@);
    let keys = keys_in_order(lines);
    let mut k: usize = 0;
    while k < keys.len()
        invariant
            k <= keys.len(),
            keys@ == in_order(lines@.dom()),
            lists_in_order(keys@, lines@.dom()),
            label_map(labels@) == after_entries(
                config@,
                line_map(lines@),
                keys@,
                k as int,
                seeds,
            ),
        decreases keys.len() - k,
    {
        assert(keys@.contains(keys@[k as int]));
        assert(lines@.dom().contains(keys@[k as int]));
        let group = entry_at(lines, keys[k]);
        match group {
            Some(group) => {
                let ghost before = label_map(labels@);
                let mut j: usize = 0;
                while j < group.len()
                    invariant
                        j <= group.len(),
                        label_map(labels@) == after_lines(
                            config@,
                            line_views(group@),
                            j as int,
                            before,
                        ),
                    decreases group.len() - j,
                {
                    scan_line(&group[j], config, labels);
                    j = j + 1;
                }
                assert(line_map(lines@)[keys@[k as int]] == line_views(group@));
            },
            None => {
                assert(false);
            },
        }
        k = k + 1;
    }
    assert(line_map(lines@).dom() =~= lines@.dom());
}

} // verus!
