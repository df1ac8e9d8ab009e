//! The configuration: known labels, address overrides and structure layouts.

use vstd::prelude::*;
use vstd::string::*;
use crate::text::to_chars;

verus! {

/// One field of a structure layout.
#[derive(Debug, Clone, PartialEq)]
pub struct StructField {
    pub name: String,
    pub offset: u64,
    pub length: u64,
    pub _type: String,
    pub db: Option<u64>,
}

/// A structure layout: named fields at byte offsets.
#[derive(Debug, Clone, PartialEq)]
pub struct Struct {
    pub name: String,
    pub fields: Vec<StructField>,
}

/// A label given by the configuration.
#[derive(Debug, Clone, PartialEq)]
pub struct Label {
    pub addr: u64,
    pub name: String,
    pub label_type: Option<String>,
    pub length: Option<u64>,
}

/// The addresses an override applies to: one address, or a range with both
/// ends included.
#[derive(Debug, Clone, Copy, PartialEq, Eq, Structural)]
pub enum OverrideAddr {
    Address(u64),
    Range(u64, u64),
}

/// What the configuration says of the bytes at some addresses.
#[derive(Debug, Clone, PartialEq)]
pub struct Override {
    pub addr: OverrideAddr,
    pub db: Option<u64>,
    pub _type: Option<String>,
    pub _struct: Option<String>,
    pub opcode: Option<Vec<u64>>,
}

/// All that the configuration files hold.
#[derive(Debug, Clone, PartialEq)]
pub struct Config {
    pub labels: Vec<Label>,
    pub overrides: Vec<Override>,
    pub structs: Vec<Struct>,
}

/// A field as contracts see it.
pub struct StructFieldView {
    pub name: Seq<char>,
    pub offset: u64,
    pub length: u64,
    pub kind: Seq<char>,
    pub db: Option<u64>,
}

/// A layout as contracts see it.
pub struct StructView {
    pub name: Seq<char>,
    pub fields: Seq<StructFieldView>,
}

/// A label of the configuration as contracts see it.
pub struct LabelEntryView {
    pub addr: u64,
    pub name: Seq<char>,
    pub kind: Option<Seq<char>>,
    pub length: Option<u64>,
}

/// An override as contracts see it.
pub struct OverrideView {
    pub addr: OverrideAddr,
    pub db: Option<u64>,
    pub kind: Option<Seq<char>>,
    pub struct_name: Option<Seq<char>>,
    pub opcode: Option<Seq<u64>>,
}

/// The configuration as contracts see it.
pub struct ConfigView {
    pub labels: Seq<LabelEntryView>,
    pub overrides: Seq<OverrideView>,
    pub structs: Seq<StructView>,
}

/// The characters of an optional string.
pub open spec fn opt_text(s: Option<String>) -> Option<Seq<char>> {
    match s {
        Some(t) => Some(t@),
        None => None,
    }
}

impl View for StructField {
    type V = StructFieldView;

    open spec fn view(&self) -> StructFieldView {
        StructFieldView {
            name: self.name@,
            offset: self.offset,
            length: self.length,
            kind: self._type@,
            db: self.db,
        }
    }
}

impl View for Struct {
    type V = StructView;

    open spec fn view(&self) -> StructView {
        StructView { name: self.name@, fields: self.fields@.map_values(|f: StructField| f@) }
    }
}

impl View for Label {
    type V = LabelEntryView;

    open spec fn view(&self) -> LabelEntryView {
        LabelEntryView {
            addr: self.addr,
            name: self.name@,
            kind: opt_text(self.label_type),
            length: self.length,
        }
    }
}

impl View for Override {
    type V = OverrideView;

    open spec fn view(&self) -> OverrideView {
        OverrideView {
            addr: self.addr,
            db: self.db,
            kind: opt_text(self._type),
            struct_name: opt_text(self._struct),
            opcode: match self.opcode {
                Some(v) => Some(v@),
                None => None,
            },
        }
    }
}

/// The views of a list of overrides.
pub open spec fn override_views(s: Seq<Override>) -> Seq<OverrideView> {
    s.map_values(|o: Override| o@)
}

/// The views of a list of labels.
pub open spec fn label_views(s: Seq<Label>) -> Seq<LabelEntryView> {
    s.map_values(|l: Label| l@)
}

/// The views of a list of structure layouts.
pub open spec fn struct_views(s: Seq<Struct>) -> Seq<StructView> {
    s.map_values(|t: Struct| t@)
}

impl View for Config {
    type V = ConfigView;

    open spec fn view(&self) -> ConfigView {
        ConfigView {
            labels: label_views(self.labels@),
            overrides: override_views(self.overrides@),
            structs: struct_views(self.structs@),
        }
    }
}

impl OverrideAddr {
    /// Whether `pc` is one of the addresses.
    pub open spec fn covers(self, pc: u64) -> bool {
        match self {
            OverrideAddr::Address(a) => a == pc,
            OverrideAddr::Range(lo, hi) => lo <= pc <= hi,
        }
    }

    /// Computes `covers`.
    pub fn contains(&self, pc: u64) -> (r: bool)
        ensures
            r == self.covers(pc),
    {
        match self {
            OverrideAddr::Address(a) => *a == pc,
            OverrideAddr::Range(lo, hi) => *lo <= pc && pc <= *hi,
        }
    }
}

/// The position of the first override at or after `from` that covers `pc`.
pub open spec fn find_override(ovs: Seq<OverrideView>, pc: u64, from: int) -> Option<int>
    decreases ovs.len() - from,
{
    if from < 0 || from >= ovs.len() {
        None
    } else if ovs[from].addr.covers(pc) {
        Some(from)
    } else {
        find_override(ovs, pc, from + 1)
    }
}

/// The position of the first layout at or after `from` that is called
/// `name`.
pub open spec fn find_struct(structs: Seq<StructView>, name: Seq<char>, from: int) -> Option<int>
    decreases structs.len() - from,
{
    if from < 0 || from >= structs.len() {
        None
    } else if structs[from].name == name {
        Some(from)
    } else {
        find_struct(structs, name, from + 1)
    }
}

/// The position of the first field at or after `from` that starts at
/// `offset`.
pub open spec fn find_field(fields: Seq<StructFieldView>, offset: u64, from: int) -> Option<int>
    decreases fields.len() - from,
{
    if from < 0 || from >= fields.len() {
        None
    } else if fields[from].offset == offset {
        Some(from)
    } else {
        find_field(fields, offset, from + 1)
    }
}

impl StructView {
    /// The size of one record: where the last field ends.
    pub open spec fn record_len(self) -> int {
        if self.fields.len() == 0 {
            0
        } else {
            self.fields.last().offset + self.fields.last().length
        }
    }

    /// The field that holds the byte `offset` bytes into a region of
    /// records: the first field that starts at `offset` modulo the record
    /// size. There is none when the layout has no field, when the record
    /// size is zero or exceeds 64 bits, or when no field starts there.
    pub open spec fn field_at(self, offset: nat) -> Option<StructFieldView> {
        if 0 < self.record_len() <= u64::MAX {
            match find_field(self.fields, (offset % (self.record_len() as nat)) as u64, 0) {
                Some(i) => Some(self.fields[i]),
                None => None,
            }
        } else {
            None
        }
    }
}

impl ConfigView {
    /// The override in force at `pc`: the first one, in the order of the
    /// list, that covers it.
    pub open spec fn override_at(self, pc: u64) -> Option<OverrideView> {
        match find_override(self.overrides, pc, 0) {
            Some(i) => Some(self.overrides[i]),
            None => None,
        }
    }

    /// The first layout called `name`.
    pub open spec fn struct_named(self, name: Seq<char>) -> Option<StructView> {
        match find_struct(self.structs, name, 0) {
            Some(i) => Some(self.structs[i]),
            None => None,
        }
    }
}

impl LabelEntryView {
    /// The override that a table label of more than one entry implies: two
    /// bytes per entry from the label's address on, in the label's own bank,
    /// read as pointers for a pointer table and as data for a data table.
    /// The range ends at the last address a 64-bit word can hold where the
    /// table would reach beyond it.
    pub open spec fn implied_override(self) -> Option<OverrideView> {
        match (self.kind, self.length) {
            (Some(k), Some(n)) => if n > 1 && (k == "PointerTable"@ || k == "DataTable"@) {
                Some(
                    OverrideView {
                        addr: OverrideAddr::Range(
                            self.addr,
                            if self.addr + 2 * n <= u64::MAX {
                                (self.addr + 2 * n) as u64
                            } else {
                                u64::MAX
                            },
                        ),
                        db: Some(self.addr >> 16),
                        kind: Some(
                            if k == "PointerTable"@ {
                                "Pointer"@
                            } else {
                                "Data"@
                            },
                        ),
                        struct_name: None,
                        opcode: None,
                    },
                )
            } else {
                None
            },
            _ => None,
        }
    }
}

/// The overrides that the first `n` labels imply, in the labels' order.
pub open spec fn implied_overrides(labels: Seq<LabelEntryView>, n: int) -> Seq<OverrideView>
    decreases n,
{
    if n <= 0 || n > labels.len() {
        Seq::empty()
    } else {
        match labels[n - 1].implied_override() {
            Some(o) => implied_overrides(labels, n - 1).push(o),
            None => implied_overrides(labels, n - 1),
        }
    }
}

/// Whether two strings hold the same characters.
pub fn same_text(a: &str, b: &str) -> (r: bool)
    ensures
        r == (a@ == b@),
{
    let x = to_chars(a);
    let y = to_chars(b);
    if x.len() != y.len() {
        return false;
    }
    let mut i: usize = 0;
    while i < x.len()
        invariant
            i <= x.len(),
            x.len() == y.len(),
            x@ == a@,
            y@ == b@,
            forall|j: int| 0 <= j < i ==> x@[j] == y@[j],
        decreases x.len() - i,
    {
        if x[i] != y[i] {
            assert(a@[i as int] != b@[i as int]);
            return false;
        }
        i = i + 1;
    }
    assert(x@ =~= y@);
    true
}

impl Label {
    /// The override this label implies, if it names a table of more than
    /// one entry.
    pub fn implied(&self) -> (r: Option<Override>)
        ensures
            match r {
                Some(o) => self@.implied_override() == Some(o@),
                None => self@.implied_override() is None,
            },
    {
        let n: u64 = match self.length {
            Some(n) => n,
            None => {
                return None;
            },
        };
        if n <= 1 {
            return None;
        }
        let pointer: bool = match &self.label_type {
            Some(k) => {
                if same_text(k.as_str(), "PointerTable") {
                    true
                } else if same_text(k.as_str(), "DataTable") {
                    false
                } else {
                    return None;
                }
            },
            None => {
                return None;
            },
        };
        let span: u64 = if n <= u64::MAX / 2 {
            2 * n
        } else {
            u64::MAX
        };
        let end: u64 = if self.addr <= u64::MAX - span {
            self.addr + span
        } else {
            u64::MAX
        };
        let kind: String = if pointer {
            String::from_str("Pointer")
        } else {
            String::from_str("Data")
        };
        Some(
            Override {
                addr: OverrideAddr::Range(self.addr, end),
                db: Some(self.addr >> 16),
                _type: Some(kind),
                _struct: None,
                opcode: None,
            },
        )
    }
}

impl Config {
    /// Builds the configuration from the lists read from its files: the
    /// labels and layouts as they are, and the overrides followed by those
    /// that table labels imply.
    pub fn load(labels: Vec<Label>, overrides: Vec<Override>, structs: Vec<Struct>) -> (r: Config)
        ensures
            r@.labels == label_views(labels@),
            r@.structs == struct_views(structs@),
            r@.overrides == override_views(overrides@) + implied_overrides(
                label_views(labels@),
                labels@.len() as int,
            ),
    {
        let mut all = overrides;
        let mut i: usize = 0;
        while i < labels.len()
            invariant
                i <= labels.len(),
                override_views(all@) == override_views(overrides@) + implied_overrides(
                    label_views(labels@),
                    i as int,
                ),
            decreases labels.len() - i,
        {
            let ghost before = all@;
            match labels[i].implied() {
                Some(o) => {
                    all.push(o);
                    assert(override_views(all@) =~= override_views(before).push(o@));
                },
                None => {},
            }
            i = i + 1;
        }
        Config { labels, overrides: all, structs }
    }

    /// The override in force at `addr`, if any: the first one that covers
    /// it.
    pub fn get_override(&self, addr: u64) -> (r: Option<&Override>)
        ensures
            match r {
                Some(o) => self@.override_at(addr) == Some(o@),
                None => self@.override_at(addr) is None,
            },
    {
        let mut i: usize = 0;
        while i < self.overrides.len()
            invariant
                i <= self.overrides.len(),
                find_override(self@.overrides, addr, i as int) == find_override(
                    self@.overrides,
                    addr,
                    0,
                ),
            decreases self.overrides.len() - i,
        {
            if self.overrides[i].addr.contains(addr) {
                return Some(&self.overrides[i]);
            }
            i = i + 1;
        }
        None
    }

    /// The first layout called `name`, if any.
    pub fn get_struct(&self, name: &str) -> (r: Option<&Struct>)
        ensures
            match r {
                Some(s) => self@.struct_named(name@) == Some(s@),
                None => self@.struct_named(name@) is None,
            },
    {
        let mut i: usize = 0;
        while i < self.structs.len()
            invariant
                i <= self.structs.len(),
                find_struct(self@.structs, name@, i as int) == find_struct(
                    self@.structs,
                    name@,
                    0,
                ),
            decreases self.structs.len() - i,
        {
            if same_text(self.structs[i].name.as_str(), name) {
                return Some(&self.structs[i]);
            }
            i = i + 1;
        }
        None
    }
}

impl Struct {
    /// The field that holds the byte `offset` bytes into a region of
    /// records of this layout, if any.
    pub fn field_at(&self, offset: u128) -> (r: Option<&StructField>)
        ensures
            match r {
                Some(f) => self@.field_at(offset as nat) == Some(f@),
                None => self@.field_at(offset as nat) is None,
            },
    {
        let n: usize = self.fields.len();
        if n == 0 {
            return None;
        }
        let last = &self.fields[n - 1];
        assert(self@.fields.last() == last@);
        if last.length > u64::MAX - last.offset {
            return None;
        }
        let record: u64 = last.offset + last.length;
        if record == 0 {
            return None;
        }
        let at: u64 = (offset % (record as u128)) as u64;
        assert(at == ((offset as nat) % (self@.record_len() as nat)) as u64);
        let mut i: usize = 0;
        while i < n
            invariant
                i <= n,
                n == self.fields.len(),
                0 < self@.record_len() <= u64::MAX,
                at == ((offset as nat) % (self@.record_len() as nat)) as u64,
                find_field(self@.fields, at, i as int) == find_field(self@.fields, at, 0),
            decreases n - i,
        {
            if self.fields[i].offset == at {
                assert(self@.fields[i as int] == self.fields[i as int]@);
                return Some(&self.fields[i]);
            }
            assert(self@.fields[i as int] == self.fields[i as int]@);
            i = i + 1;
        }
        None
    }
}

} // verus!
