//! Data values and data lines of a trace.

use vstd::prelude::*;
use vstd::string::*;
use crate::address::wrap24;
use std::collections::HashMap;
use crate::config::{opt_text, same_text, Config, ConfigView};
use crate::label::{assigned_at, label_map, mark_assigned, same_labels, Label, LabelView};
use crate::text::{hex_upper, push_hex};

verus! {

/// One data value: a byte, a 16-bit word or a 24-bit long.
#[derive(Debug, Clone, Copy, PartialEq, Eq, Structural)]
pub enum DataVal {
    DB(u8),
    DW(u16),
    DL(u32),
}

impl DataVal {
    /// The numeric value, widened.
    pub open spec fn value(self) -> u64 {
        match self {
            DataVal::DB(b) => b as u64,
            DataVal::DW(w) => w as u64,
            DataVal::DL(l) => l as u64,
        }
    }

    /// The number of bytes the value occupies in the ROM image.
    pub open spec fn width(self) -> u64 {
        match self {
            DataVal::DB(_) => 1,
            DataVal::DW(_) => 2,
            DataVal::DL(_) => 3,
        }
    }

    /// The value as a number.
    pub fn as_u64(&self) -> (r: u64)
        ensures
            r == self.value(),
    {
        match self {
            DataVal::DB(b) => *b as u64,
            DataVal::DW(w) => *w as u64,
            DataVal::DL(l) => *l as u64,
        }
    }
}

/// What the configuration makes of one data value.
#[derive(Debug, Clone, Copy, PartialEq, Eq, Structural)]
pub enum Reading {
    /// A number and nothing more.
    Plain,
    /// The address of code.
    Pointer(u64),
    /// The address of data.
    Reference(u64),
}

/// The address that the low 16 bits of `value` name in bank `db`, or in the
/// bank of `pc` where no bank is given.
pub open spec fn near_target(db: Option<u64>, pc: u64, value: u64) -> u64 {
    (value & 0xFFFF) | (match db {
        Some(b) => b,
        None => pc >> 16,
    } << 16)
}

/// How the configuration reads the value `v` at `pc`, `offset` bytes into
/// its line. Under a `Pointer` or `Data` override the value is a 16-bit
/// address in the override's bank. Under a `Struct` override it is read by
/// the field of the named layout at `offset`: a field of type `Pointer`
/// holds an address, 16 bits in the field's bank or, from three bytes on,
/// the whole value, and counts only where its low 16 bits are 0x8000 or
/// more. Anything else is a plain number.
pub open spec fn reading_of(cfg: ConfigView, v: DataVal, pc: u64, offset: nat) -> Reading {
    match cfg.override_at(pc) {
        None => Reading::Plain,
        Some(o) => match o.kind {
            None => Reading::Plain,
            Some(k) => if k == "Pointer"@ {
                Reading::Pointer(near_target(o.db, pc, v.value()))
            } else if k == "Data"@ {
                Reading::Reference(near_target(o.db, pc, v.value()))
            } else if k == "Struct"@ {
                match cfg.struct_named(
                    match o.struct_name {
                        Some(n) => n,
                        None => Seq::empty(),
                    },
                ) {
                    None => Reading::Plain,
                    Some(st) => match st.field_at(offset) {
                        None => Reading::Plain,
                        Some(f) => {
                            let t = if f.length < 3 {
                                near_target(f.db, pc, v.value())
                            } else {
                                v.value()
                            };
                            if f.kind == "Pointer"@ && (t & 0xFFFF) >= 0x8000 {
                                Reading::Pointer(t)
                            } else {
                                Reading::Plain
                            }
                        },
                    },
                }
            } else {
                Reading::Plain
            },
        },
    }
}

/// Computes `near_target`.
pub fn near(db: Option<u64>, pc: u64, value: u64) -> (r: u64)
    ensures
        r == near_target(db, pc, value),
{
    let bank: u64 = match db {
        Some(b) => b,
        None => pc >> 16,
    };
    (value & 0xFFFF) | (bank << 16)
}

/// Computes `reading_of`.
pub fn read_value(config: &Config, v: DataVal, pc: u64, offset: u128) -> (r: Reading)
    ensures
        r == reading_of(config@, v, pc, offset as nat),
{
    let o = match config.get_override(pc) {
        Some(o) => o,
        None => {
            return Reading::Plain;
        },
    };
    let k = match &o._type {
        Some(k) => k,
        None => {
            return Reading::Plain;
        },
    };
    if same_text(k.as_str(), "Pointer") {
        Reading::Pointer(near(o.db, pc, v.as_u64()))
    } else if same_text(k.as_str(), "Data") {
        Reading::Reference(near(o.db, pc, v.as_u64()))
    } else if same_text(k.as_str(), "Struct") {
        proof {
            reveal_strlit("");
        }
        let name: &str = match &o._struct {
            Some(n) => n.as_str(),
            None => "",
        };
        assert(name@ =~= match o@.struct_name {
            Some(n) => n,
            None => Seq::empty(),
        });
        let st = match config.get_struct(name) {
            Some(st) => st,
            None => {
                return Reading::Plain;
            },
        };
        let f = match st.field_at(offset) {
            Some(f) => f,
            None => {
                return Reading::Plain;
            },
        };
        let t: u64 = if f.length < 3 {
            near(f.db, pc, v.as_u64())
        } else {
            v.as_u64()
        };
        if same_text(f._type.as_str(), "Pointer") && (t & 0xFFFF) >= 0x8000 {
            Reading::Pointer(t)
        } else {
            Reading::Plain
        }
    } else {
        Reading::Plain
    }
}

/// A run of data values that starts at `address`.
#[derive(Debug, Clone)]
pub struct Data {
    pub address: u64,
    pub data: Vec<DataVal>,
    pub comment: Option<String>,
}

/// A data line as contracts see it.
pub struct DataView {
    pub address: u64,
    pub data: Seq<DataVal>,
    pub comment: Option<Seq<char>>,
}

impl View for Data {
    type V = DataView;

    open spec fn view(&self) -> DataView {
        DataView { address: self.address, data: self.data@, comment: opt_text(self.comment) }
    }
}

impl DataView {
    /// The number of bytes that the first `n` values take.
    pub open spec fn offset_of(self, n: int) -> nat
        decreases n,
    {
        if n <= 0 || n > self.data.len() {
            0
        } else {
            self.offset_of(n - 1) + self.data[n - 1].width() as nat
        }
    }

    /// The address of the value at position `n`: the line's own address for
    /// the first value, and for each later one the address of the value
    /// before it advanced by that value's width.
    pub open spec fn pc_of(self, n: int) -> u64
        decreases n,
    {
        if n <= 0 || n > self.data.len() {
            self.address
        } else {
            wrap24(self.pc_of(n - 1) + self.data[n - 1].width())
        }
    }
}

impl DataVal {
    /// The directive that introduces values of this width.
    pub open spec fn directive(self) -> Seq<char> {
        match self {
            DataVal::DB(_) => "db"@,
            DataVal::DW(_) => "dw"@,
            DataVal::DL(_) => "dl"@,
        }
    }

    /// The value as a number: a dollar sign and two hexadecimal digits for
    /// each byte of its width.
    pub open spec fn raw_text(self) -> Seq<char> {
        "$"@ + hex_upper(self.value() as nat, 2 * self.width() as nat)
    }
}

/// How the value at position `i` is written: as the name of the label at
/// the address it holds, where the configuration reads it as an address
/// and a label stands there, else as a number.
pub open spec fn value_text(cfg: ConfigView, d: DataView, i: int, m: Map<u64, LabelView>) -> Seq<
    char,
> {
    match reading_of(cfg, d.data[i], d.pc_of(i), d.offset_of(i)) {
        Reading::Plain => d.data[i].raw_text(),
        Reading::Pointer(t) | Reading::Reference(t) => if m.contains_key(t) {
            m[t].name
        } else {
            d.data[i].raw_text()
        },
    }
}

/// What separates the value at position `i` from the value before. The
/// first value follows its directive. A later value at an address that has
/// a label follows the label and a new directive; one of another width than
/// the value before follows a new directive; any other follows a comma.
pub open spec fn lead_text(d: DataView, i: int, m: Map<u64, LabelView>) -> Seq<char> {
    if i == 0 {
        d.data[i].directive() + " "@
    } else if m.contains_key(d.pc_of(i)) {
        " : "@ + m[d.pc_of(i)].name + ": "@ + d.data[i].directive() + " "@
    } else if d.data[i].width() != d.data[i - 1].width() {
        " : "@ + d.data[i].directive() + " "@
    } else {
        ","@
    }
}

/// What is written for the value at position `i`.
pub open spec fn item_text(cfg: ConfigView, d: DataView, i: int, m: Map<u64, LabelView>) -> Seq<
    char,
> {
    lead_text(d, i, m) + value_text(cfg, d, i, m)
}

/// What is written for the first `n` values.
pub open spec fn items_text(cfg: ConfigView, d: DataView, n: int, m: Map<u64, LabelView>) -> Seq<
    char,
>
    decreases n,
{
    if n <= 0 || n > d.data.len() {
        Seq::empty()
    } else {
        items_text(cfg, d, n - 1, m) + item_text(cfg, d, n - 1, m)
    }
}

/// The whole line: four blanks, the values, and, where the line has a
/// comment, the line's address and the comment.
pub open spec fn data_text(cfg: ConfigView, d: DataView, m: Map<u64, LabelView>) -> Seq<char> {
    "    "@ + items_text(cfg, d, d.data.len() as int, m) + match d.comment {
        Some(t) => " ; | "@ + hex_upper(d.address as nat, 6) + " | "@ + t,
        None => Seq::empty(),
    }
}

/// The labels after the first `n` values were written: each label at the
/// address of a value but the first is marked as written.
pub open spec fn marked(d: DataView, n: int, m: Map<u64, LabelView>) -> Map<u64, LabelView>
    decreases n,
{
    if n <= 0 || n > d.data.len() {
        m
    } else if n == 1 {
        marked(d, n - 1, m)
    } else {
        assigned_at(marked(d, n - 1, m), d.pc_of(n - 1))
    }
}

/// Writing a line changes no label but for the mark.
pub proof fn lemma_marked_same_labels(d: DataView, n: int, m: Map<u64, LabelView>)
    ensures
        same_labels(marked(d, n, m), m),
    decreases n,
{
    if n <= 0 || n > d.data.len() {
    } else {
        lemma_marked_same_labels(d, n - 1, m);
    }
}

/// What is written depends on the names of the labels and on where they
/// stand, not on which of them are marked.
pub proof fn lemma_texts_agree(
    cfg: ConfigView,
    d: DataView,
    i: int,
    a: Map<u64, LabelView>,
    b: Map<u64, LabelView>,
)
    requires
        same_labels(a, b),
    ensures
        lead_text(d, i, a) == lead_text(d, i, b),
        value_text(cfg, d, i, a) == value_text(cfg, d, i, b),
{
    let pc = d.pc_of(i);
    if a.contains_key(pc) {
        assert(a[pc].name == b[pc].name);
    }
    match reading_of(cfg, d.data[i], d.pc_of(i), d.offset_of(i)) {
        Reading::Plain => {},
        Reading::Pointer(t) | Reading::Reference(t) => {
            if a.contains_key(t) {
                assert(a[t].name == b[t].name);
            }
        },
    }
}

/// The address `width` bytes after `pc`.
pub fn advance(pc: u64, width: u64) -> (r: u64)
    requires
        width <= 3,
    ensures
        r == wrap24(pc + width),
{
    (pc % 0x100_0000 + width) % 0x100_0000
}

impl DataVal {
    /// The text of `directive`.
    pub fn directive_str(&self) -> (r: &'static str)
        ensures
            r@ == self.directive(),
    {
        match self {
            DataVal::DB(_) => "db",
            DataVal::DW(_) => "dw",
            DataVal::DL(_) => "dl",
        }
    }

    /// Appends the value as a number.
    pub fn push_raw(&self, out: &mut String)
        ensures
            final(out)@ == old(out)@ + self.raw_text(),
    {
        out.append("$");
        push_hex(out, self.as_u64(), 2 * self.len());
        assert(out@ =~= old(out)@ + self.raw_text());
    }

    /// The number of bytes the value occupies.
    pub fn len(&self) -> (r: u64)
        ensures
            r == self.width(),
    {
        match self {
            DataVal::DB(_) => 1,
            DataVal::DW(_) => 2,
            DataVal::DL(_) => 3,
        }
    }
}

impl Data {
    /// Appends what separates the value at position `i`, which stands at
    /// `pc`, from the value before, and marks the label at `pc` as written
    /// where it is written here.
    fn push_lead(&self, i: usize, pc: u64, labels: &mut HashMap<u64, Label>, out: &mut String)
        requires
            i < self.data.len(),
            pc == self@.pc_of(i as int),
        ensures
            final(out)@ == old(out)@ + lead_text(self@, i as int, label_map(old(labels)@)),
            label_map(final(labels)@) == if i == 0 {
                label_map(old(labels)@)
            } else {
                assigned_at(label_map(old(labels)@), pc)
            },
    {
        let v: DataVal = self.data[i];
        if i == 0 {
            out.append(v.directive_str());
            out.append(" ");
        } else {
            match mark_assigned(labels, pc) {
                Some(name) => {
                    out.append(" : ");
                    out.append(name.as_str());
                    out.append(": ");
                    out.append(v.directive_str());
                    out.append(" ");
                },
                None => {
                    if v.len() != self.data[i - 1].len() {
                        out.append(" : ");
                        out.append(v.directive_str());
                        out.append(" ");
                    } else {
                        out.append(",");
                    }
                },
            }
        }
        assert(out@ =~= old(out)@ + lead_text(self@, i as int, label_map(old(labels)@)));
    }

    /// Appends the value at position `i`, which stands at `pc`, `offset`
    /// bytes into the line.
    fn push_value(
        &self,
        i: usize,
        pc: u64,
        offset: u128,
        config: &Config,
        labels: &HashMap<u64, Label>,
        out: &mut String,
    )
        requires
            i < self.data.len(),
            pc == self@.pc_of(i as int),
            offset == self@.offset_of(i as int),
        ensures
            final(out)@ == old(out)@ + value_text(config@, self@, i as int, label_map(labels@)),
    {
        let v: DataVal = self.data[i];
        let named: bool = match read_value(config, v, pc, offset) {
            Reading::Plain => false,
            Reading::Pointer(t) | Reading::Reference(t) => {
                match labels.get(&t) {
                    Some(l) => {
                        out.append(l.name.as_str());
                        true
                    },
                    None => false,
                }
            },
        };
        if !named {
            v.push_raw(out);
        }
    }

    /// The data as a line of assembler source. A label that is written
    /// inside the line is marked as written.
    pub fn to_string(&self, config: &Config, labels: &mut HashMap<u64, Label>) -> (r: String)
        ensures
            r@ == data_text(config@, self@, label_map(old(labels)@)),
            label_map(final(labels)@) == marked(
                self@,
                self@.data.len() as int,
                label_map(old(labels)@),
            ),
    {
        let ghost m = label_map(labels@);
        let mut out = String::from_str("    ");
        let ghost head = out@;
        let mut pc: u64 = self.address;
        let mut offset: u128 = 0;
        let mut i: usize = 0;
        while i < self.data.len()
            invariant
                i <= self.data.len(),
                pc == self@.pc_of(i as int),
                offset == self@.offset_of(i as int),
                offset <= 3 * i,
                label_map(labels@) == marked(self@, i as int, m),
                out@ == head + items_text(config@, self@, i as int, m),
            decreases self.data.len() - i,
        {
            let ghost before = out@;
            let ghost was = label_map(labels@);
            proof {
                lemma_marked_same_labels(self@, i as int, m);
                lemma_marked_same_labels(self@, i as int + 1, m);
                lemma_texts_agree(config@, self@, i as int, was, m);
                lemma_texts_agree(config@, self@, i as int, marked(self@, i as int + 1, m), m);
            }
            self.push_lead(i, pc, labels, &mut out);
            self.push_value(i, pc, offset, config, labels, &mut out);
            assert(out@ =~= before + item_text(config@, self@, i as int, m));
            let w: u64 = self.data[i].len();
            pc = advance(pc, w);
            offset = offset + (w as u128);
            i = i + 1;
        }
        match &self.comment {
            Some(t) => {
                out.append(" ; | ");
                push_hex(&mut out, self.address, 6);
                out.append(" | ");
                out.append(t.as_str());
            },
            None => {},
        }
        assert(out@ =~= data_text(config@, self@, m));
        out
    }
}

} // verus!
