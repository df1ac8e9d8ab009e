//! Instructions of a trace and their rendering as assembler source.

use vstd::prelude::*;
use vstd::string::*;
use std::collections::HashMap;
use crate::address::{resolve_target, target_of};
use crate::config::{opt_text, Config, ConfigView};
use crate::label::{
    after_line, keyed, label_map, labelled, lemma_after_line_keyed, Label, LabelType, LabelView,
};
use crate::line::LineView;
use crate::opcode::{AddrMode, Mnemonic, Opcode};
use crate::text::{hex_upper, pad_right, push_hex, push_padded};

verus! {

/// The operand of an instruction.
#[derive(Debug, Clone, Copy, PartialEq, Eq, Structural)]
pub enum ArgType {
    /// No operand.
    NoArg,
    /// The operand bytes, least significant first, as one number.
    Address(u64),
    /// The two banks of a block move, in the order of the instruction's
    /// bytes.
    BlockMove(u8, u8),
}

/// One instruction.
#[derive(Debug, Clone)]
pub struct Code {
    pub address: u64,
    pub opcode: Opcode,
    pub arg: ArgType,
    pub comment: Option<String>,
    /// The number of operand bytes.
    pub length: u8,
    /// The data bank in force at the instruction.
    pub db: u8,
}

/// An instruction as contracts see it.
pub struct CodeView {
    pub address: u64,
    pub opcode: Opcode,
    pub arg: ArgType,
    pub comment: Option<Seq<char>>,
    pub length: u8,
    pub db: u8,
}

impl View for Code {
    type V = CodeView;

    open spec fn view(&self) -> CodeView {
        CodeView {
            address: self.address,
            opcode: self.opcode,
            arg: self.arg,
            comment: opt_text(self.comment),
            length: self.length,
            db: self.db,
        }
    }
}

impl CodeView {
    /// Whether the instruction can be written: one that takes an operand
    /// has one, and an address operand is one to three bytes long.
    pub open spec fn renderable(self) -> bool {
        self.opcode.addr_mode == AddrMode::Implied || match self.arg {
            ArgType::NoArg => false,
            ArgType::BlockMove(_, _) => true,
            ArgType::Address(_) => 1 <= self.length <= 3,
        }
    }

    /// Whether labels next to the target may stand for it: not for a
    /// branch, and not for a call.
    pub open spec fn takes_neighbours(self) -> bool {
        self.opcode.addr_mode != AddrMode::Relative && self.opcode.addr_mode
            != AddrMode::RelativeLong && self.opcode.name != Mnemonic::JSR && self.opcode.name
            != Mnemonic::JSL
    }

    /// Whether the operand is an immediate value.
    pub open spec fn immediate(self) -> bool {
        self.opcode.addr_mode == AddrMode::Immediate || self.opcode.addr_mode
            == AddrMode::ImmediateByte
    }
}

/// The label that is found for the target `t`, as the address it stands at
/// and what must be added to that address to reach `t`: the label at `t`
/// itself, else, where neighbours count, the first of the labels one below,
/// one above, two below and two above.
pub open spec fn found_label(m: Map<u64, LabelView>, t: u64, neighbours: bool) -> Option<
    (u64, int),
> {
    if m.contains_key(t) {
        Some((t, 0))
    } else if !neighbours {
        None
    } else if labelled(m, t - 1) {
        Some(((t - 1) as u64, 1))
    } else if labelled(m, t + 1) {
        Some(((t + 1) as u64, -1))
    } else if labelled(m, t - 2) {
        Some(((t - 2) as u64, 2))
    } else if labelled(m, t + 2) {
        Some(((t + 2) as u64, -2))
    } else {
        None
    }
}

/// The label that is written for the operand of `c`, with what is added to
/// it. The label found for the target is not written where it is blocked,
/// nor for an immediate value at an address without an override.
pub open spec fn substitute(c: CodeView, m: Map<u64, LabelView>, overridden: bool) -> Option<
    (u64, int),
> {
    match c.arg {
        ArgType::Address(arg) => match target_of(
            c.address,
            c.db,
            arg,
            c.opcode.addr_mode,
            c.length,
        ) {
            Some(t) => match found_label(m, t, c.takes_neighbours()) {
                Some((at, add)) => if (c.immediate() ==> overridden) && m[at].label_type
                    != LabelType::Blocked {
                    Some((at, add))
                } else {
                    None
                },
                None => None,
            },
            None => None,
        },
        _ => None,
    }
}

/// A label's name with what is added to it.
pub open spec fn label_expr(name: Seq<char>, add: int) -> Seq<char> {
    if add == 0 {
        name
    } else if add == 1 {
        name + "+1"@
    } else if add == 2 {
        name + "+2"@
    } else if add == -1 {
        name + "-1"@
    } else {
        name + "-2"@
    }
}

/// A number as an operand: a dollar sign and `digits` hexadecimal digits.
pub open spec fn raw_hex(v: u64, digits: nat) -> Seq<char> {
    "$"@ + hex_upper(v as nat, digits)
}

/// The operand of `c` as it is written.
pub open spec fn operand_text(c: CodeView, m: Map<u64, LabelView>, overridden: bool) -> Seq<char> {
    match c.arg {
        ArgType::Address(arg) => match substitute(c, m, overridden) {
            Some((at, add)) => label_expr(m[at].name, add),
            None => raw_hex(arg, 2 * c.length as nat),
        },
        ArgType::BlockMove(src, dst) => raw_hex(src as u64, 2) + ","@ + raw_hex(dst as u64, 2),
        ArgType::NoArg => Seq::empty(),
    }
}

/// What stands between the mnemonic and the operand: the width suffix and
/// the opening of the operand.
pub open spec fn lead_of(mode: AddrMode, length: u8) -> Seq<char> {
    match mode {
        AddrMode::Absolute => ".w "@,
        AddrMode::AbsoluteIndexedIndirect => ".w ("@,
        AddrMode::AbsoluteIndexedLong => ".l "@,
        AddrMode::AbsoluteIndexedX => ".w "@,
        AddrMode::AbsoluteIndexedY => ".w "@,
        AddrMode::AbsoluteIndirect => ".w ("@,
        AddrMode::AbsoluteIndirectLong => ".w ["@,
        AddrMode::AbsoluteLong => ".l "@,
        AddrMode::BlockMove => " "@,
        AddrMode::Direct => ".b "@,
        AddrMode::DirectIndexedIndirect => ".b ("@,
        AddrMode::DirectIndexedX => ".b "@,
        AddrMode::DirectIndexedY => ".b "@,
        AddrMode::DirectIndirect => ".b ("@,
        AddrMode::DirectIndirectIndexed => ".b ("@,
        AddrMode::DirectIndirectIndexedLong => ".b ["@,
        AddrMode::DirectIndirectLong => ".b ["@,
        AddrMode::Immediate => if length == 1 {
            ".b #"@
        } else {
            ".w #"@
        },
        AddrMode::ImmediateByte => ".b #"@,
        AddrMode::Implied => Seq::empty(),
        AddrMode::Relative => " "@,
        AddrMode::RelativeLong => " "@,
        AddrMode::StackRelative => ".b "@,
        AddrMode::StackRelativeIndirectIndexed => ".b ("@,
    }
}

/// What follows the operand.
pub open spec fn trail_of(mode: AddrMode) -> Seq<char> {
    match mode {
        AddrMode::AbsoluteIndexedIndirect => ",X)"@,
        AddrMode::AbsoluteIndexedLong => ",X"@,
        AddrMode::AbsoluteIndexedX => ",X"@,
        AddrMode::AbsoluteIndexedY => ",Y"@,
        AddrMode::AbsoluteIndirect => ")"@,
        AddrMode::AbsoluteIndirectLong => "]"@,
        AddrMode::DirectIndexedIndirect => ",X)"@,
        AddrMode::DirectIndexedX => ",X"@,
        AddrMode::DirectIndexedY => ",Y"@,
        AddrMode::DirectIndirect => ")"@,
        AddrMode::DirectIndirectIndexed => "),Y"@,
        AddrMode::DirectIndirectIndexedLong => "],Y"@,
        AddrMode::DirectIndirectLong => "]"@,
        AddrMode::StackRelative => ",S"@,
        AddrMode::StackRelativeIndirectIndexed => ",S),Y"@,
        _ => Seq::empty(),
    }
}

/// The instruction as it is written: the mnemonic alone where the
/// instruction takes no operand, else the mnemonic, the width suffix and
/// the operand in the syntax of the addressing mode.
pub open spec fn instruction_text(
    c: CodeView,
    m: Map<u64, LabelView>,
    overridden: bool,
) -> Seq<char> {
    if c.opcode.addr_mode == AddrMode::Implied {
        c.opcode.name.text()
    } else {
        c.opcode.name.text() + lead_of(c.opcode.addr_mode, c.length) + operand_text(
            c,
            m,
            overridden,
        ) + trail_of(c.opcode.addr_mode)
    }
}

/// The whole line: four blanks, the instruction in a field of 40 columns,
/// then the address, the data bank and the comment.
pub open spec fn code_text(c: CodeView, m: Map<u64, LabelView>, overridden: bool) -> Seq<char> {
    "    "@ + pad_right(instruction_text(c, m, overridden), 40) + ";| "@ + hex_upper(
        c.address as nat,
        6,
    ) + " | "@ + hex_upper(c.db as nat, 2) + " | "@ + match c.comment {
        Some(t) => t,
        None => Seq::empty(),
    }
}

/// A label written in place of an operand, with what is added to it, names
/// the address the operand refers to.
pub proof fn lemma_substitute_names_target(c: CodeView, m: Map<u64, LabelView>, overridden: bool)
    requires
        keyed(m),
    ensures
        match substitute(c, m, overridden) {
            Some((at, add)) => match c.arg {
                ArgType::Address(arg) => m.contains_key(at) && target_of(
                    c.address,
                    c.db,
                    arg,
                    c.opcode.addr_mode,
                    c.length,
                ) == Some((m[at].address + add) as u64) && 0 <= m[at].address + add <= u64::MAX,
                _ => false,
            },
            None => true,
        },
{
}

/// With the labels that an instruction alone asks for, a label that is
/// written in place of its operand names the address the operand refers
/// to.
pub proof fn lemma_own_label_names_target(cfg: ConfigView, c: CodeView, overridden: bool)
    ensures
        ({
            let m = after_line(cfg, LineView::Code(c), Map::empty());
            match substitute(c, m, overridden) {
                Some((at, add)) => match c.arg {
                    ArgType::Address(arg) => m.contains_key(at) && target_of(
                        c.address,
                        c.db,
                        arg,
                        c.opcode.addr_mode,
                        c.length,
                    ) == Some((m[at].address + add) as u64),
                    _ => false,
                },
                None => true,
            }
        }),
{
    let m = after_line(cfg, LineView::Code(c), Map::empty());
    lemma_after_line_keyed(cfg, LineView::Code(c), Map::empty());
    lemma_substitute_names_target(c, m, overridden);
}

/// The text of `lead_of`.
pub fn lead_str(mode: AddrMode, length: u8) -> (r: &'static str)
    ensures
        r@ == lead_of(mode, length),
{
    proof {
        reveal_strlit("");
    }
    let r = match mode {
        AddrMode::Absolute => ".w ",
        AddrMode::AbsoluteIndexedIndirect => ".w (",
        AddrMode::AbsoluteIndexedLong => ".l ",
        AddrMode::AbsoluteIndexedX => ".w ",
        AddrMode::AbsoluteIndexedY => ".w ",
        AddrMode::AbsoluteIndirect => ".w (",
        AddrMode::AbsoluteIndirectLong => ".w [",
        AddrMode::AbsoluteLong => ".l ",
        AddrMode::BlockMove => " ",
        AddrMode::Direct => ".b ",
        AddrMode::DirectIndexedIndirect => ".b (",
        AddrMode::DirectIndexedX => ".b ",
        AddrMode::DirectIndexedY => ".b ",
        AddrMode::DirectIndirect => ".b (",
        AddrMode::DirectIndirectIndexed => ".b (",
        AddrMode::DirectIndirectIndexedLong => ".b [",
        AddrMode::DirectIndirectLong => ".b [",
        AddrMode::Immediate => if length == 1 {
            ".b #"
        } else {
            ".w #"
        },
        AddrMode::ImmediateByte => ".b #",
        AddrMode::Implied => "",
        AddrMode::Relative => " ",
        AddrMode::RelativeLong => " ",
        AddrMode::StackRelative => ".b ",
        AddrMode::StackRelativeIndirectIndexed => ".b (",
    };
    assert(r@ =~= lead_of(mode, length));
    r
}

/// The text of `trail_of`.
pub fn trail_str(mode: AddrMode) -> (r: &'static str)
    ensures
        r@ == trail_of(mode),
{
    proof {
        reveal_strlit("");
    }
    let r = match mode {
        AddrMode::AbsoluteIndexedIndirect => ",X)",
        AddrMode::AbsoluteIndexedLong => ",X",
        AddrMode::AbsoluteIndexedX => ",X",
        AddrMode::AbsoluteIndexedY => ",Y",
        AddrMode::AbsoluteIndirect => ")",
        AddrMode::AbsoluteIndirectLong => "]",
        AddrMode::DirectIndexedIndirect => ",X)",
        AddrMode::DirectIndexedX => ",X",
        AddrMode::DirectIndexedY => ",Y",
        AddrMode::DirectIndirect => ")",
        AddrMode::DirectIndirectIndexed => "),Y",
        AddrMode::DirectIndirectIndexedLong => "],Y",
        AddrMode::DirectIndirectLong => "]",
        AddrMode::StackRelative => ",S",
        AddrMode::StackRelativeIndirectIndexed => ",S),Y",
        _ => "",
    };
    assert(r@ =~= trail_of(mode));
    r
}

/// Computes `found_label`.
pub fn find_label(labels: &HashMap<u64, Label>, t: u64, neighbours: bool) -> (r: Option<(u64, i8)>)
    ensures
        match r {
            Some((at, add)) => found_label(label_map(labels@), t, neighbours) == Some(
                (at, add as int),
            ) && labels@.contains_key(at) && -2 <= add <= 2,
            None => found_label(label_map(labels@), t, neighbours) is None,
        },
{
    if labels.contains_key(&t) {
        Some((t, 0))
    } else if !neighbours {
        None
    } else if t >= 1 && labels.contains_key(&(t - 1)) {
        Some((t - 1, 1))
    } else if t <= u64::MAX - 1 && labels.contains_key(&(t + 1)) {
        Some((t + 1, -1))
    } else if t >= 2 && labels.contains_key(&(t - 2)) {
        Some((t - 2, 2))
    } else if t <= u64::MAX - 2 && labels.contains_key(&(t + 2)) {
        Some((t + 2, -2))
    } else {
        None
    }
}

/// Appends a number as an operand.
pub fn push_raw(out: &mut String, v: u64, digits: u64)
    ensures
        final(out)@ == old(out)@ + raw_hex(v, digits as nat),
{
    out.append("$");
    push_hex(out, v, digits);
    assert(out@ =~= old(out)@ + raw_hex(v, digits as nat));
}

impl Code {
    /// Whether the instruction can be written.
    pub fn is_renderable(&self) -> (r: bool)
        ensures
            r == self@.renderable(),
    {
        self.opcode.addr_mode == AddrMode::Implied || match self.arg {
            ArgType::NoArg => false,
            ArgType::BlockMove(_, _) => true,
            ArgType::Address(_) => 1 <= self.length && self.length <= 3,
        }
    }

    /// The operand as it is written: a label where one is found for the
    /// address it refers to, else the number itself.
    pub fn arg_label(&self, config: &Config, labels: &HashMap<u64, Label>) -> (r: String)
        requires
            self@.renderable(),
        ensures
            r@ == operand_text(
                self@,
                label_map(labels@),
                config@.override_at(self.address) is Some,
            ),
    {
        let ghost m = label_map(labels@);
        let ghost overridden = config@.override_at(self.address) is Some;
        let mut out = String::new();
        match self.arg {
            ArgType::Address(arg) => {
                let neighbours: bool = self.opcode.addr_mode != AddrMode::Relative
                    && self.opcode.addr_mode != AddrMode::RelativeLong && self.opcode.name
                    != Mnemonic::JSR && self.opcode.name != Mnemonic::JSL;
                let immediate: bool = self.opcode.addr_mode == AddrMode::Immediate
                    || self.opcode.addr_mode == AddrMode::ImmediateByte;
                let found = match resolve_target(
                    self.address,
                    self.db,
                    arg,
                    self.opcode.addr_mode,
                    self.length,
                ) {
                    Some(t) => find_label(labels, t, neighbours),
                    None => None,
                };
                let mut written: bool = false;
                match found {
                    Some((at, add)) => {
                        let allowed: bool = !immediate || config.get_override(
                            self.address,
                        ).is_some();
                        match labels.get(&at) {
                            Some(l) => {
                                if allowed && l.label_type != LabelType::Blocked {
                                    out.append(l.name.as_str());
                                    if add == 1 {
                                        out.append("+1");
                                    } else if add == 2 {
                                        out.append("+2");
                                    } else if add == -1 {
                                        out.append("-1");
                                    } else if add == -2 {
                                        out.append("-2");
                                    }
                                    written = true;
                                    assert(substitute(self@, m, overridden) == Some(
                                        (at, add as int),
                                    ));
                                    assert(out@ =~= label_expr(m[at].name, add as int));
                                }
                            },
                            None => {},
                        }
                    },
                    None => {},
                }
                if !written {
                    assert(substitute(self@, m, overridden) is None);
                    push_raw(&mut out, arg, 2 * (self.length as u64));
                    assert(out@ =~= raw_hex(arg, 2 * self.length as nat));
                }
            },
            ArgType::BlockMove(src, dst) => {
                push_raw(&mut out, src as u64, 2);
                out.append(",");
                push_raw(&mut out, dst as u64, 2);
                assert(out@ =~= raw_hex(src as u64, 2) + ","@ + raw_hex(dst as u64, 2));
            },
            ArgType::NoArg => {},
        }
        out
    }

    /// The instruction as a line of assembler source.
    pub fn to_string(&self, config: &Config, labels: &HashMap<u64, Label>) -> (r: String)
        requires
            self@.renderable(),
        ensures
            r@ == code_text(
                self@,
                label_map(labels@),
                config@.override_at(self.address) is Some,
            ),
    {
        let ghost m = label_map(labels@);
        let ghost overridden = config@.override_at(self.address) is Some;
        let mut text = String::from_str(self.opcode.name.as_str());
        if self.opcode.addr_mode != AddrMode::Implied {
            text.append(lead_str(self.opcode.addr_mode, self.length));
            let operand = self.arg_label(config, labels);
            text.append(operand.as_str());
            text.append(trail_str(self.opcode.addr_mode));
        }
        assert(text@ =~= instruction_text(self@, m, overridden));
        let mut out = String::from_str("    ");
        push_padded(&mut out, text.as_str(), 40);
        out.append(";| ");
        push_hex(&mut out, self.address, 6);
        out.append(" | ");
        push_hex(&mut out, self.db as u64, 2);
        out.append(" | ");
        match &self.comment {
            Some(t) => {
                out.append(t.as_str());
            },
            None => {},
        }
        assert(out@ =~= code_text(self@, m, overridden));
        out
    }
}

} // verus!
