//! The lines of a trace: what each one is, and how it is read and written.

use vstd::prelude::*;
use vstd::slice::slice_subrange;
use vstd::string::*;
use std::collections::HashMap;
use crate::code::{code_text, ArgType, Code, CodeView};
use crate::config::{opt_text, Config, ConfigView};
use crate::data::{advance, data_text, marked, Data, DataVal, DataView};
use crate::endian::{long_of, read_u16, read_u24, word_of};
use crate::label::{label_map, Label, LabelView};
use crate::opcode::{opcode_table, Mnemonic, Opcode};
use crate::pattern::{
    find, group_views, pattern_accepted, pattern_groups, BANNER, BLOCK_MOVE, CODE, COMMENT,
    DATA_MORE, DATA_START, FILL,
};
use crate::text::{hex_u64, hex_upper, push_hex, to_chars, trim_end, trim_start, trimmed};
use crate::token::{
    byte_list, cut, hex_within, piece_views, read_bytes, read_hex, remove_char, split, trim,
    without,
};

verus! {

/// One line of a trace.
#[derive(Debug, Clone)]
pub enum Line {
    Comment(String),
    Data(Data),
    Code(Code),
}

/// A line as contracts see it.
pub enum LineView {
    Comment(Seq<char>),
    Data(DataView),
    Code(CodeView),
}

impl View for Line {
    type V = LineView;

    open spec fn view(&self) -> LineView {
        match self {
            Line::Comment(s) => LineView::Comment(s@),
            Line::Data(d) => LineView::Data(d@),
            Line::Code(c) => LineView::Code(c@),
        }
    }
}

/// The views of a list of lines.
pub open spec fn line_views(s: Seq<Line>) -> Seq<LineView> {
    s.map_values(|l: Line| l@)
}

impl LineView {
    /// Whether the line can be written.
    pub open spec fn renderable(self) -> bool {
        match self {
            LineView::Code(c) => c.renderable(),
            _ => true,
        }
    }
}

/// The line as it is written.
pub open spec fn line_text(cfg: ConfigView, line: LineView, m: Map<u64, LabelView>) -> Seq<char> {
    match line {
        LineView::Comment(s) => s,
        LineView::Data(d) => data_text(cfg, d, m),
        LineView::Code(c) => code_text(c, m, cfg.override_at(c.address) is Some),
    }
}

/// The labels after the line was written.
pub open spec fn line_marks(line: LineView, m: Map<u64, LabelView>) -> Map<u64, LabelView> {
    match line {
        LineView::Data(d) => marked(d, d.data.len() as int, m),
        _ => m,
    }
}

/// What the parser remembers from one line to the next.
#[derive(Debug, Clone)]
pub struct ParserState {
    /// The directive of the last line that started data.
    pub last_data_cmd: String,
    /// The address after the last data that was read.
    pub last_pc: u64,
}

/// What the parser remembers, as contracts see it.
pub struct ParserStateView {
    pub last_data_cmd: Seq<char>,
    pub last_pc: u64,
}

impl ParserState {
    /// The parser at the start of a file: it remembers nothing.
    pub fn new() -> (r: ParserState)
        ensures
            r@ == (ParserStateView { last_data_cmd: Seq::empty(), last_pc: 0 }),
    {
        ParserState { last_data_cmd: String::new(), last_pc: 0 }
    }
}

impl View for ParserState {
    type V = ParserStateView;

    open spec fn view(&self) -> ParserStateView {
        ParserStateView { last_data_cmd: self.last_data_cmd@, last_pc: self.last_pc }
    }
}

/// Why a line could not be read.
#[derive(Debug, Clone, Copy, PartialEq, Eq, Structural)]
pub enum ParseError {
    /// The matcher did not accept a pattern of the grammar.
    Pattern,
    /// A match lacks a group, or a group is too short.
    Groups,
    /// A number is malformed or too large.
    Number,
    /// An instruction has more than three operand bytes, or a block move
    /// fewer than two.
    OperandLength,
    /// A data value has not two, four, six or eight digits.
    DataWidth,
}

/// The kinds of line that the grammar tells apart, in the order in which
/// they are tried.
#[derive(Debug, Clone, Copy, PartialEq, Eq, Structural)]
pub enum Shape {
    Comment,
    Fill,
    BlockMove,
    Code,
    DataStart,
    DataMore,
    Banner,
}

/// What reading a line gives: the address at which the line starts, if it
/// has one of its own, and the line.
pub type Parsed = Result<(Option<u64>, LineView), ParseError>;

/// The view of what was read.
pub open spec fn parsed_view(r: Result<(Option<u64>, Line), ParseError>) -> Parsed {
    match r {
        Ok((pc, line)) => Ok((pc, line@)),
        Err(e) => Err(e),
    }
}

impl Shape {
    /// The pattern that lines of this shape match.
    pub open spec fn pattern(self) -> Seq<char> {
        match self {
            Shape::Comment => COMMENT@,
            Shape::Fill => FILL@,
            Shape::BlockMove => BLOCK_MOVE@,
            Shape::Code => CODE@,
            Shape::DataStart => DATA_START@,
            Shape::DataMore => DATA_MORE@,
            Shape::Banner => BANNER@,
        }
    }

    /// The shape that is tried at position `k`.
    pub open spec fn at(k: int) -> Shape {
        if k == 0 {
            Shape::Comment
        } else if k == 1 {
            Shape::Fill
        } else if k == 2 {
            Shape::BlockMove
        } else if k == 3 {
            Shape::Code
        } else if k == 4 {
            Shape::DataStart
        } else if k == 5 {
            Shape::DataMore
        } else {
            Shape::Banner
        }
    }
}

/// The text of group `i`, if the match has such a group and it took part.
pub open spec fn group(g: Seq<Option<Seq<char>>>, i: int) -> Option<Seq<char>> {
    if 0 <= i < g.len() {
        g[i]
    } else {
        None
    }
}

/// The address that `BB:AAAA` denotes.
pub open spec fn address_of(t: Seq<char>) -> Option<u64> {
    hex_u64(without(t, ':'))
}

/// `t` without its first character.
pub open spec fn after_first(t: Seq<char>) -> Seq<char> {
    if t.len() == 0 {
        t
    } else {
        t.subrange(1, t.len() as int)
    }
}

/// The comment of an instruction: what follows the semicolon.
pub open spec fn code_comment(g: Option<Seq<char>>) -> Option<Seq<char>> {
    match g {
        Some(t) => Some(after_first(t)),
        None => None,
    }
}

/// The comment of a data line: what follows the list, trimmed, if it is
/// longer than one character.
pub open spec fn data_comment(g: Option<Seq<char>>) -> Option<Seq<char>> {
    match g {
        Some(t) => if t.len() > 1 {
            Some(trimmed(t))
        } else {
            None
        },
        None => None,
    }
}

/// The bank of an address as a byte.
pub open spec fn bank_byte(address: u64) -> u8 {
    ((address >> 16) & 0xFF) as u8
}

/// An address moved into the upper half of its bank, where the ROM is, if
/// it is in the lower half.
pub open spec fn in_rom(a: u64) -> u64 {
    if (a & 0xFFFF) < 0x8000 {
        a | 0x8000
    } else {
        a
    }
}

/// The values that one item of a data list holds. The width of a value
/// follows from the number of its digits: two digits are a byte, four a
/// word, six a long, and eight are two words, of which the first holds the
/// first two digits and the second the next two.
pub open spec fn item_values(p: Seq<char>) -> Result<Seq<DataVal>, ParseError> {
    if p.len() == 2 {
        match hex_within(p, 0xFF) {
            Some(v) => Ok(seq![DataVal::DB(v as u8)]),
            None => Err(ParseError::Number),
        }
    } else if p.len() == 4 {
        match hex_within(p, 0xFFFF) {
            Some(v) => Ok(seq![DataVal::DW(v as u16)]),
            None => Err(ParseError::Number),
        }
    } else if p.len() == 6 {
        match hex_within(p, 0xFFFF_FFFF) {
            Some(v) => Ok(seq![DataVal::DL(v as u32)]),
            None => Err(ParseError::Number),
        }
    } else if p.len() == 8 {
        match (hex_within(p.subrange(0, 2), 0xFFFF), hex_within(p.subrange(2, 4), 0xFFFF)) {
            (Some(a), Some(b)) => Ok(seq![DataVal::DW(a as u16), DataVal::DW(b as u16)]),
            _ => Err(ParseError::Number),
        }
    } else {
        Err(ParseError::DataWidth)
    }
}

/// The values of the first `n` of the pieces of a data list. A piece is
/// trimmed, and an empty one holds nothing.
pub open spec fn values_upto(pieces: Seq<Seq<char>>, n: int) -> Result<Seq<DataVal>, ParseError>
    decreases n,
{
    if n <= 0 || n > pieces.len() {
        Ok(Seq::empty())
    } else {
        match values_upto(pieces, n - 1) {
            Err(e) => Err(e),
            Ok(before) => if trimmed(pieces[n - 1]).len() == 0 {
                Ok(before)
            } else {
                match item_values(trimmed(pieces[n - 1])) {
                    Ok(vs) => Ok(before + vs),
                    Err(e) => Err(e),
                }
            },
        }
    }
}

/// The values of a data list: its items are separated by commas.
pub open spec fn list_values(list: Seq<char>) -> Result<Seq<DataVal>, ParseError> {
    values_upto(split(list, ','), split(list, ',').len() as int)
}

/// The operand that the bytes after the opcode byte hold.
pub open spec fn operand_of(bytes: Seq<u8>) -> ArgType {
    if bytes.len() == 2 {
        ArgType::Address(bytes[1] as u64)
    } else if bytes.len() == 3 {
        ArgType::Address(word_of(bytes[1], bytes[2]) as u64)
    } else if bytes.len() == 4 {
        ArgType::Address(long_of(bytes[1], bytes[2], bytes[3]) as u64)
    } else {
        ArgType::NoArg
    }
}

/// The number an operand holds; zero where there is none.
pub open spec fn operand_value(arg: ArgType) -> u64 {
    match arg {
        ArgType::Address(a) => a,
        _ => 0,
    }
}

/// The data bank of an instruction: the bank of the effective address that
/// the trace gives in brackets, if it gives one with a bank and the low 16
/// bits of the operand are above 0x8000, else the bank of the instruction.
pub open spec fn data_bank(ea: Option<Seq<char>>, arg: ArgType, address: u64) -> Result<
    u8,
    ParseError,
> {
    match ea {
        Some(t) => if t.contains(':') && (operand_value(arg) & 0xFFFF) > 0x8000 {
            if t.len() < 4 {
                Err(ParseError::Groups)
            } else {
                match hex_within(t.subrange(2, 4), 0xFF) {
                    Some(b) => Ok(b as u8),
                    None => Err(ParseError::Number),
                }
            }
        } else {
            Ok(bank_byte(address))
        },
        None => Ok(bank_byte(address)),
    }
}

/// What a comment line is read as.
pub open spec fn comment_parsed(g: Seq<Option<Seq<char>>>) -> Parsed {
    match group(g, 1) {
        Some(t) => Ok((None, LineView::Comment(";"@ + t))),
        None => Err(ParseError::Groups),
    }
}

/// What a fill directive is read as: a comment that holds the directives
/// for the pad byte and the address to pad to.
pub open spec fn fill_parsed(g: Seq<Option<Seq<char>>>) -> Parsed {
    match (group(g, 2), group(g, 3)) {
        (Some(a), Some(b)) => match (hex_u64(a), hex_within(b, 0xFF)) {
            (Some(target), Some(pad)) => Ok(
                (
                    None,
                    LineView::Comment(
                        "padbyte $"@ + hex_upper(pad as nat, 2) + " : pad $"@ + hex_upper(
                            target as nat,
                            6,
                        ),
                    ),
                ),
            ),
            _ => Err(ParseError::Number),
        },
        _ => Err(ParseError::Groups),
    }
}

/// What a block move is read as: an instruction of length three whose
/// operand holds the two bytes after the opcode byte. It carries no
/// comment.
pub open spec fn block_move_parsed(g: Seq<Option<Seq<char>>>) -> Parsed {
    match (group(g, 1), group(g, 2)) {
        (Some(a), Some(b)) => match (address_of(a), byte_list(b)) {
            (Some(address), Some(bytes)) => if bytes.len() < 3 {
                Err(ParseError::OperandLength)
            } else {
                Ok(
                    (
                        Some(address),
                        LineView::Code(
                            CodeView {
                                address,
                                opcode: opcode_table(bytes[0]),
                                arg: ArgType::BlockMove(bytes[1], bytes[2]),
                                comment: None,
                                length: 3,
                                db: bank_byte(address),
                            },
                        ),
                    ),
                )
            },
            _ => Err(ParseError::Number),
        },
        _ => Err(ParseError::Groups),
    }
}

/// What an instruction is read as. The opcode byte decides the mnemonic and
/// the addressing mode, whatever the line says. A `BRK` without operand is
/// read as one byte of data.
pub open spec fn code_parsed(g: Seq<Option<Seq<char>>>) -> Parsed {
    match (group(g, 1), group(g, 2)) {
        (Some(a), Some(b)) => match (address_of(a), byte_list(b)) {
            (Some(address), Some(bytes)) => if bytes.len() < 1 || bytes.len() > 4 {
                Err(ParseError::OperandLength)
            } else {
                let arg = operand_of(bytes);
                let opcode = opcode_table(bytes[0]);
                let comment = code_comment(group(g, 10));
                match data_bank(group(g, 8), arg, address) {
                    Err(e) => Err(e),
                    Ok(db) => if opcode.name == Mnemonic::BRK && bytes.len() == 1 {
                        Ok(
                            (
                                Some(address),
                                LineView::Data(
                                    DataView { address, data: seq![DataVal::DB(0)], comment },
                                ),
                            ),
                        )
                    } else {
                        Ok(
                            (
                                Some(address),
                                LineView::Code(
                                    CodeView {
                                        address,
                                        opcode,
                                        arg,
                                        comment,
                                        length: (bytes.len() - 1) as u8,
                                        db,
                                    },
                                ),
                            ),
                        )
                    },
                }
            },
            _ => Err(ParseError::Number),
        },
        _ => Err(ParseError::Groups),
    }
}

/// What a line that starts data is read as.
pub open spec fn data_start_parsed(g: Seq<Option<Seq<char>>>) -> Parsed {
    match (group(g, 1), group(g, 3), group(g, 4)) {
        (Some(a), Some(_), Some(list)) => match address_of(a) {
            Some(address) => match list_values(list) {
                Ok(data) => Ok(
                    (
                        Some(address),
                        LineView::Data(
                            DataView { address, data, comment: data_comment(group(g, 9)) },
                        ),
                    ),
                ),
                Err(e) => Err(e),
            },
            None => Err(ParseError::Number),
        },
        _ => Err(ParseError::Groups),
    }
}

/// What a line that goes on with data is read as: data at the address that
/// the parser remembers, or, where the list is at most one character long,
/// a comment that holds it.
pub open spec fn data_more_parsed(g: Seq<Option<Seq<char>>>, last_pc: u64) -> Parsed {
    match group(g, 1) {
        Some(list) => if trimmed(list).len() > 1 {
            match list_values(list) {
                Ok(data) => Ok(
                    (
                        Some(last_pc),
                        LineView::Data(
                            DataView { address: last_pc, data, comment: data_comment(group(g, 6)) },
                        ),
                    ),
                ),
                Err(e) => Err(e),
            }
        } else {
            Ok((None, LineView::Comment(trimmed(list))))
        },
        None => Err(ParseError::Groups),
    }
}

/// What a line of the shape `shape` is read as, given the groups of its
/// match.
pub open spec fn shape_parsed(
    shape: Shape,
    g: Seq<Option<Seq<char>>>,
    line: Seq<char>,
    state: ParserStateView,
) -> Parsed {
    match shape {
        Shape::Comment => comment_parsed(g),
        Shape::Fill => fill_parsed(g),
        Shape::BlockMove => block_move_parsed(g),
        Shape::Code => code_parsed(g),
        Shape::DataStart => data_start_parsed(g),
        Shape::DataMore => data_more_parsed(g, state.last_pc),
        Shape::Banner => Ok((None, LineView::Comment(";"@ + line))),
    }
}

/// What the parser remembers after a line of the shape `shape`. Data that
/// was read moves the remembered address behind its last byte, into the ROM
/// half of the bank, and a line that starts data leaves its directive.
/// Nothing changes otherwise.
pub open spec fn shape_state(
    shape: Shape,
    g: Seq<Option<Seq<char>>>,
    line: Seq<char>,
    state: ParserStateView,
) -> ParserStateView {
    match (shape, shape_parsed(shape, g, line, state)) {
        (Shape::DataStart, Ok((_, LineView::Data(d)))) => ParserStateView {
            last_data_cmd: match group(g, 3) {
                Some(t) => t,
                None => state.last_data_cmd,
            },
            last_pc: in_rom(d.pc_of(d.data.len() as int)),
        },
        (Shape::DataMore, Ok((_, LineView::Data(d)))) => ParserStateView {
            last_data_cmd: state.last_data_cmd,
            last_pc: in_rom(d.pc_of(d.data.len() as int)),
        },
        _ => state,
    }
}

/// What `line` is read as when the shapes from position `k` on are tried:
/// the first shape whose pattern matches decides, and a line of no shape is
/// a comment that holds the line.
pub open spec fn parsed_from(line: Seq<char>, state: ParserStateView, k: int) -> Parsed
    decreases 7 - k,
{
    if k < 0 || k >= 7 {
        Ok((None, LineView::Comment(line)))
    } else if !pattern_accepted(Shape::at(k).pattern()) {
        Err(ParseError::Pattern)
    } else {
        match pattern_groups(Shape::at(k).pattern(), line) {
            Some(g) => shape_parsed(Shape::at(k), g, line, state),
            None => parsed_from(line, state, k + 1),
        }
    }
}

/// What the parser remembers after `line`, when the shapes from position
/// `k` on are tried.
pub open spec fn state_from(line: Seq<char>, state: ParserStateView, k: int) -> ParserStateView
    decreases 7 - k,
{
    if k < 0 || k >= 7 {
        state
    } else if !pattern_accepted(Shape::at(k).pattern()) {
        state
    } else {
        match pattern_groups(Shape::at(k).pattern(), line) {
            Some(g) => shape_state(Shape::at(k), g, line, state),
            None => state_from(line, state, k + 1),
        }
    }
}

/// The characters of group `i`.
pub fn group_chars(groups: &Vec<Option<String>>, i: usize) -> (r: Option<Vec<char>>)
    ensures
        match r {
            Some(v) => group(group_views(groups@), i as int) == Some(v@),
            None => group(group_views(groups@), i as int) is None,
        },
{
    if i < groups.len() {
        match &groups[i] {
            Some(s) => Some(to_chars(s.as_str())),
            None => None,
        }
    } else {
        None
    }
}

/// Reads an address of the form `BB:AAAA`.
pub fn read_address(t: &Vec<char>) -> (r: Option<u64>)
    ensures
        r == address_of(t@),
{
    let digits = remove_char(t, ':');
    assert(digits@.subrange(0, digits@.len() as int) =~= digits@);
    crate::text::parse_hex(&digits, 0, digits.len())
}

/// Group `i` itself.
pub fn group_str(groups: &Vec<Option<String>>, i: usize) -> (r: Option<&String>)
    ensures
        match r {
            Some(s) => group(group_views(groups@), i as int) == Some(s@),
            None => group(group_views(groups@), i as int) is None,
        },
{
    if i < groups.len() {
        match &groups[i] {
            Some(s) => Some(s),
            None => None,
        }
    } else {
        None
    }
}

/// The string that holds the characters `lo..hi` of `s`.
pub fn slice_string(s: &str, lo: usize, hi: usize) -> (r: String)
    requires
        lo <= hi <= s@.len(),
    ensures
        r@ == s@.subrange(lo as int, hi as int),
{
    String::from_str(s.substring_char(lo, hi))
}

/// A string without leading and trailing white space.
pub fn trim_string(s: &str) -> (r: String)
    ensures
        r@ == trimmed(s@),
{
    let chars = to_chars(s);
    let a: usize = trim_start(&chars, 0, chars.len());
    let b: usize = trim_end(&chars, a, chars.len());
    slice_string(s, a, b)
}

/// The comment that follows an instruction.
pub fn read_code_comment(groups: &Vec<Option<String>>, i: usize) -> (r: Option<String>)
    ensures
        opt_text(r) == code_comment(group(group_views(groups@), i as int)),
{
    match group_str(groups, i) {
        Some(t) => {
            let n: usize = t.as_str().unicode_len();
            if n == 0 {
                Some(t.clone())
            } else {
                Some(slice_string(t.as_str(), 1, n))
            }
        },
        None => None,
    }
}

/// The comment that follows a data list.
pub fn read_data_comment(groups: &Vec<Option<String>>, i: usize) -> (r: Option<String>)
    ensures
        opt_text(r) == data_comment(group(group_views(groups@), i as int)),
{
    match group_str(groups, i) {
        Some(t) => {
            if t.as_str().unicode_len() > 1 {
                Some(trim_string(t.as_str()))
            } else {
                None
            }
        },
        None => None,
    }
}

/// Computes `bank_byte`.
pub fn bank_of_address(address: u64) -> (r: u8)
    ensures
        r == bank_byte(address),
{
    let b: u64 = (address >> 16) & 0xFF;
    assert(b < 0x100) by (bit_vector)
        requires
            b == (address >> 16) & 0xFF,
    ;
    b as u8
}

/// Computes `item_values`, appending to `out`.
pub fn read_item(p: &Vec<char>, out: &mut Vec<DataVal>) -> (r: Result<(), ParseError>)
    ensures
        match r {
            Ok(_) => item_values(p@) is Ok && final(out)@ == old(out)@ + item_values(p@)->Ok_0,
            Err(e) => item_values(p@) == Err::<Seq<DataVal>, ParseError>(e) && final(out)@ == old(
                out,
            )@,
        },
{
    let n: usize = p.len();
    assert(p@.subrange(0, n as int) =~= p@);
    if n == 2 {
        match read_hex(p, 0xFF) {
            Some(v) => {
                out.push(DataVal::DB(v as u8));
                Ok(())
            },
            None => Err(ParseError::Number),
        }
    } else if n == 4 {
        match read_hex(p, 0xFFFF) {
            Some(v) => {
                out.push(DataVal::DW(v as u16));
                Ok(())
            },
            None => Err(ParseError::Number),
        }
    } else if n == 6 {
        match read_hex(p, 0xFFFF_FFFF) {
            Some(v) => {
                out.push(DataVal::DL(v as u32));
                Ok(())
            },
            None => Err(ParseError::Number),
        }
    } else if n == 8 {
        let first = crate::token::copy_range(p, 0, 2);
        let second = crate::token::copy_range(p, 2, 4);
        match (read_hex(&first, 0xFFFF), read_hex(&second, 0xFFFF)) {
            (Some(a), Some(b)) => {
                out.push(DataVal::DW(a as u16));
                out.push(DataVal::DW(b as u16));
                assert(out@ =~= old(out)@ + seq![DataVal::DW(a as u16), DataVal::DW(b as u16)]);
                Ok(())
            },
            _ => Err(ParseError::Number),
        }
    } else {
        Err(ParseError::DataWidth)
    }
}

/// Computes `list_values`.
pub fn read_list(list: &Vec<char>) -> (r: Result<Vec<DataVal>, ParseError>)
    ensures
        match r {
            Ok(v) => list_values(list@) == Ok::<Seq<DataVal>, ParseError>(v@),
            Err(e) => list_values(list@) == Err::<Seq<DataVal>, ParseError>(e),
        },
{
    let pieces = cut(list, ',');
    let mut out: Vec<DataVal> = Vec::new();
    let mut i: usize = 0;
    while i < pieces.len()
        invariant
            i <= pieces.len(),
            piece_views(pieces@) == split(list@, ','),
            values_upto(piece_views(pieces@), i as int) == Ok::<Seq<DataVal>, ParseError>(out@),
        decreases pieces.len() - i,
    {
        assert(piece_views(pieces@)[i as int] == pieces@[i as int]@);
        let item = trim(&pieces[i]);
        if item.len() > 0 {
            match read_item(&item, &mut out) {
                Ok(_) => {},
                Err(e) => {
                    proof {
                        lemma_values_fail(
                            piece_views(pieces@),
                            i as int + 1,
                            pieces@.len() as int,
                            e,
                        );
                    }
                    return Err(e);
                },
            }
        }
        i = i + 1;
    }
    Ok(out)
}

/// Once an item cannot be read, the list cannot be read, for the same
/// reason.
pub proof fn lemma_values_fail(pieces: Seq<Seq<char>>, k: int, n: int, e: ParseError)
    requires
        0 <= k <= n <= pieces.len(),
        values_upto(pieces, k) == Err::<Seq<DataVal>, ParseError>(e),
    ensures
        values_upto(pieces, n) == Err::<Seq<DataVal>, ParseError>(e),
    decreases n - k,
{
    if k < n {
        lemma_values_fail(pieces, k, n - 1, e);
    }
}

impl Data {
    /// The address after the last value.
    pub fn end_pc(&self) -> (r: u64)
        ensures
            r == self@.pc_of(self@.data.len() as int),
    {
        let mut pc: u64 = self.address;
        let mut i: usize = 0;
        while i < self.data.len()
            invariant
                i <= self.data.len(),
                pc == self@.pc_of(i as int),
            decreases self.data.len() - i,
        {
            pc = advance(pc, self.data[i].len());
            i = i + 1;
        }
        pc
    }
}

/// Computes `in_rom`.
pub fn into_rom(a: u64) -> (r: u64)
    ensures
        r == in_rom(a),
{
    if (a & 0xFFFF) < 0x8000 {
        a | 0x8000
    } else {
        a
    }
}

/// Computes `operand_of`.
pub fn read_operand(bytes: &Vec<u8>) -> (r: ArgType)
    ensures
        r == operand_of(bytes@),
{
    let n: usize = bytes.len();
    if n == 2 {
        ArgType::Address(bytes[1] as u64)
    } else if n == 3 {
        let tail = slice_subrange(bytes.as_slice(), 1, 3);
        ArgType::Address(read_u16(tail) as u64)
    } else if n == 4 {
        let tail = slice_subrange(bytes.as_slice(), 1, 4);
        ArgType::Address(read_u24(tail) as u64)
    } else {
        ArgType::NoArg
    }
}

/// Whether `c` occurs in `t`.
pub fn has_char(t: &Vec<char>, c: char) -> (r: bool)
    ensures
        r == t@.contains(c),
{
    let mut i: usize = 0;
    while i < t.len()
        invariant
            i <= t.len(),
            forall|j: int| 0 <= j < i ==> t@[j] != c,
        decreases t.len() - i,
    {
        if t[i] == c {
            return true;
        }
        i = i + 1;
    }
    false
}

/// Computes `data_bank`.
pub fn read_data_bank(groups: &Vec<Option<String>>, i: usize, arg: ArgType, address: u64) -> (r:
    Result<u8, ParseError>)
    ensures
        r == data_bank(group(group_views(groups@), i as int), arg, address),
{
    let value: u64 = match arg {
        ArgType::Address(a) => a,
        _ => 0,
    };
    match group_chars(groups, i) {
        Some(t) => {
            if has_char(&t, ':') && (value & 0xFFFF) > 0x8000 {
                if t.len() < 4 {
                    Err(ParseError::Groups)
                } else {
                    let digits = crate::token::copy_range(&t, 2, 4);
                    match read_hex(&digits, 0xFF) {
                        Some(b) => Ok(b as u8),
                        None => Err(ParseError::Number),
                    }
                }
            } else {
                Ok(bank_of_address(address))
            }
        },
        None => Ok(bank_of_address(address)),
    }
}

impl Line {
    /// The line as it is written. A label that is written inside a data
    /// line is marked as written.
    pub fn to_string(&self, config: &Config, labels: &mut HashMap<u64, Label>) -> (r: String)
        requires
            self@.renderable(),
        ensures
            r@ == line_text(config@, self@, label_map(old(labels)@)),
            label_map(final(labels)@) == line_marks(self@, label_map(old(labels)@)),
    {
        match self {
            Line::Comment(s) => s.clone(),
            Line::Data(d) => d.to_string(config, labels),
            Line::Code(c) => c.to_string(config, labels),
        }
    }

    /// Computes `comment_parsed`.
    fn read_comment(groups: &Vec<Option<String>>) -> (r: Result<(Option<u64>, Line), ParseError>)
        ensures
            parsed_view(r) == comment_parsed(group_views(groups@)),
    {
        if 1 < groups.len() {
            match &groups[1] {
                Some(t) => {
                    let mut text = String::from_str(";");
                    text.append(t.as_str());
                    Ok((None, Line::Comment(text)))
                },
                None => Err(ParseError::Groups),
            }
        } else {
            Err(ParseError::Groups)
        }
    }

    /// Computes `fill_parsed`.
    fn read_fill(groups: &Vec<Option<String>>) -> (r: Result<(Option<u64>, Line), ParseError>)
        ensures
            parsed_view(r) == fill_parsed(group_views(groups@)),
    {
        let a = match group_chars(groups, 2) {
            Some(a) => a,
            None => {
                return Err(ParseError::Groups);
            },
        };
        let b = match group_chars(groups, 3) {
            Some(b) => b,
            None => {
                return Err(ParseError::Groups);
            },
        };
        assert(a@.subrange(0, a@.len() as int) =~= a@);
        let target: u64 = match crate::text::parse_hex(&a, 0, a.len()) {
            Some(v) => v,
            None => {
                return Err(ParseError::Number);
            },
        };
        let pad: u64 = match read_hex(&b, 0xFF) {
            Some(v) => v,
            None => {
                return Err(ParseError::Number);
            },
        };
        let mut text = String::from_str("padbyte $");
        push_hex(&mut text, pad, 2);
        text.append(" : pad $");
        push_hex(&mut text, target, 6);
        Ok((None, Line::Comment(text)))
    }

    /// Computes `block_move_parsed`.
    fn read_block_move(groups: &Vec<Option<String>>) -> (r: Result<(Option<u64>, Line), ParseError>)
        ensures
            parsed_view(r) == block_move_parsed(group_views(groups@)),
    {
        let a = match group_chars(groups, 1) {
            Some(a) => a,
            None => {
                return Err(ParseError::Groups);
            },
        };
        let b = match group_chars(groups, 2) {
            Some(b) => b,
            None => {
                return Err(ParseError::Groups);
            },
        };
        let address: u64 = match read_address(&a) {
            Some(v) => v,
            None => {
                return Err(ParseError::Number);
            },
        };
        let bytes = match read_bytes(&b) {
            Some(v) => v,
            None => {
                return Err(ParseError::Number);
            },
        };
        if bytes.len() < 3 {
            return Err(ParseError::OperandLength);
        }
        Ok(
            (
                Some(address),
                Line::Code(
                    Code {
                        address,
                        opcode: Opcode::from_byte(bytes[0]),
                        arg: ArgType::BlockMove(bytes[1], bytes[2]),
                        comment: None,
                        length: 3,
                        db: bank_of_address(address),
                    },
                ),
            ),
        )
    }

    /// Computes `code_parsed`.
    fn read_code(groups: &Vec<Option<String>>) -> (r: Result<(Option<u64>, Line), ParseError>)
        ensures
            parsed_view(r) == code_parsed(group_views(groups@)),
    {
        let a = match group_chars(groups, 1) {
            Some(a) => a,
            None => {
                return Err(ParseError::Groups);
            },
        };
        let b = match group_chars(groups, 2) {
            Some(b) => b,
            None => {
                return Err(ParseError::Groups);
            },
        };
        let address: u64 = match read_address(&a) {
            Some(v) => v,
            None => {
                return Err(ParseError::Number);
            },
        };
        let bytes = match read_bytes(&b) {
            Some(v) => v,
            None => {
                return Err(ParseError::Number);
            },
        };
        if bytes.len() < 1 || bytes.len() > 4 {
            return Err(ParseError::OperandLength);
        }
        let arg = read_operand(&bytes);
        let opcode = Opcode::from_byte(bytes[0]);
        let comment = read_code_comment(groups, 10);
        let db: u8 = match read_data_bank(groups, 8, arg, address) {
            Ok(db) => db,
            Err(e) => {
                return Err(e);
            },
        };
        if opcode.name == Mnemonic::BRK && bytes.len() == 1 {
            let mut data: Vec<DataVal> = Vec::new();
            data.push(DataVal::DB(0));
            assert(data@ =~= seq![DataVal::DB(0)]);
            Ok((Some(address), Line::Data(Data { address, data, comment })))
        } else {
            Ok(
                (
                    Some(address),
                    Line::Code(
                        Code { address, opcode, arg, comment, length: (bytes.len() - 1) as u8, db },
                    ),
                ),
            )
        }
    }

    /// Computes `data_start_parsed`, and remembers where the data ends.
    fn read_data_start(groups: &Vec<Option<String>>, state: &mut ParserState) -> (r: Result<
        (Option<u64>, Line),
        ParseError,
    >)
        ensures
            parsed_view(r) == data_start_parsed(group_views(groups@)),
            final(state)@ == shape_state(
                Shape::DataStart,
                group_views(groups@),
                Seq::empty(),
                old(state)@,
            ),
    {
        let a = match group_chars(groups, 1) {
            Some(a) => a,
            None => {
                return Err(ParseError::Groups);
            },
        };
        let directive = match group_str(groups, 3) {
            Some(d) => d,
            None => {
                return Err(ParseError::Groups);
            },
        };
        let list = match group_chars(groups, 4) {
            Some(l) => l,
            None => {
                return Err(ParseError::Groups);
            },
        };
        let address: u64 = match read_address(&a) {
            Some(v) => v,
            None => {
                return Err(ParseError::Number);
            },
        };
        let data = match read_list(&list) {
            Ok(v) => v,
            Err(e) => {
                return Err(e);
            },
        };
        let comment = read_data_comment(groups, 9);
        let d = Data { address, data, comment };
        state.last_data_cmd = directive.clone();
        state.last_pc = into_rom(d.end_pc());
        Ok((Some(address), Line::Data(d)))
    }

    /// Computes `data_more_parsed`, and remembers where the data ends.
    fn read_data_more(groups: &Vec<Option<String>>, state: &mut ParserState) -> (r: Result<
        (Option<u64>, Line),
        ParseError,
    >)
        ensures
            parsed_view(r) == data_more_parsed(group_views(groups@), old(state)@.last_pc),
            final(state)@ == shape_state(
                Shape::DataMore,
                group_views(groups@),
                Seq::empty(),
                old(state)@,
            ),
    {
        let text = match group_str(groups, 1) {
            Some(l) => l,
            None => {
                return Err(ParseError::Groups);
            },
        };
        let list = to_chars(text.as_str());
        let body = trim(&list);
        if body.len() > 1 {
            let data = match read_list(&list) {
                Ok(v) => v,
                Err(e) => {
                    return Err(e);
                },
            };
            let comment = read_data_comment(groups, 6);
            let address: u64 = state.last_pc;
            let d = Data { address, data, comment };
            state.last_pc = into_rom(d.end_pc());
            Ok((Some(address), Line::Data(d)))
        } else {
            Ok((None, Line::Comment(trim_string(text.as_str()))))
        }
    }

    /// Reads a line of the shape `shape` from the groups of its match.
    pub fn from_groups(
        shape: Shape,
        groups: &Vec<Option<String>>,
        line: &str,
        state: &mut ParserState,
    ) -> (r: Result<(Option<u64>, Line), ParseError>)
        ensures
            parsed_view(r) == shape_parsed(shape, group_views(groups@), line@, old(state)@),
            final(state)@ == shape_state(shape, group_views(groups@), line@, old(state)@),
    {
        match shape {
            Shape::Comment => Line::read_comment(groups),
            Shape::Fill => Line::read_fill(groups),
            Shape::BlockMove => Line::read_block_move(groups),
            Shape::Code => Line::read_code(groups),
            Shape::DataStart => Line::read_data_start(groups, state),
            Shape::DataMore => Line::read_data_more(groups, state),
            Shape::Banner => {
                let mut text = String::from_str(";");
                text.append(line);
                Ok((None, Line::Comment(text)))
            },
        }
    }

    /// Reads one line of a trace. The shapes of the grammar are tried in
    /// their order, and the first whose pattern matches decides what the
    /// line is.
    pub fn parse(line: &str, _config: &Config, state: &mut ParserState) -> (r: Result<
        (Option<u64>, Line),
        ParseError,
    >)
        ensures
            parsed_view(r) == parsed_from(line@, old(state)@, 0),
            final(state)@ == state_from(line@, old(state)@, 0),
    {
        let mut k: usize = 0;
        while k < 7
            invariant
                k <= 7,
                state@ == old(state)@,
                parsed_from(line@, state@, k as int) == parsed_from(line@, state@, 0),
                state_from(line@, state@, k as int) == state_from(line@, state@, 0),
            decreases 7 - k,
        {
            let shape = shape_at(k);
            match find(shape_pattern(shape), line) {
                Err(_) => {
                    return Err(ParseError::Pattern);
                },
                Ok(found) => {
                    match found {
                        Some(groups) => {
                            return Line::from_groups(shape, &groups, line, state);
                        },
                        None => {},
                    }
                },
            }
            k = k + 1;
        }
        Ok((None, Line::Comment(String::from_str(line))))
    }
}

/// Computes `Shape::at`.
pub fn shape_at(k: usize) -> (r: Shape)
    ensures
        r == Shape::at(k as int),
{
    if k == 0 {
        Shape::Comment
    } else if k == 1 {
        Shape::Fill
    } else if k == 2 {
        Shape::BlockMove
    } else if k == 3 {
        Shape::Code
    } else if k == 4 {
        Shape::DataStart
    } else if k == 5 {
        Shape::DataMore
    } else {
        Shape::Banner
    }
}

/// The text of `Shape::pattern`.
pub fn shape_pattern(shape: Shape) -> (r: &'static str)
    ensures
        r@ == shape.pattern(),
{
    match shape {
        Shape::Comment => COMMENT,
        Shape::Fill => FILL,
        Shape::BlockMove => BLOCK_MOVE,
        Shape::Code => CODE,
        Shape::DataStart => DATA_START,
        Shape::DataMore => DATA_MORE,
        Shape::Banner => BANNER,
    }
}

} // verus!
