//! From the lines of the trace files to the text of the output files.

use vstd::prelude::*;
use vstd::string::*;
use std::collections::BTreeMap;
use std::collections::HashMap;
use crate::code::{ArgType, Code, CodeView};
use crate::config::{opt_text, Config, ConfigView};
use crate::data::{Data, DataVal, DataView};
use crate::label::{assigned_at, label_map, line_map, mark_assigned, Label, LabelType, LabelView};
use crate::line::{
    bank_byte, bank_of_address, group, group_str, line_marks, line_text, line_views, parsed_from,
    state_from, Line, LineView, ParseError, ParserState, ParserStateView,
};
use crate::order::{entry_at, in_order, keys_in_order, lists_in_order, put_entry, take_entry};
use crate::pattern::{find, group_views, pattern_accepted, pattern_groups, FILE_NAME};
use crate::text::{hex_upper, push_hex, to_chars, trimmed};
use crate::token::{hex_within, read_hex, trim};

verus! {

/// The banks that the name of a trace file gives, from the groups of its
/// match: the first bank, and the last bank where the name has one, else
/// the first bank again.
pub open spec fn banks_named(g: Seq<Option<Seq<char>>>) -> Result<(u8, u8), ParseError> {
    match group(g, 1) {
        Some(a) => match hex_within(a, 0xFF) {
            Some(first) => match group(g, 3) {
                Some(c) => if trimmed(c).len() > 0 {
                    match hex_within(c, 0xFF) {
                        Some(last) => Ok((first as u8, last as u8)),
                        None => Err(ParseError::Number),
                    }
                } else {
                    Ok((first as u8, first as u8))
                },
                None => Ok((first as u8, first as u8)),
            },
            None => Err(ParseError::Number),
        },
        None => Err(ParseError::Groups),
    }
}

/// The banks of a trace file by its name; none for a name that is not the
/// name of a trace file.
pub open spec fn bank_group_of(name: Seq<char>) -> Result<Option<(u8, u8)>, ParseError> {
    if !pattern_accepted(FILE_NAME@) {
        Err(ParseError::Pattern)
    } else {
        match pattern_groups(FILE_NAME@, name) {
            Some(g) => match banks_named(g) {
                Ok(b) => Ok(Some(b)),
                Err(e) => Err(e),
            },
            None => Ok(None),
        }
    }
}

/// Computes `banks_named`.
pub fn read_bank_group(groups: &Vec<Option<String>>) -> (r: Result<(u8, u8), ParseError>)
    ensures
        r == banks_named(group_views(groups@)),
{
    let a = match group_str(groups, 1) {
        Some(a) => to_chars(a.as_str()),
        None => {
            return Err(ParseError::Groups);
        },
    };
    let first: u8 = match read_hex(&a, 0xFF) {
        Some(v) => v as u8,
        None => {
            return Err(ParseError::Number);
        },
    };
    match group_str(groups, 3) {
        Some(c) => {
            let chars = to_chars(c.as_str());
            if trim(&chars).len() > 0 {
                match read_hex(&chars, 0xFF) {
                    Some(last) => Ok((first, last as u8)),
                    None => Err(ParseError::Number),
                }
            } else {
                Ok((first, first))
            }
        },
        None => Ok((first, first)),
    }
}

/// The banks of a trace file by its name.
pub fn bank_group(name: &str) -> (r: Result<Option<(u8, u8)>, ParseError>)
    ensures
        r == bank_group_of(name@),
{
    match find(FILE_NAME, name) {
        Err(_) => Err(ParseError::Pattern),
        Ok(found) => match found {
            Some(groups) => match read_bank_group(&groups) {
                Ok(b) => Ok(Some(b)),
                Err(e) => Err(e),
            },
            None => Ok(None),
        },
    }
}

/// Where reading a trace file stands: the lines read so far, by the
/// address each belongs to, the address of the last line that had one, and
/// what the parser remembers.
pub struct Progress {
    pub lines: Map<u64, Seq<LineView>>,
    pub pc: u64,
    pub state: ParserStateView,
}

/// A line that could not be read: its position in the file, and why.
#[derive(Debug, Clone, Copy, PartialEq, Eq, Structural)]
pub struct Failure {
    pub line: usize,
    pub error: ParseError,
}

/// `m` with `line` added to the lines at `at`.
pub open spec fn with_line(m: Map<u64, Seq<LineView>>, at: u64, line: LineView) -> Map<
    u64,
    Seq<LineView>,
> {
    m.insert(
        at,
        if m.contains_key(at) {
            m[at].push(line)
        } else {
            seq![line]
        },
    )
}

/// Where reading stands after the first `n` of `texts`: each line is read
/// and added at its own address, or at the address of the line before it
/// where it has none. There is nothing beyond a line that cannot be read.
pub open spec fn read_upto(texts: Seq<Seq<char>>, n: int, start: Progress) -> Option<Progress>
    decreases n,
{
    if n <= 0 || n > texts.len() {
        Some(start)
    } else {
        match read_upto(texts, n - 1, start) {
            None => None,
            Some(p) => match parsed_from(texts[n - 1], p.state, 0) {
                Err(_) => None,
                Ok((pc, line)) => {
                    let at = match pc {
                        Some(a) => a,
                        None => p.pc,
                    };
                    Some(
                        Progress {
                            lines: with_line(p.lines, at, line),
                            pc: at,
                            state: state_from(texts[n - 1], p.state, 0),
                        },
                    )
                },
            },
        }
    }
}

/// Where reading the file of a bank starts: at the start of the ROM half of
/// the bank, with nothing remembered.
pub open spec fn start_of(bank: u8, lines: Map<u64, Seq<LineView>>) -> Progress {
    Progress {
        lines,
        pc: 0x00_8000 | ((bank as u64) << 16),
        state: ParserStateView { last_data_cmd: Seq::empty(), last_pc: 0 },
    }
}

/// The texts of a list of strings.
pub open spec fn texts_of(v: Seq<String>) -> Seq<Seq<char>> {
    v.map_values(|s: String| s@)
}

/// Adds `line` to the lines at `at`.
pub fn add_line(lines: &mut BTreeMap<u64, Vec<Line>>, at: u64, line: Line)
    ensures
        line_map(final(lines)@) == with_line(line_map(old(lines)@), at, line@),
{
    let ghost v = line@;
    let mut group: Vec<Line> = match take_entry(lines, at) {
        Some(g) => g,
        None => Vec::new(),
    };
    let ghost before = line_views(group@);
    group.push(line);
    assert(line_views(group@) =~= before.push(v));
    let ghost after = line_views(group@);
    put_entry(lines, at, group);
    assert(line_map(lines@)[at] == after);
    assert(after =~= with_line(line_map(old(lines)@), at, v)[at]);
    assert(line_map(lines@) =~= with_line(line_map(old(lines)@), at, v));
}

/// Reads the lines of the trace file of `bank` into `lines`. Reading stops
/// at the first line that cannot be read; the lines before it are read.
pub fn ingest(
    lines: &mut BTreeMap<u64, Vec<Line>>,
    bank: u8,
    texts: &Vec<String>,
    config: &Config,
) -> (r: Result<(), Failure>)
    ensures
        match r {
            Ok(_) => match read_upto(
                texts_of(texts@),
                texts@.len() as int,
                start_of(bank, line_map(old(lines)@)),
            ) {
                Some(p) => line_map(final(lines)@) == p.lines,
                None => false,
            },
            Err(f) => f.line < texts@.len() && read_upto(
                texts_of(texts@),
                f.line as int + 1,
                start_of(bank, line_map(old(lines)@)),
            ) is None && match read_upto(
                texts_of(texts@),
                f.line as int,
                start_of(bank, line_map(old(lines)@)),
            ) {
                Some(p) => line_map(final(lines)@) == p.lines && parsed_from(
                    texts@[f.line as int]@,
                    p.state,
                    0,
                ) == Err::<(Option<u64>, LineView), ParseError>(f.error),
                None => false,
            },
        },
{
    let ghost start = start_of(bank, line_map(lines@));
    let mut state = ParserState::new();
    let mut pc: u64 = 0x00_8000 | ((bank as u64) << 16);
    let mut i: usize = 0;
    while i < texts.len()
        invariant
            i <= texts.len(),
            start == start_of(bank, line_map(old(lines)@)),
            read_upto(texts_of(texts@), i as int, start) == Some(
                Progress { lines: line_map(lines@), pc, state: state@ },
            ),
        decreases texts.len() - i,
    {
        assert(texts_of(texts@)[i as int] == texts@[i as int]@);
        let ghost before = Progress { lines: line_map(lines@), pc, state: state@ };
        match Line::parse(texts[i].as_str(), config, &mut state) {
            Err(e) => {
                assert(parsed_from(texts@[i as int]@, before.state, 0) == Err::<
                    (Option<u64>, LineView),
                    ParseError,
                >(e));
                assert(read_upto(texts_of(texts@), i as int, start) == Some(before));
                assert(read_upto(texts_of(texts@), i as int + 1, start) is None);
                return Err(Failure { line: i, error: e });
            },
            Ok((at, line)) => {
                pc = match at {
                    Some(a) => a,
                    None => pc,
                };
                add_line(lines, pc, line);
            },
        }
        i = i + 1;
    }
    Ok(())
}

/// The first address of the region that holds the code shared by the enemy
/// banks.
pub const ENEMY_FIRST: u64 = 0xA0_8000;

/// The last address of that region.
pub const ENEMY_LAST: u64 = 0xA0_8686;

/// The banks that the shared code of the enemy banks is copied into.
pub fn enemy_banks() -> (r: Vec<u8>)
    ensures
        r@ == seq![0xA2u8, 0xA3, 0xA4, 0xA5, 0xA6, 0xA7, 0xA8, 0xA9, 0xAA, 0xB2, 0xB3],
{
    let mut out: Vec<u8> = Vec::new();
    out.push(0xA2);
    out.push(0xA3);
    out.push(0xA4);
    out.push(0xA5);
    out.push(0xA6);
    out.push(0xA7);
    out.push(0xA8);
    out.push(0xA9);
    out.push(0xAA);
    out.push(0xB2);
    out.push(0xB3);
    assert(out@ =~= seq![0xA2u8, 0xA3, 0xA4, 0xA5, 0xA6, 0xA7, 0xA8, 0xA9, 0xAA, 0xB2, 0xB3]);
    out
}

/// The address `a` moved into `bank`.
pub open spec fn moved(bank: u8, a: u64) -> u64 {
    ((bank as u64) << 16) | (a & 0xFFFF)
}

/// The copy of a line for the address `at` in `bank`. A copied instruction
/// stands at `at` with `bank` as its data bank, and its operand is moved
/// into `bank` if it is three bytes long and `at` lies more than 0x804D into
/// the bank. Copied data stands at its own address moved into `bank`.
pub open spec fn copied_line(line: LineView, at: u64, bank: u8) -> LineView {
    match line {
        LineView::Code(c) => LineView::Code(
            CodeView {
                address: at,
                opcode: c.opcode,
                arg: match c.arg {
                    ArgType::Address(a) => if c.length == 3 && (at & 0xFFFF) > 0x804D {
                        ArgType::Address(moved(bank, a))
                    } else {
                        ArgType::Address(a)
                    },
                    other => other,
                },
                comment: c.comment,
                length: c.length,
                db: bank,
            },
        ),
        LineView::Data(d) => LineView::Data(
            DataView { address: moved(bank, d.address), data: d.data, comment: d.comment },
        ),
        LineView::Comment(t) => LineView::Comment(t),
    }
}

/// The copies of the first `n` of `lines`.
pub open spec fn copied_lines(lines: Seq<LineView>, at: u64, bank: u8, n: int) -> Seq<LineView>
    decreases n,
{
    if n <= 0 || n > lines.len() {
        Seq::empty()
    } else {
        copied_lines(lines, at, bank, n - 1).push(copied_line(lines[n - 1], at, bank))
    }
}

/// The copies of the lines at `key` for the first `n` of `banks`, each with
/// the address it goes to.
pub open spec fn bank_copies(lines: Seq<LineView>, key: u64, banks: Seq<u8>, n: int) -> Seq<
    (u64, Seq<LineView>),
>
    decreases n,
{
    if n <= 0 || n > banks.len() {
        Seq::empty()
    } else {
        bank_copies(lines, key, banks, n - 1).push(
            (
                moved(banks[n - 1], key),
                copied_lines(lines, moved(banks[n - 1], key), banks[n - 1], lines.len() as int),
            ),
        )
    }
}

/// The copies of the lines at those of the first `n` of `keys` that lie in
/// `first..=last`.
pub open spec fn region_copies(
    m: Map<u64, Seq<LineView>>,
    keys: Seq<u64>,
    first: u64,
    last: u64,
    banks: Seq<u8>,
    n: int,
) -> Seq<(u64, Seq<LineView>)>
    decreases n,
{
    if n <= 0 || n > keys.len() {
        Seq::empty()
    } else if first <= keys[n - 1] <= last {
        region_copies(m, keys, first, last, banks, n - 1) + bank_copies(
            m[keys[n - 1]],
            keys[n - 1],
            banks,
            banks.len() as int,
        )
    } else {
        region_copies(m, keys, first, last, banks, n - 1)
    }
}

/// `m` with the first `n` of `copies` put in, each in place of what is at
/// its address.
pub open spec fn with_copies(
    m: Map<u64, Seq<LineView>>,
    copies: Seq<(u64, Seq<LineView>)>,
    n: int,
) -> Map<u64, Seq<LineView>>
    decreases n,
{
    if n <= 0 || n > copies.len() {
        m
    } else {
        with_copies(m, copies, n - 1).insert(copies[n - 1].0, copies[n - 1].1)
    }
}

/// `m` after the lines in `first..=last` were copied into each of `banks`:
/// the copies are made of the lines as they are in `m`, from the lowest
/// address up and for each address bank by bank, and then put in in that
/// order.
pub open spec fn replicated(
    m: Map<u64, Seq<LineView>>,
    first: u64,
    last: u64,
    banks: Seq<u8>,
) -> Map<u64, Seq<LineView>> {
    let keys = in_order(m.dom());
    let copies = region_copies(m, keys, first, last, banks, keys.len() as int);
    with_copies(m, copies, copies.len() as int)
}

/// A copy of a comment.
pub fn copy_comment(c: &Option<String>) -> (r: Option<String>)
    ensures
        opt_text(r) == opt_text(*c),
{
    match c {
        Some(t) => Some(t.clone()),
        None => None,
    }
}

/// A copy of a list of values.
pub fn copy_values(v: &Vec<DataVal>) -> (r: Vec<DataVal>)
    ensures
        r@ == v@,
{
    let mut out: Vec<DataVal> = Vec::new();
    let mut i: usize = 0;
    while i < v.len()
        invariant
            i <= v.len(),
            out@ == v@.subrange(0, i as int),
        decreases v.len() - i,
    {
        out.push(v[i]);
        i = i + 1;
        assert(out@ =~= v@.subrange(0, i as int));
    }
    assert(out@ =~= v@);
    out
}

/// Computes `moved`.
pub fn move_to(bank: u8, a: u64) -> (r: u64)
    ensures
        r == moved(bank, a),
{
    ((bank as u64) << 16) | (a & 0xFFFF)
}

/// Computes `copied_line`.
pub fn copy_line(line: &Line, at: u64, bank: u8) -> (r: Line)
    ensures
        r@ == copied_line(line@, at, bank),
{
    match line {
        Line::Code(c) => {
            let arg = match c.arg {
                ArgType::Address(a) => {
                    if c.length == 3 && (at & 0xFFFF) > 0x804D {
                        ArgType::Address(move_to(bank, a))
                    } else {
                        ArgType::Address(a)
                    }
                },
                other => other,
            };
            Line::Code(
                Code {
                    address: at,
                    opcode: c.opcode,
                    arg,
                    comment: copy_comment(&c.comment),
                    length: c.length,
                    db: bank,
                },
            )
        },
        Line::Data(d) => Line::Data(
            Data {
                address: move_to(bank, d.address),
                data: copy_values(&d.data),
                comment: copy_comment(&d.comment),
            },
        ),
        Line::Comment(t) => Line::Comment(t.clone()),
    }
}

/// The copies, by their views.
pub open spec fn copy_views(v: Seq<(u64, Vec<Line>)>) -> Seq<(u64, Seq<LineView>)> {
    v.map_values(|c: (u64, Vec<Line>)| (c.0, line_views(c.1@)))
}

/// Appends the copies of `lines`, which stand at `key`, for each of
/// `banks`.
pub fn copy_for_banks(lines: &Vec<Line>, key: u64, banks: &Vec<u8>, out: &mut Vec<(u64, Vec<Line>)>)
    ensures
        copy_views(final(out)@) == copy_views(old(out)@) + bank_copies(
            line_views(lines@),
            key,
            banks@,
            banks@.len() as int,
        ),
{
    let ghost start = copy_views(out@);
    let mut b: usize = 0;
    while b < banks.len()
        invariant
            b <= banks.len(),
            copy_views(out@) == start + bank_copies(line_views(lines@), key, banks@, b as int),
        decreases banks.len() - b,
    {
        let bank: u8 = banks[b];
        let at: u64 = move_to(bank, key);
        let mut copy: Vec<Line> = Vec::new();
        let mut i: usize = 0;
        while i < lines.len()
            invariant
                i <= lines.len(),
                line_views(copy@) == copied_lines(line_views(lines@), at, bank, i as int),
            decreases lines.len() - i,
        {
            let ghost before = line_views(copy@);
            let line = copy_line(&lines[i], at, bank);
            let ghost v = line@;
            copy.push(line);
            assert(line_views(lines@)[i as int] == lines@[i as int]@);
            assert(line_views(copy@) =~= before.push(v));
            i = i + 1;
        }
        let ghost before = copy_views(out@);
        let ghost v = line_views(copy@);
        out.push((at, copy));
        assert(copy_views(out@) =~= before.push((at, v)));
        b = b + 1;
        assert(copy_views(out@) =~= start + bank_copies(
            line_views(lines@),
            key,
            banks@,
            b as int,
        ));
    }
}

/// Copies the lines in `first..=last` into each of `banks`.
pub fn replicate(lines: &mut BTreeMap<u64, Vec<Line>>, first: u64, last: u64, banks: &Vec<u8>)
    ensures
        line_map(final(lines)@) == replicated(line_map(old(lines)@), first, last, banks@),
{
    let ghost m = line_map(lines@);
    assert(m.dom() =~= lines@.dom());
    let keys = keys_in_order(lines);
    let mut copies: Vec<(u64, Vec<Line>)> = Vec::new();
    assert(copy_views(copies@) =~= Seq::empty());
    let mut k: usize = 0;
    while k < keys.len()
        invariant
            k <= keys.len(),
            m == line_map(lines@),
            lists_in_order(keys@, lines@.dom()),
            copy_views(copies@) == region_copies(m, keys@, first, last, banks@, k as int),
        decreases keys.len() - k,
    {
        let key: u64 = keys[k];
        if first <= key && key <= last {
            assert(keys@.contains(keys@[k as int]));
            assert(lines@.dom().contains(key));
            match entry_at(lines, key) {
                Some(group) => {
                    assert(m[key] == line_views(group@));
                    copy_for_banks(group, key, banks, &mut copies);
                },
                None => {
                    assert(false);
                },
            }
        }
        k = k + 1;
    }
    let ghost all = copy_views(copies@);
    let ghost done: int = 0;
    for c in it: copies
        invariant
            0 <= done == it.index() <= all.len(),
            all == copy_views(it.seq()),
            line_map(lines@) == with_copies(m, all, done),
    {
        let ghost v = line_views(c.1@);
        assert(all[done] == (c.0, v));
        put_entry(lines, c.0, c.1);
        assert(line_map(lines@) =~= with_copies(m, all, done).insert(c.0, v));
        proof {
            done = done + 1;
        }
    }
}

/// A file to be written: its name and its text.
#[derive(Debug, Clone)]
pub struct OutputFile {
    pub name: String,
    pub content: String,
}

/// A file as contracts see it.
pub struct OutputFileView {
    pub name: Seq<char>,
    pub content: Seq<char>,
}

impl View for OutputFile {
    type V = OutputFileView;

    open spec fn view(&self) -> OutputFileView {
        OutputFileView { name: self.name@, content: self.content@ }
    }
}

/// The files, by their views.
pub open spec fn file_views(v: Seq<OutputFile>) -> Seq<OutputFileView> {
    v.map_values(|f: OutputFile| f@)
}

/// The lines that include the files of the first `n` banks from 0x80 on.
pub open spec fn includes(n: int) -> Seq<char>
    decreases n,
{
    if n <= 0 || n > 0x60 {
        Seq::empty()
    } else {
        includes(n - 1) + "incsrc bank_"@ + hex_upper((0x80 + n - 1) as nat, 2) + ".asm\n"@
    }
}

/// The text that the top-level file starts with: the memory mapping, the
/// labels file, and the file of each bank from 0x80 to 0xDF.
pub open spec fn main_text() -> Seq<char> {
    "lorom\n"@ + "incsrc labels.asm\n"@ + includes(0x60)
}

/// The name of the file of a bank.
pub open spec fn bank_file(bank: u8) -> Seq<char> {
    "bank_"@ + hex_upper(bank as nat, 2) + ".asm"@
}

/// Whether one of the lines is code or data.
pub open spec fn has_entity(lines: Seq<LineView>) -> bool {
    exists|i: int| 0 <= i < lines.len() && !(#[trigger] lines[i] is Comment)
}

/// The first of `keys`, from position `i` on, that is `from` or more and
/// has code or data.
pub open spec fn first_entity(
    m: Map<u64, Seq<LineView>>,
    keys: Seq<u64>,
    from: u64,
    i: int,
) -> Option<u64>
    decreases keys.len() - i,
{
    if i < 0 || i >= keys.len() {
        None
    } else if keys[i] >= from && has_entity(m[keys[i]]) {
        Some(keys[i])
    } else {
        first_entity(m, keys, from, i + 1)
    }
}

/// The address at which the file of `bank` starts, when the first lines of
/// the bank are at `addr`: the first address with code or data in the ROM
/// half of the bank or beyond, if it is in the bank, else `addr`.
pub open spec fn origin(m: Map<u64, Seq<LineView>>, keys: Seq<u64>, bank: u8, addr: u64) -> u64 {
    match first_entity(m, keys, ((bank as u64) << 16) | 0x8000, 0) {
        Some(k) => if (k >> 16) == bank as u64 {
            k
        } else {
            addr
        },
        None => addr,
    }
}

/// Where writing stands: the files that are complete, the file that is
/// being written, the bank it belongs to, and the labels.
pub struct Emission {
    pub done: Seq<OutputFileView>,
    pub name: Seq<char>,
    pub content: Seq<char>,
    pub bank: u8,
    pub labels: Map<u64, LabelView>,
}

/// Writing goes over to the bank of `addr` if it is not there: the file
/// that was being written is closed with the check for bank crossing
/// switched on, and the file of the bank begins with its origin and the
/// check switched off.
pub open spec fn entered(
    e: Emission,
    m: Map<u64, Seq<LineView>>,
    keys: Seq<u64>,
    addr: u64,
) -> Emission {
    if bank_byte(addr) != e.bank {
        Emission {
            done: e.done.push(
                OutputFileView { name: e.name, content: e.content + "check bankcross on\n"@ },
            ),
            name: bank_file(bank_byte(addr)),
            content: "org $"@ + hex_upper(origin(m, keys, bank_byte(addr), addr) as nat, 6)
                + "\ncheck bankcross off\n"@,
            bank: bank_byte(addr),
            labels: e.labels,
        }
    } else {
        e
    }
}

/// The line that sets a label: its name, and a colon unless the name
/// starts with a dot.
pub open spec fn label_line(name: Seq<char>) -> Seq<char> {
    if name.len() > 0 && name[0] == '.' {
        name + "\n"@
    } else {
        name + ":\n"@
    }
}

/// The label at `addr`, if there is one, is written and marked as written.
pub open spec fn announced(e: Emission, addr: u64) -> Emission {
    if e.labels.contains_key(addr) {
        Emission {
            done: e.done,
            name: e.name,
            content: e.content + label_line(e.labels[addr].name),
            bank: e.bank,
            labels: assigned_at(e.labels, addr),
        }
    } else {
        e
    }
}

/// The first `n` of `lines` are written, each on a line of its own.
pub open spec fn written_upto(
    cfg: ConfigView,
    e: Emission,
    lines: Seq<LineView>,
    n: int,
) -> Emission
    decreases n,
{
    if n <= 0 || n > lines.len() {
        e
    } else {
        let p = written_upto(cfg, e, lines, n - 1);
        Emission {
            done: p.done,
            name: p.name,
            content: p.content + line_text(cfg, lines[n - 1], p.labels) + "\n"@,
            bank: p.bank,
            labels: line_marks(lines[n - 1], p.labels),
        }
    }
}

/// The lines at the first `n` of `keys` are written.
pub open spec fn emitted_upto(
    cfg: ConfigView,
    m: Map<u64, Seq<LineView>>,
    keys: Seq<u64>,
    n: int,
    e: Emission,
) -> Emission
    decreases n,
{
    if n <= 0 || n > keys.len() {
        e
    } else {
        let p = emitted_upto(cfg, m, keys, n - 1, e);
        let a = keys[n - 1];
        written_upto(cfg, announced(entered(p, m, keys, a), a), m[a], m[a].len() as int)
    }
}

/// Writing before the first line: the top-level file is being written, and
/// no bank has been entered.
pub open spec fn emission_start(labels: Map<u64, LabelView>) -> Emission {
    Emission { done: Seq::empty(), name: "main.asm"@, content: main_text(), bank: 0, labels }
}

/// Writing after the last line: all lines are written, from the lowest
/// address to the highest.
pub open spec fn emitted(
    cfg: ConfigView,
    m: Map<u64, Seq<LineView>>,
    labels: Map<u64, LabelView>,
) -> Emission {
    let keys = in_order(m.dom());
    emitted_upto(cfg, m, keys, keys.len() as int, emission_start(labels))
}

/// The files that were written.
pub open spec fn files_of(e: Emission) -> Seq<OutputFileView> {
    e.done.push(OutputFileView { name: e.name, content: e.content })
}

/// Whether each of the lines can be written.
pub open spec fn all_renderable(lines: Seq<LineView>) -> bool {
    forall|i: int| 0 <= i < lines.len() ==> (#[trigger] lines[i]).renderable()
}

/// The first of `keys`, from position `i` on, with a line that cannot be
/// written.
pub open spec fn first_unrenderable(m: Map<u64, Seq<LineView>>, keys: Seq<u64>, i: int) -> Option<
    u64,
>
    decreases keys.len() - i,
{
    if i < 0 || i >= keys.len() {
        None
    } else if !all_renderable(m[keys[i]]) {
        Some(keys[i])
    } else {
        first_unrenderable(m, keys, i + 1)
    }
}

/// Where no address has a line that cannot be written, the lines at each
/// address can be written.
pub proof fn lemma_renderable(m: Map<u64, Seq<LineView>>, keys: Seq<u64>, i: int, j: int)
    requires
        0 <= i <= j < keys.len(),
        first_unrenderable(m, keys, i) is None,
    ensures
        all_renderable(m[keys[j]]),
    decreases j - i,
{
    if i < j {
        lemma_renderable(m, keys, i + 1, j);
    }
}

/// An instruction that cannot be written: it takes an operand and has
/// none, or its operand is not one to three bytes long.
#[derive(Debug, Clone, Copy, PartialEq, Eq, Structural)]
pub struct Unrenderable {
    /// The address under which its line is filed.
    pub address: u64,
}

/// Computes `has_entity`.
pub fn any_entity(lines: &Vec<Line>) -> (r: bool)
    ensures
        r == has_entity(line_views(lines@)),
{
    let mut i: usize = 0;
    while i < lines.len()
        invariant
            i <= lines.len(),
            forall|j: int| 0 <= j < i ==> line_views(lines@)[j] is Comment,
        decreases lines.len() - i,
    {
        assert(line_views(lines@)[i as int] == lines@[i as int]@);
        match &lines[i] {
            Line::Comment(_) => {},
            _ => {
                return true;
            },
        }
        i = i + 1;
    }
    false
}

/// Computes `all_renderable`.
pub fn can_render(lines: &Vec<Line>) -> (r: bool)
    ensures
        r == all_renderable(line_views(lines@)),
{
    let mut i: usize = 0;
    while i < lines.len()
        invariant
            i <= lines.len(),
            forall|j: int| 0 <= j < i ==> (#[trigger] line_views(lines@)[j]).renderable(),
        decreases lines.len() - i,
    {
        assert(line_views(lines@)[i as int] == lines@[i as int]@);
        let ok: bool = match &lines[i] {
            Line::Code(c) => c.is_renderable(),
            _ => true,
        };
        if !ok {
            return false;
        }
        i = i + 1;
    }
    true
}

/// Computes `first_unrenderable`.
pub fn find_unrenderable(lines: &BTreeMap<u64, Vec<Line>>, keys: &Vec<u64>) -> (r: Option<u64>)
    requires
        lists_in_order(keys@, lines@.dom()),
    ensures
        r == first_unrenderable(line_map(lines@), keys@, 0),
{
    let mut i: usize = 0;
    while i < keys.len()
        invariant
            i <= keys.len(),
            lists_in_order(keys@, lines@.dom()),
            first_unrenderable(line_map(lines@), keys@, i as int) == first_unrenderable(
                line_map(lines@),
                keys@,
                0,
            ),
        decreases keys.len() - i,
    {
        assert(keys@.contains(keys@[i as int]));
        assert(lines@.dom().contains(keys@[i as int]));
        match entry_at(lines, keys[i]) {
            Some(group) => {
                assert(line_map(lines@)[keys@[i as int]] == line_views(group@));
                if !can_render(group) {
                    return Some(keys[i]);
                }
            },
            None => {
                assert(false);
            },
        }
        i = i + 1;
    }
    None
}

/// Computes `origin`.
pub fn find_origin(lines: &BTreeMap<u64, Vec<Line>>, keys: &Vec<u64>, bank: u8, addr: u64) -> (r:
    u64)
    requires
        lists_in_order(keys@, lines@.dom()),
    ensures
        r == origin(line_map(lines@), keys@, bank, addr),
{
    let from: u64 = ((bank as u64) << 16) | 0x8000;
    let mut i: usize = 0;
    while i < keys.len()
        invariant
            i <= keys.len(),
            lists_in_order(keys@, lines@.dom()),
            from == ((bank as u64) << 16) | 0x8000,
            first_entity(line_map(lines@), keys@, from, i as int) == first_entity(
                line_map(lines@),
                keys@,
                from,
                0,
            ),
        decreases keys.len() - i,
    {
        let k: u64 = keys[i];
        assert(keys@.contains(keys@[i as int]));
        assert(lines@.dom().contains(k));
        match entry_at(lines, k) {
            Some(group) => {
                assert(line_map(lines@)[k] == line_views(group@));
                if k >= from && any_entity(group) {
                    if (k >> 16) == bank as u64 {
                        return k;
                    } else {
                        return addr;
                    }
                }
            },
            None => {
                assert(false);
            },
        }
        i = i + 1;
    }
    addr
}

/// The text of `main_text`.
pub fn main_file_text() -> (r: String)
    ensures
        r@ == main_text(),
{
    let mut out = String::from_str("lorom\n");
    out.append("incsrc labels.asm\n");
    let ghost head = out@;
    let mut n: u64 = 0;
    while n < 0x60
        invariant
            n <= 0x60,
            out@ == head + includes(n as int),
        decreases 0x60 - n,
    {
        out.append("incsrc bank_");
        push_hex(&mut out, 0x80 + n, 2);
        out.append(".asm\n");
        n = n + 1;
        assert(out@ =~= head + includes(n as int));
    }
    out
}

/// The text of `bank_file`.
pub fn bank_file_name(bank: u8) -> (r: String)
    ensures
        r@ == bank_file(bank),
{
    let mut out = String::from_str("bank_");
    push_hex(&mut out, bank as u64, 2);
    out.append(".asm");
    out
}

/// What is being written.
pub struct Writer {
    pub done: Vec<OutputFile>,
    pub name: String,
    pub content: String,
    pub bank: u8,
}

impl Writer {
    /// Where writing stands, with the labels as they are.
    pub open spec fn emission(self, labels: Map<u64, LabelView>) -> Emission {
        Emission {
            done: file_views(self.done@),
            name: self.name@,
            content: self.content@,
            bank: self.bank,
            labels,
        }
    }

    /// Goes over to the bank of `addr`.
    pub fn enter(&mut self, lines: &BTreeMap<u64, Vec<Line>>, keys: &Vec<u64>, addr: u64)
        requires
            lists_in_order(keys@, lines@.dom()),
        ensures
            forall|labels: Map<u64, LabelView>| #[trigger]
                final(self).emission(labels) == entered(
                    old(self).emission(labels),
                    line_map(lines@),
                    keys@,
                    addr,
                ),
    {
        let bank: u8 = bank_of_address(addr);
        if bank != self.bank {
            let start: u64 = find_origin(lines, keys, bank, addr);
            let mut header = String::from_str("org $");
            push_hex(&mut header, start, 6);
            header.append("\ncheck bankcross off\n");
            let mut closed = OutputFile { name: String::new(), content: String::new() };
            std::mem::swap(&mut closed.name, &mut self.name);
            std::mem::swap(&mut closed.content, &mut self.content);
            closed.content.append("check bankcross on\n");
            let ghost before = file_views(self.done@);
            let ghost v = closed@;
            self.done.push(closed);
            assert(file_views(self.done@) =~= before.push(v));
            self.name = bank_file_name(bank);
            self.content = header;
            self.bank = bank;
        }
    }

    /// Writes the label at `addr`, if there is one.
    pub fn announce(&mut self, labels: &mut HashMap<u64, Label>, addr: u64)
        ensures
            final(self).emission(label_map(final(labels)@)) == announced(
                old(self).emission(label_map(old(labels)@)),
                addr,
            ),
    {
        match mark_assigned(labels, addr) {
            Some(name) => {
                self.content.append(name.as_str());
                let dotted: bool = name.as_str().unicode_len() > 0 && name.as_str().get_char(0)
                    == '.';
                if dotted {
                    self.content.append("\n");
                } else {
                    self.content.append(":\n");
                }
                assert(self.content@ =~= old(self).content@ + label_line(name@));
            },
            None => {},
        }
    }

    /// Writes `lines`.
    pub fn write(&mut self, lines: &Vec<Line>, config: &Config, labels: &mut HashMap<u64, Label>)
        requires
            all_renderable(line_views(lines@)),
        ensures
            final(self).emission(label_map(final(labels)@)) == written_upto(
                config@,
                old(self).emission(label_map(old(labels)@)),
                line_views(lines@),
                lines@.len() as int,
            ),
    {
        let mut i: usize = 0;
        while i < lines.len()
            invariant
                i <= lines.len(),
                all_renderable(line_views(lines@)),
                self.emission(label_map(labels@)) == written_upto(
                    config@,
                    old(self).emission(label_map(old(labels)@)),
                    line_views(lines@),
                    i as int,
                ),
            decreases lines.len() - i,
        {
            assert(line_views(lines@)[i as int] == lines@[i as int]@);
            let text = lines[i].to_string(config, labels);
            self.content.append(text.as_str());
            self.content.append("\n");
            i = i + 1;
        }
    }
}

/// Writes the lines of a trace as assembler source: the top-level file and
/// one file for each bank. Nothing is written, and no label is marked,
/// where a line cannot be written.
pub fn emit(
    lines: &BTreeMap<u64, Vec<Line>>,
    config: &Config,
    labels: &mut HashMap<u64, Label>,
) -> (r: Result<Vec<OutputFile>, Unrenderable>)
    ensures
        match r {
            Ok(files) => first_unrenderable(line_map(lines@), in_order(lines@.dom()), 0) is None
                && file_views(files@) == files_of(
                emitted(config@, line_map(lines@), label_map(old(labels)@)),
            ) && label_map(final(labels)@) == emitted(
                config@,
                line_map(lines@),
                label_map(old(labels)@),
            ).labels,
            Err(e) => first_unrenderable(line_map(lines@), in_order(lines@.dom()), 0) == Some(
                e.address,
            ) && label_map(final(labels)@) == label_map(old(labels)@),
        },
        crate::label::keyed(label_map(old(labels)@)) ==> crate::label::keyed(
            label_map(final(labels)@),
        ),
{
    let ghost m = line_map(lines@);
    proof {
        if crate::label::keyed(label_map(labels@)) {
            lemma_emitted_keyed(config@, m, label_map(labels@));
        }
    }
    assert(m.dom() =~= lines@.dom());
    let keys = keys_in_order(lines);
    match find_unrenderable(lines, &keys) {
        Some(address) => {
            return Err(Unrenderable { address });
        },
        None => {},
    }
    let mut w = Writer {
        done: Vec::new(),
        name: String::from_str("main.asm"),
        content: main_file_text(),
        bank: 0,
    };
    let ghost start = emission_start(label_map(labels@));
    assert(w.emission(label_map(labels@)) =~= start) by {
        assert(file_views(w.done@) =~= Seq::empty());
    }
    let mut k: usize = 0;
    while k < keys.len()
        invariant
            k <= keys.len(),
            m == line_map(lines@),
            keys@ == in_order(lines@.dom()),
            lists_in_order(keys@, lines@.dom()),
            first_unrenderable(m, keys@, 0) is None,
            w.emission(label_map(labels@)) == emitted_upto(config@, m, keys@, k as int, start),
        decreases keys.len() - k,
    {
        let addr: u64 = keys[k];
        assert(keys@.contains(keys@[k as int]));
        assert(lines@.dom().contains(addr));
        proof {
            lemma_renderable(m, keys@, 0, k as int);
        }
        match entry_at(lines, addr) {
            Some(group) => {
                assert(m[addr] == line_views(group@));
                let ghost before = w.emission(label_map(labels@));
                w.enter(lines, &keys, addr);
                assert(w.emission(label_map(labels@)) == entered(before, m, keys@, addr));
                w.announce(labels, addr);
                w.write(group, config, labels);
            },
            None => {
                assert(false);
            },
        }
        k = k + 1;
    }
    let Writer { done, name, content, bank } = w;
    let mut files = done;
    let ghost before = file_views(files@);
    let last = OutputFile { name, content };
    let ghost v = last@;
    files.push(last);
    assert(file_views(files@) =~= before.push(v));
    Ok(files)
}

/// `after` holds the labels of `before`, and those of them are marked as
/// written that were marked before or stand at one of the addresses `at`.
pub open spec fn marks_added(
    before: Map<u64, LabelView>,
    after: Map<u64, LabelView>,
    at: Set<u64>,
) -> bool {
    forall|a: u64|
        after.contains_key(a) == before.contains_key(a) && (before.contains_key(a) ==> (
        #[trigger] after[a]).name == before[a].name && after[a].label_type == before[a].label_type
            && after[a].address == before[a].address && after[a].assigned == (before[a].assigned
            || at.contains(a)))
}

/// The addresses of the values of a data line, but for the first, among
/// the first `n` values.
pub open spec fn inner_addresses(d: DataView, n: int) -> Set<u64> {
    Set::new(|a: u64| exists|j: int| 0 < j < n <= d.data.len() && #[trigger] d.pc_of(j) == a)
}

/// The addresses at which a line writes a label within itself.
pub open spec fn line_addresses(line: LineView) -> Set<u64> {
    match line {
        LineView::Data(d) => inner_addresses(d, d.data.len() as int),
        _ => Set::empty(),
    }
}

/// The addresses at which the first `n` of `lines` write a label within
/// themselves.
pub open spec fn lines_addresses(lines: Seq<LineView>, n: int) -> Set<u64> {
    Set::new(
        |a: u64|
            exists|i: int|
                0 <= i < n <= lines.len() && (#[trigger] line_addresses(lines[i])).contains(a),
    )
}

/// The addresses at which a label is written when the lines at the first
/// `n` of `keys` are written: the keys themselves, and the addresses at
/// which their lines write a label within themselves.
pub open spec fn written_addresses(m: Map<u64, Seq<LineView>>, keys: Seq<u64>, n: int) -> Set<u64> {
    Set::new(
        |a: u64|
            exists|k: int|
                0 <= k < n <= keys.len() && (#[trigger] keys[k] == a || lines_addresses(
                    m[keys[k]],
                    m[keys[k]].len() as int,
                ).contains(a)),
    )
}

/// Writing a data line marks the labels at the addresses of its values,
/// but for the first.
pub proof fn lemma_marked_adds(d: DataView, n: int, m: Map<u64, LabelView>)
    ensures
        marks_added(m, crate::data::marked(d, n, m), inner_addresses(d, n)),
    decreases n,
{
    let at = inner_addresses(d, n);
    if n <= 0 || n > d.data.len() {
        assert forall|a: u64| !at.contains(a) by {
            if at.contains(a) {
                let j = choose|j: int| 0 < j < n <= d.data.len() && #[trigger] d.pc_of(j) == a;
                assert(false);
            }
        }
    } else if n == 1 {
        lemma_marked_adds(d, n - 1, m);
    } else {
        lemma_marked_adds(d, n - 1, m);
        let before = crate::data::marked(d, n - 1, m);
        let pc = d.pc_of(n - 1);
        assert forall|a: u64| at.contains(a) == (inner_addresses(d, n - 1).contains(a) || a
            == pc) by {
            if inner_addresses(d, n - 1).contains(a) {
                let j = choose|j: int|
                    0 < j < n - 1 <= d.data.len() && #[trigger] d.pc_of(j) == a;
                assert(0 < j < n && d.pc_of(j) == a);
            }
            if a == pc {
                assert(0 < n - 1 < n && d.pc_of(n - 1) == a);
            }
            if at.contains(a) {
                let j = choose|j: int| 0 < j < n <= d.data.len() && #[trigger] d.pc_of(j) == a;
                if j < n - 1 {
                    assert(inner_addresses(d, n - 1).contains(a));
                }
            }
        }
        assert forall|a: u64| m.contains_key(a) implies (#[trigger] crate::data::marked(
            d,
            n,
            m,
        )[a]).assigned == (m[a].assigned || at.contains(a)) by {
            assert(before[a].assigned == (m[a].assigned || inner_addresses(d, n - 1).contains(a)));
        }
    }
}

/// Writing lines marks the labels that the lines write within themselves.
pub proof fn lemma_written_adds(cfg: ConfigView, e: Emission, lines: Seq<LineView>, n: int)
    ensures
        marks_added(e.labels, written_upto(cfg, e, lines, n).labels, lines_addresses(lines, n)),
    decreases n,
{
    let at = lines_addresses(lines, n);
    if n <= 0 || n > lines.len() {
        assert forall|a: u64| !at.contains(a) by {
            if at.contains(a) {
                let i = choose|i: int|
                    0 <= i < n <= lines.len() && (#[trigger] line_addresses(
                        lines[i],
                    )).contains(a);
                assert(false);
            }
        }
    } else {
        lemma_written_adds(cfg, e, lines, n - 1);
        let p = written_upto(cfg, e, lines, n - 1);
        let last = lines[n - 1];
        match last {
            LineView::Data(d) => {
                lemma_marked_adds(d, d.data.len() as int, p.labels);
            },
            _ => {},
        }
        assert(marks_added(p.labels, line_marks(last, p.labels), line_addresses(last)));
        assert forall|a: u64| at.contains(a) == (lines_addresses(lines, n - 1).contains(a)
            || line_addresses(last).contains(a)) by {
            if lines_addresses(lines, n - 1).contains(a) {
                let i = choose|i: int|
                    0 <= i < n - 1 <= lines.len() && (#[trigger] line_addresses(
                        lines[i],
                    )).contains(a);
                assert(0 <= i < n && line_addresses(lines[i]).contains(a));
            }
            if line_addresses(last).contains(a) {
                assert(0 <= n - 1 < n && line_addresses(lines[n - 1]).contains(a));
            }
            if at.contains(a) {
                let i = choose|i: int|
                    0 <= i < n <= lines.len() && (#[trigger] line_addresses(
                        lines[i],
                    )).contains(a);
                if i < n - 1 {
                    assert(lines_addresses(lines, n - 1).contains(a));
                }
            }
        }
        let after = written_upto(cfg, e, lines, n).labels;
        assert forall|a: u64| e.labels.contains_key(a) implies (#[trigger] after[a]).assigned == (
        e.labels[a].assigned || at.contains(a)) by {
            assert(p.labels[a].assigned == (e.labels[a].assigned || lines_addresses(
                lines,
                n - 1,
            ).contains(a)));
        }
    }
}

/// After the lines were written, the labels are those that were there,
/// and a label is marked as written exactly if it was marked before, or
/// lines are filed under its address, or it stands at the address of a
/// value, other than the first, of a data line. The labels file lists the
/// labels that are left unmarked and are not blocked.
pub proof fn lemma_emitted_adds(
    cfg: ConfigView,
    m: Map<u64, Seq<LineView>>,
    keys: Seq<u64>,
    n: int,
    e: Emission,
)
    ensures
        marks_added(
            e.labels,
            emitted_upto(cfg, m, keys, n, e).labels,
            written_addresses(m, keys, n),
        ),
    decreases n,
{
    let at = written_addresses(m, keys, n);
    if n <= 0 || n > keys.len() {
        assert forall|a: u64| !at.contains(a) by {
            if at.contains(a) {
                let k = choose|k: int|
                    0 <= k < n <= keys.len() && (#[trigger] keys[k] == a || lines_addresses(
                        m[keys[k]],
                        m[keys[k]].len() as int,
                    ).contains(a));
                assert(false);
            }
        }
    } else {
        lemma_emitted_adds(cfg, m, keys, n - 1, e);
        let p = emitted_upto(cfg, m, keys, n - 1, e);
        let key = keys[n - 1];
        let q = announced(entered(p, m, keys, key), key);
        let inner = lines_addresses(m[key], m[key].len() as int);
        lemma_written_adds(cfg, q, m[key], m[key].len() as int);
        let after = emitted_upto(cfg, m, keys, n, e).labels;
        assert(after == written_upto(cfg, q, m[key], m[key].len() as int).labels);
        assert forall|a: u64| at.contains(a) == (written_addresses(m, keys, n - 1).contains(a)
            || a == key || inner.contains(a)) by {
            if written_addresses(m, keys, n - 1).contains(a) {
                let k = choose|k: int|
                    0 <= k < n - 1 <= keys.len() && (#[trigger] keys[k] == a
                        || lines_addresses(m[keys[k]], m[keys[k]].len() as int).contains(a));
                assert(0 <= k < n && (keys[k] == a || lines_addresses(
                    m[keys[k]],
                    m[keys[k]].len() as int,
                ).contains(a)));
            }
            if a == key || inner.contains(a) {
                assert(0 <= n - 1 < n && (keys[n - 1] == a || lines_addresses(
                    m[keys[n - 1]],
                    m[keys[n - 1]].len() as int,
                ).contains(a)));
            }
            if at.contains(a) {
                let k = choose|k: int|
                    0 <= k < n <= keys.len() && (#[trigger] keys[k] == a || lines_addresses(
                        m[keys[k]],
                        m[keys[k]].len() as int,
                    ).contains(a));
                if k < n - 1 {
                    assert(written_addresses(m, keys, n - 1).contains(a));
                }
            }
        }
        assert forall|a: u64| e.labels.contains_key(a) implies (#[trigger] after[a]).assigned == (
        e.labels[a].assigned || at.contains(a)) by {
            assert(p.labels[a].assigned == (e.labels[a].assigned || written_addresses(
                m,
                keys,
                n - 1,
            ).contains(a)));
            assert(q.labels[a].assigned == (p.labels[a].assigned || a == key));
        }
    }
}

/// Whether a label goes into the labels file: it has not been written at
/// its address, and it is not blocked.
pub open spec fn listed(l: LabelView) -> bool {
    !l.assigned && l.label_type != LabelType::Blocked
}

/// The labels file lists exactly the labels that are not blocked, were not
/// marked as written before the lines were written, and stand at no
/// address at which a label is written with the lines: no address that
/// lines are filed under, and no address of a value, other than the first,
/// of a data line.
pub proof fn lemma_listed_after_emit(
    cfg: ConfigView,
    m: Map<u64, Seq<LineView>>,
    labels: Map<u64, LabelView>,
    a: u64,
)
    requires
        labels.contains_key(a),
    ensures
        emitted(cfg, m, labels).labels.contains_key(a),
        listed(emitted(cfg, m, labels).labels[a]) <==> listed(labels[a]) && !written_addresses(
            m,
            in_order(m.dom()),
            in_order(m.dom()).len() as int,
        ).contains(a),
{
    let keys = in_order(m.dom());
    lemma_emitted_adds(cfg, m, keys, keys.len() as int, emission_start(labels));
    assert(emitted(cfg, m, labels).labels[a].assigned == (labels[a].assigned || written_addresses(
        m,
        keys,
        keys.len() as int,
    ).contains(a)));
}

/// Writing the lines leaves every label filed under its own address.
pub proof fn lemma_emitted_keyed(
    cfg: ConfigView,
    m: Map<u64, Seq<LineView>>,
    labels: Map<u64, LabelView>,
)
    requires
        crate::label::keyed(labels),
    ensures
        crate::label::keyed(emitted(cfg, m, labels).labels),
{
    let keys = in_order(m.dom());
    lemma_emitted_adds(cfg, m, keys, keys.len() as int, emission_start(labels));
    let after = emitted(cfg, m, labels).labels;
    assert forall|a: u64| after.contains_key(a) implies (#[trigger] after[a]).address == a by {
        assert(labels.contains_key(a));
        assert(labels[a].address == a);
    }
}

/// The line that gives a label its address.
pub open spec fn alias_line(name: Seq<char>, address: u64) -> Seq<char> {
    name + " = $"@ + hex_upper(address as nat, 6) + "\n"@
}

/// The lines of the labels file for the first `n` of `order`.
pub open spec fn aliases_upto(m: Map<u64, LabelView>, order: Seq<u64>, n: int) -> Seq<char>
    decreases n,
{
    if n <= 0 || n > order.len() {
        Seq::empty()
    } else if m.contains_key(order[n - 1]) && listed(m[order[n - 1]]) {
        aliases_upto(m, order, n - 1) + alias_line(m[order[n - 1]].name, order[n - 1])
    } else {
        aliases_upto(m, order, n - 1)
    }
}

/// The text of the labels file, with the labels in the given order.
pub fn labels_text(labels: &HashMap<u64, Label>, order: &Vec<u64>) -> (r: String)
    ensures
        r@ == aliases_upto(label_map(labels@), order@, order@.len() as int),
{
    let mut out = String::new();
    let mut i: usize = 0;
    while i < order.len()
        invariant
            i <= order.len(),
            out@ == aliases_upto(label_map(labels@), order@, i as int),
        decreases order.len() - i,
    {
        let address: u64 = order[i];
        match labels.get(&address) {
            Some(l) => {
                if !l.assigned && l.label_type != LabelType::Blocked {
                    let ghost before = out@;
                    out.append(l.name.as_str());
                    out.append(" = $");
                    push_hex(&mut out, address, 6);
                    out.append("\n");
                    assert(out@ =~= before + alias_line(l.name@, address));
                }
            },
            None => {},
        }
        i = i + 1;
    }
    out
}

/// The labels file: a line for each label that has not been written at its
/// address and is not blocked. The order of the lines is that in which the
/// map hands out its labels.
pub fn labels_file(labels: &HashMap<u64, Label>) -> (r: OutputFile)
    ensures
        r@.name == "labels.asm"@,
        exists|order: Seq<u64>|
            order.no_duplicates() && order.to_set() == labels@.dom() && r@.content
                == aliases_upto(label_map(labels@), order, order.len() as int),
{
    let order = crate::label::label_addresses(labels);
    OutputFile { name: String::from_str("labels.asm"), content: labels_text(labels, &order) }
}

/// Whether one of the lines is an instruction whose label address was
/// wrapped around.
pub open spec fn has_wrapping(lines: Seq<LineView>) -> bool {
    exists|i: int|
        0 <= i < lines.len() && (#[trigger] lines[i] matches LineView::Code(c)
            && crate::label::label_wraps(c))
}

/// The first of `keys`, from position `i` on, with an instruction whose
/// label address was wrapped around.
pub open spec fn first_wrapping(m: Map<u64, Seq<LineView>>, keys: Seq<u64>, i: int) -> Option<u64>
    decreases keys.len() - i,
{
    if i < 0 || i >= keys.len() {
        None
    } else if has_wrapping(m[keys[i]]) {
        Some(keys[i])
    } else {
        first_wrapping(m, keys, i + 1)
    }
}

/// Computes `has_wrapping`.
pub fn any_wrapping(lines: &Vec<Line>) -> (r: bool)
    ensures
        r == has_wrapping(line_views(lines@)),
{
    let mut i: usize = 0;
    while i < lines.len()
        invariant
            i <= lines.len(),
            forall|j: int|
                0 <= j < i ==> !(#[trigger] line_views(lines@)[j] matches LineView::Code(c)
                    && crate::label::label_wraps(c)),
        decreases lines.len() - i,
    {
        assert(line_views(lines@)[i as int] == lines@[i as int]@);
        let wraps: bool = match &lines[i] {
            Line::Code(c) => Label::wraps(c),
            _ => false,
        };
        if wraps {
            return true;
        }
        i = i + 1;
    }
    false
}

/// The first address with an instruction whose label address was wrapped
/// around.
pub fn find_wrapping(lines: &BTreeMap<u64, Vec<Line>>) -> (r: Option<u64>)
    ensures
        r == first_wrapping(line_map(lines@), in_order(lines@.dom()), 0),
{
    let keys = keys_in_order(lines);
    let mut i: usize = 0;
    while i < keys.len()
        invariant
            i <= keys.len(),
            keys@ == in_order(lines@.dom()),
            lists_in_order(keys@, lines@.dom()),
            first_wrapping(line_map(lines@), keys@, i as int) == first_wrapping(
                line_map(lines@),
                keys@,
                0,
            ),
        decreases keys.len() - i,
    {
        assert(keys@.contains(keys@[i as int]));
        assert(lines@.dom().contains(keys@[i as int]));
        match entry_at(lines, keys[i]) {
            Some(group) => {
                assert(line_map(lines@)[keys@[i as int]] == line_views(group@));
                if any_wrapping(group) {
                    return Some(keys[i]);
                }
            },
            None => {
                assert(false);
            },
        }
        i = i + 1;
    }
    None
}

/// What a trace is turned into.
#[derive(Debug, Clone)]
pub struct Assembly {
    /// The files to be written, the labels file last.
    pub files: Vec<OutputFile>,
    /// The first address with an instruction whose label address left the
    /// 24-bit address space and was wrapped around, if there is one.
    pub wrapped: Option<u64>,
}

/// A trace file: its name and its lines.
#[derive(Debug, Clone)]
pub struct TraceFile {
    pub name: String,
    pub lines: Vec<String>,
}

/// A trace file as contracts see it.
pub struct TraceFileView {
    pub name: Seq<char>,
    pub lines: Seq<Seq<char>>,
}

impl View for TraceFile {
    type V = TraceFileView;

    open spec fn view(&self) -> TraceFileView {
        TraceFileView { name: self.name@, lines: texts_of(self.lines@) }
    }
}

/// The trace files, by their views.
pub open spec fn trace_views(v: Seq<TraceFile>) -> Seq<TraceFileView> {
    v.map_values(|f: TraceFile| f@)
}

/// A region of lines that is copied into other banks.
#[derive(Debug, Clone)]
pub struct SharedRegion {
    pub first: u64,
    pub last: u64,
    pub banks: Vec<u8>,
}

/// Why a trace could not be turned into assembler source.
#[derive(Debug, Clone, Copy, PartialEq, Eq, Structural)]
pub enum RunError {
    /// The name of the file at position `file` could not be read.
    FileName { file: usize, error: ParseError },
    /// The file at position `file` is not named like the file of a bank.
    NotABank { file: usize },
    /// A line of the file at position `file` could not be read.
    Line { file: usize, line: usize, error: ParseError },
    /// The instruction in the lines at `address` cannot be written.
    Operand { address: u64 },
}

/// The lines of the first `n` trace files, each file read from the start
/// of the ROM half of the first bank that its name gives. There are none
/// once a name or a line cannot be read.
pub open spec fn gathered(files: Seq<TraceFileView>, n: int) -> Option<Map<u64, Seq<LineView>>>
    decreases n,
{
    if n <= 0 || n > files.len() {
        Some(Map::empty())
    } else {
        match gathered(files, n - 1) {
            None => None,
            Some(m) => match bank_group_of(files[n - 1].name) {
                Ok(Some(banks)) => match read_upto(
                    files[n - 1].lines,
                    files[n - 1].lines.len() as int,
                    start_of(banks.0, m),
                ) {
                    Some(p) => Some(p.lines),
                    None => None,
                },
                _ => None,
            },
        }
    }
}

/// Turns the trace files into assembler source: the files are read in
/// their order, the shared region is copied into its banks, the labels are
/// generated, and the lines are written, with the labels file last. The
/// first name or line that cannot be read, or else the first address with
/// an instruction that cannot be written, is the error. Where the address
/// of a label had to be wrapped around, the first address at which that
/// happened is handed out with the files.
pub fn reassemble(files: &Vec<TraceFile>, config: &Config, shared: &SharedRegion) -> (r: Result<
    Assembly,
    RunError,
>)
    ensures
        match r {
            Ok(a) => match gathered(trace_views(files@), files@.len() as int) {
                Some(m) => {
                    let out = a.files;
                    let lines = replicated(m, shared.first, shared.last, shared.banks@);
                    let labels = crate::label::generated(config@, lines, Map::empty());
                    let e = emitted(config@, lines, labels);
                    &&& first_unrenderable(lines, in_order(lines.dom()), 0) is None
                    &&& a.wrapped == first_wrapping(lines, in_order(lines.dom()), 0)
                    &&& out@.len() == files_of(e).len() + 1
                    &&& file_views(out@).subrange(0, out@.len() - 1) == files_of(e)
                    &&& out@.last()@.name == "labels.asm"@
                    &&& exists|order: Seq<u64>|
                        order.no_duplicates() && order.to_set() == e.labels.dom()
                            && out@.last()@.content == aliases_upto(
                            e.labels,
                            order,
                            order.len() as int,
                        )
                },
                None => false,
            },
            Err(RunError::FileName { file, error }) => file < files@.len() && gathered(
                trace_views(files@),
                file as int,
            ) is Some && bank_group_of(files@[file as int]@.name) == Err::<
                Option<(u8, u8)>,
                ParseError,
            >(error),
            Err(RunError::NotABank { file }) => file < files@.len() && gathered(
                trace_views(files@),
                file as int,
            ) is Some && bank_group_of(files@[file as int]@.name) == Ok::<
                Option<(u8, u8)>,
                ParseError,
            >(None),
            Err(RunError::Line { file, line, error }) => file < files@.len() && line
                < files@[file as int]@.lines.len() && match (
                gathered(trace_views(files@), file as int),
                bank_group_of(files@[file as int]@.name),
            ) {
                (Some(m), Ok(Some(banks))) => match read_upto(
                    files@[file as int]@.lines,
                    line as int,
                    start_of(banks.0, m),
                ) {
                    Some(p) => parsed_from(files@[file as int]@.lines[line as int], p.state, 0)
                        == Err::<(Option<u64>, LineView), ParseError>(error),
                    None => false,
                },
                _ => false,
            },
            Err(RunError::Operand { address }) => match gathered(
                trace_views(files@),
                files@.len() as int,
            ) {
                Some(m) => {
                    let lines = replicated(m, shared.first, shared.last, shared.banks@);
                    first_unrenderable(lines, in_order(lines.dom()), 0) == Some(address)
                },
                None => false,
            },
        },
{
    let mut lines: BTreeMap<u64, Vec<Line>> = BTreeMap::new();
    assert(line_map(lines@) =~= Map::empty());
    let mut i: usize = 0;
    while i < files.len()
        invariant
            i <= files.len(),
            gathered(trace_views(files@), i as int) == Some(line_map(lines@)),
        decreases files.len() - i,
    {
        let file = &files[i];
        assert(trace_views(files@)[i as int] == file@);
        let banks = match bank_group(file.name.as_str()) {
            Ok(Some(banks)) => banks,
            Ok(None) => {
                return Err(RunError::NotABank { file: i });
            },
            Err(error) => {
                return Err(RunError::FileName { file: i, error });
            },
        };
        match ingest(&mut lines, banks.0, &file.lines, config) {
            Ok(_) => {},
            Err(f) => {
                return Err(RunError::Line { file: i, line: f.line, error: f.error });
            },
        }
        i = i + 1;
    }
    replicate(&mut lines, shared.first, shared.last, &shared.banks);
    let wrapped = find_wrapping(&lines);
    let mut labels: HashMap<u64, Label> = HashMap::new();
    assert(label_map(labels@) =~= Map::empty());
    crate::label::generate_labels(&lines, config, &mut labels);
    assert(line_map(lines@).dom() =~= lines@.dom());
    let mut out = match emit(&lines, config, &mut labels) {
        Ok(out) => out,
        Err(e) => {
            return Err(RunError::Operand { address: e.address });
        },
    };
    let ghost written = file_views(out@);
    let aliases = labels_file(&labels);
    assert(label_map(labels@).dom() =~= labels@.dom());
    out.push(aliases);
    assert(file_views(out@).subrange(0, out@.len() - 1) =~= written);
    Ok(Assembly { files: out, wrapped })
}

} // verus!
