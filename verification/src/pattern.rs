//! The patterns of the trace grammar, and matching a line against one.
//!
//! The matching itself is the work of the `regex` crate. What it finds is
//! known here only by name: `pattern_groups` stands for the groups of the
//! first match, and nothing is assumed of it beyond being a function of the
//! pattern and the text.

use vstd::prelude::*;
use crate::config::opt_text;

verus! {

/// A line that is a comment: optional white space, then a semicolon.
pub const COMMENT: &'static str = r"^\s*;(.*)$";

/// A directive that fills up to an address with a byte.
pub const FILL: &'static str = r"^(.*?)fillto \$([A-F0-9]*)\s*,\s*\$([A-F0-9]*)\s*.*$";

/// A block move: address, bytes, `MVN` or `MVP` and two banks.
pub const BLOCK_MOVE: &'static str =
    r"^\$([0-9A-F]{2}:[0-9A-F]{4})\s*(([0-9A-F]{2} ?)+)\s*(MVN|MVP) [0-9A-F]{2} [0-9A-F]{2}\s*((\[\$([0-9A-F]{4}|[0-9A-F]{2}:[0-9A-F]{4})\])*)\s*(;.*)*$";

/// An instruction: address, bytes, mnemonic, operand, the effective address
/// in brackets, comment.
pub const CODE: &'static str =
    r"^\$([0-9A-F]{2}:[0-9A-F]{4})\s*(([0-9A-F]{2} ?)+)\s*([A-Z]{3})\s*(([#\$A-F0-9sxySXY,()\[\]])*?)\s*((\[\$([0-9A-F]{4}|[0-9A-F]{2}:[0-9A-F]{4})\])*)\s*(;.*)*$";

/// The start of data: address, directive, a list of values, comment.
pub const DATA_START: &'static str =
    r"^\$([0-9A-F]{2}:[0-9A-F]{4})(/\$[0-9A-F]{4}|)\s*(|db|dw|dl|dx|dW)\s*((([A-F0-9]*),\s*)*([A-F0-9]*))(\s*$|\s*;)(.*)$";

/// More data: an indented list of values, comment.
pub const DATA_MORE: &'static str = r"^\s+((([A-F0-9]*),\s*)*([A-F0-9]*))(\s*$|\s*;)(.*)$";

/// The banner above a subroutine.
pub const BANNER: &'static str = r"^;;;(.*)\n[\W\w\s]*?^\$([A-Z0-9]{2}:[A-Z0-9]{4})";

/// The name of a trace file: the bank it starts with and, after two dots,
/// the bank it ends with.
pub const FILE_NAME: &'static str = r"Bank \$([0-9A-F]{2})(\.\.\$([0-9A-F]{2})|)";

/// Why a pattern was not accepted.
#[verifier::external_type_specification]
#[verifier::external_body]
pub struct ExPatternError(regex::Error);

/// Whether `regex::Regex::new` accepts the pattern.
pub uninterp spec fn pattern_accepted(pattern: Seq<char>) -> bool;

/// What `regex::Regex::captures` finds in `text` for an accepted pattern:
/// nothing where the pattern matches nowhere, else the groups of the first
/// match, the whole match first, each with the text it matched if it took
/// part in the match.
pub uninterp spec fn pattern_groups(pattern: Seq<char>, text: Seq<char>) -> Option<
    Seq<Option<Seq<char>>>,
>;

/// The text of each group.
pub open spec fn group_views(g: Seq<Option<String>>) -> Seq<Option<Seq<char>>> {
    g.map_values(|s: Option<String>| opt_text(s))
}

/// The text of each group of a match, if there is a match.
pub open spec fn match_view(m: Option<Vec<Option<String>>>) -> Option<Seq<Option<Seq<char>>>> {
    match m {
        Some(g) => Some(group_views(g@)),
        None => None,
    }
}

/// Compiles `pattern` with `regex::Regex::new` and searches `text` with
/// `regex::Regex::captures`. The contract claims that both are functions of
/// their arguments: an error comes exactly for the patterns that are not
/// accepted, and what is found is what `pattern_groups` names.
#[verifier::external_body]
fn captures(pattern: &str, text: &str) -> (r: Result<
    Option<Vec<Option<String>>>,
    regex::Error,
>)
    ensures
        match r {
            Ok(found) => pattern_accepted(pattern@) && match_view(found) == pattern_groups(
                pattern@,
                text@,
            ),
            Err(_) => !pattern_accepted(pattern@),
        },
{
    let compiled = regex::Regex::new(pattern)?;
    Ok(
        compiled.captures(text).map(
            |c| c.iter().map(|g| g.map(|m| m.as_str().to_string())).collect(),
        ),
    )
}

/// Why a pattern cannot be used: the matcher does not accept it.
#[derive(Debug, Clone, Copy, PartialEq, Eq, Structural)]
pub struct Rejected;

/// The groups of the first match of `pattern` in `text`, if there is a
/// match.
pub fn find(pattern: &str, text: &str) -> (r: Result<Option<Vec<Option<String>>>, Rejected>)
    ensures
        match r {
            Ok(found) => pattern_accepted(pattern@) && match_view(found) == pattern_groups(
                pattern@,
                text@,
            ),
            Err(_) => !pattern_accepted(pattern@),
        },
{
    match captures(pattern, text) {
        Ok(found) => Ok(found),
        Err(_) => Err(Rejected),
    }
}

} // verus!
