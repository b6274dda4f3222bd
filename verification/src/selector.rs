//! The interactive selector: renders one numbered line per account plus a
//! quit line, and resolves one line of input to a quit request, a chosen
//! account, or a terminal failure.

use vstd::prelude::*;
use vstd::string::{StrSliceExecFns, StringExecFns};
use crate::account::Account;
use crate::text::{
    dec_rep, digits_val, is_digit_seq, parse_usize, spec_trim_line, trim_line, usize_to_string,
};

verus! {

/// What one line of input resolves to, against a registry of N accounts.
#[derive(Clone, Copy, PartialEq, Eq, Structural, Debug)]
pub enum Selection {
    /// The literal `q`: leave without touching anything, status zero.
    Quit,
    /// A number in `1..=N`, carried as the 0-based registry index.
    Chosen(usize),
    /// Input that is neither `q` nor a base-10 number a machine word holds.
    NotANumber,
    /// A number outside `1..=N`.
    OutOfRange,
}

/// How trimmed input resolves against a registry of `count` accounts.
pub open spec fn spec_resolve(input: Seq<char>, count: int) -> Selection {
    if input == "q"@ {
        Selection::Quit
    } else if !(is_digit_seq(input) && digits_val(input) <= usize::MAX) {
        Selection::NotANumber
    } else if digits_val(input) < 1 || digits_val(input) > count {
        Selection::OutOfRange
    } else {
        Selection::Chosen((digits_val(input) - 1) as usize)
    }
}

/// The status the process ends with when the selection is terminal; a
/// chosen account carries the run on towards activation and a zero status.
pub open spec fn spec_exit_code(sel: Selection) -> u8 {
    match sel {
        Selection::Quit => 0,
        Selection::Chosen(_) => 0,
        Selection::NotANumber => 2,
        Selection::OutOfRange => 3,
    }
}

/// Only a chosen account goes on to touch symlinks or configuration.
pub open spec fn selection_activates(sel: Selection) -> bool {
    sel is Chosen
}

impl Selection {
    /// The process status this resolution ends with; zero exactly on quit
    /// or on a valid choice.
    pub fn exit_code(&self) -> (c: u8)
        ensures
            c == spec_exit_code(*self),
            (c == 0) <==> (*self is Quit || *self is Chosen),
    {
        match self {
            Selection::Quit => 0,
            Selection::Chosen(_) => 0,
            Selection::NotANumber => 2,
            Selection::OutOfRange => 3,
        }
    }

    /// The diagnostic printed for a failed resolution; nothing is printed
    /// for quit or for a valid choice.
    pub fn message(&self) -> (m: Option<String>)
        ensures
            match m {
                Some(s) => (*self is NotANumber && s@ == "Not an integer..."@) || (*self
                    is OutOfRange && s@ == "Out of range selection"@),
                None => *self is Quit || *self is Chosen,
            },
    {
        match self {
            Selection::Quit => None,
            Selection::Chosen(_) => None,
            Selection::NotANumber => Some("Not an integer...".to_owned()),
            Selection::OutOfRange => Some("Out of range selection".to_owned()),
        }
    }
}

/// Resolves one raw line of input (one trailing line terminator is
/// trimmed) against a registry of `count` accounts.
pub fn resolve_selection(raw: &str, count: usize) -> (sel: Selection)
    ensures
        sel == spec_resolve(spec_trim_line(raw@), count as int),
        sel matches Selection::Chosen(i) ==> i < count,
{
    let t = trim_line(raw);
    if t.unicode_len() == 1 && t.get_char(0) == 'q' {
        proof {
            reveal_strlit("q");
            assert(t@ =~= "q"@);
        }
        Selection::Quit
    } else {
        proof {
            reveal_strlit("q");
            assert(t@ != "q"@) by {
                if t@ == "q"@ {
                    assert(t@.len() == 1 && t@[0] == 'q');
                }
            }
        }
        match parse_usize(t) {
            None => Selection::NotANumber,
            Some(v) => {
                if v < 1 || v > count {
                    Selection::OutOfRange
                } else {
                    Selection::Chosen(v - 1)
                }
            },
        }
    }
}

/// The menu line for one account: `[<ordinal>]: <key>`.
pub open spec fn menu_entry(ordinal: nat, key: Seq<char>) -> Seq<char> {
    "["@ + dec_rep(ordinal) + "]: "@ + key
}

/// The closing menu line.
pub open spec fn quit_entry() -> Seq<char> {
    "[q]: Quit"@
}

/// Renders the selection menu: one numbered line per account, ordinals
/// `1..=N` in load order, then the quit line.
pub fn menu_lines(accounts: &Vec<Account>) -> (lines: Vec<String>)
    ensures
        lines@.len() == accounts@.len() + 1,
        forall|i: int|
            0 <= i < accounts@.len() ==> (#[trigger] lines@[i])@ == menu_entry(
                (i + 1) as nat,
                accounts@[i].key@,
            ),
        lines@[accounts@.len() as int]@ == quit_entry(),
{
    let mut lines: Vec<String> = Vec::new();
    let mut i: usize = 0;
    while i < accounts.len()
        invariant
            0 <= i <= accounts@.len(),
            lines@.len() == i,
            forall|k: int|
                0 <= k < i ==> (#[trigger] lines@[k])@ == menu_entry(
                    (k + 1) as nat,
                    accounts@[k].key@,
                ),
        decreases accounts@.len() - i,
    {
        let mut line = "[".to_owned();
        line.append(usize_to_string(i + 1).as_str());
        line.append("]: ");
        line.append(accounts[i].key.as_str());
        lines.push(line);
        i = i + 1;
    }
    lines.push("[q]: Quit".to_owned());
    lines
}

/// Law: selecting `q` asks for nothing but a clean exit — it activates no
/// account and ends the process with status zero, whatever the registry
/// holds.
pub proof fn lemma_quit_is_inert(count: int)
    ensures
        spec_resolve("q"@, count) == Selection::Quit,
        spec_exit_code(Selection::Quit) == 0,
        !selection_activates(Selection::Quit),
{
}

/// Law: a numeral outside `1..=count` resolves to an out-of-range
/// rejection, which activates nothing and ends with a non-zero status.
pub proof fn lemma_out_of_range_rejected(n: usize, count: int)
    requires
        n == 0 || n > count,
        count >= 0,
    ensures
        spec_resolve(dec_rep(n as nat), count) == Selection::OutOfRange,
        spec_exit_code(Selection::OutOfRange) != 0,
        !selection_activates(Selection::OutOfRange),
{
    let input = dec_rep(n as nat);
    crate::text::lemma_dec_rep_digits(n as nat);
    crate::text::lemma_dec_rep_val(n as nat);
    lemma_digit_seq_is_not_quit(input);
}

/// Law: input that is neither `q` nor a digit string resolves to the
/// not-a-number rejection, which activates nothing and ends with a
/// non-zero status.
pub proof fn lemma_non_numeric_rejected(input: Seq<char>, count: int)
    requires
        input != "q"@,
        !is_digit_seq(input),
    ensures
        spec_resolve(input, count) == Selection::NotANumber,
        spec_exit_code(Selection::NotANumber) != 0,
        !selection_activates(Selection::NotANumber),
{
}

/// Law: against an empty registry only `q` succeeds — every numeral is out
/// of range, and every resolution but quit activates nothing and ends with
/// a non-zero status.
pub proof fn lemma_empty_registry_only_quit(input: Seq<char>)
    ensures
        input == "q"@ ==> spec_resolve(input, 0) == Selection::Quit,
        is_digit_seq(input) && digits_val(input) <= usize::MAX ==> spec_resolve(input, 0)
            == Selection::OutOfRange,
        input != "q"@ ==> !selection_activates(spec_resolve(input, 0)) && spec_exit_code(
            spec_resolve(input, 0),
        ) != 0,
{
    if is_digit_seq(input) {
        lemma_digit_seq_is_not_quit(input);
    }
}

/// A digit string is never the quit request.
pub(crate) proof fn lemma_digit_seq_is_not_quit(input: Seq<char>)
    requires
        is_digit_seq(input),
    ensures
        input != "q"@,
{
    reveal_strlit("q");
    if input == "q"@ {
        assert(input[0] == 'q');
        assert(crate::text::is_digit(input[0]));
    }
}

} // verus!
