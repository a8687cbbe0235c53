//! The report fragments that command operations share: each helper appends
//! the lines one option contributes to a command's output.

use vstd::prelude::*;

use crate::parse::ParsedOptions;
use crate::parse::ParsedV;
use crate::parse::spec_opt_str;
use crate::parse::spec_values;
use crate::text::spec_parse_i64;
use crate::text::spec_parse_u32;
use crate::text::opt_line;
use crate::text::push_multi_lines;
use crate::text::spec_multi_lines;
use crate::text::spec_opt_line;
use crate::text::spec_stdin_line;
use crate::text::stdin_line;

verus! {

/// The report of an optional option: its line when a value was given,
/// nothing otherwise.
pub open spec fn spec_opt_seg(m: ParsedV, short: Seq<char>, name: Seq<char>) -> Seq<Seq<char>> {
    match spec_opt_str(m, short) {
        Some(v) => seq![spec_opt_line(name, v)],
        None => Seq::<Seq<char>>::empty(),
    }
}

/// Append the report of an optional option.
pub fn push_opt_seg(lines: &mut Vec<String>, m: &ParsedOptions, short: &str, name: &str)
    ensures
        final(lines).deep_view() == old(lines).deep_view() + spec_opt_seg(m@, short@, name@),
{
    let ghost base = old(lines).deep_view();
    match m.opt_str(short) {
        Some(v) => {
            lines.push(opt_line(name, v.as_str()));
            proof {
                assert(lines.deep_view() =~= base + spec_opt_seg(m@, short@, name@));
            }
        },
        None => {
            proof {
                assert(lines.deep_view() =~= base + spec_opt_seg(m@, short@, name@));
            }
        },
    }
}

/// The report of an input option: its line when a value was given, the
/// fall-back to standard input otherwise.
pub open spec fn spec_in_seg(m: ParsedV, short: Seq<char>, name: Seq<char>) -> Seq<Seq<char>> {
    match spec_opt_str(m, short) {
        Some(v) => seq![spec_opt_line(name, v)],
        None => seq![spec_stdin_line(name)],
    }
}

/// Append the report of an input option, falling back to standard input.
pub fn push_in_seg(lines: &mut Vec<String>, m: &ParsedOptions, short: &str, name: &str)
    ensures
        final(lines).deep_view() == old(lines).deep_view() + spec_in_seg(m@, short@, name@),
{
    let ghost base = old(lines).deep_view();
    match m.opt_str(short) {
        Some(v) => {
            lines.push(opt_line(name, v.as_str()));
        },
        None => {
            lines.push(stdin_line(name));
        },
    }
    proof {
        assert(lines.deep_view() =~= base + spec_in_seg(m@, short@, name@));
    }
}

/// The report of a repeatable option: one line per value, in order.
pub open spec fn spec_multi_seg(m: ParsedV, short: Seq<char>, name: Seq<char>) -> Seq<Seq<char>> {
    spec_multi_lines(name, spec_values(m, short))
}

/// Append the report of a repeatable option.
pub fn push_multi_seg(lines: &mut Vec<String>, m: &ParsedOptions, short: &str, name: &str)
    ensures
        final(lines).deep_view() == old(lines).deep_view() + spec_multi_seg(m@, short@, name@),
{
    let vals = m.opt_strs(short);
    push_multi_lines(lines, name, &vals);
}

/// The largest day count whose lifetime in seconds still fits a signed
/// 64-bit value.
pub const MAX_LIFETIME_DAYS: i64 = 106751991167300;

/// The day count an option names: the parsed number, or the default when the
/// option is absent. A value that is no number, or whose lifetime in seconds
/// would not fit, yields nothing.
pub open spec fn spec_lifetime_days(m: ParsedV, short: Seq<char>, dflt: i64) -> Option<i64> {
    let days = match spec_opt_str(m, short) {
        Some(s) => spec_parse_i64(s),
        None => Some(dflt),
    };
    match days {
        Some(d) => if -MAX_LIFETIME_DAYS <= d <= MAX_LIFETIME_DAYS {
            Some(d)
        } else {
            None
        },
        None => None,
    }
}

/// The number an option names: the parsed value, or the default when the
/// option is absent.
pub open spec fn spec_u32_or(m: ParsedV, short: Seq<char>, dflt: u32) -> Option<u32> {
    match spec_opt_str(m, short) {
        Some(s) => spec_parse_u32(s),
        None => Some(dflt),
    }
}

/// The value of an option, or empty text when it was not given.
pub open spec fn spec_or_empty(m: ParsedV, short: Seq<char>) -> Seq<char> {
    match spec_opt_str(m, short) {
        Some(v) => v,
        None => Seq::<char>::empty(),
    }
}

/// The value of an option, or the empty string when it was not given.
pub fn opt_str_or_empty(m: &ParsedOptions, short: &str) -> (r: String)
    ensures
        r@ == spec_or_empty(m@, short@),
{
    match m.opt_str(short) {
        Some(v) => v,
        None => String::new(),
    }
}

} // verus!
