//! Verified text building blocks: decimal and binary rendering of integers,
//! decimal parsing, padding, and the diagnostic lines shared by the commands.

use vstd::prelude::*;

verus! {

// ---------------------------------------------------------------------------
// Digits
// ---------------------------------------------------------------------------

/// The character for one digit value (base up to ten).
pub open spec fn digit_char(d: int) -> char {
    if d == 0 {
        '0'
    } else if d == 1 {
        '1'
    } else if d == 2 {
        '2'
    } else if d == 3 {
        '3'
    } else if d == 4 {
        '4'
    } else if d == 5 {
        '5'
    } else if d == 6 {
        '6'
    } else if d == 7 {
        '7'
    } else if d == 8 {
        '8'
    } else {
        '9'
    }
}

/// Decimal digits of `n`, most significant first, no leading zeros
/// (a single `'0'` for zero).
pub open spec fn spec_dec_digits(n: nat) -> Seq<char>
    decreases n,
{
    if n < 10 {
        seq![digit_char(n as int)]
    } else {
        spec_dec_digits(n / 10).push(digit_char((n % 10) as int))
    }
}

/// Binary digits of `n`, most significant first, no leading zeros.
pub open spec fn spec_bin_digits(n: nat) -> Seq<char>
    decreases n,
{
    if n < 2 {
        seq![digit_char(n as int)]
    } else {
        spec_bin_digits(n / 2).push(digit_char((n % 2) as int))
    }
}

fn digit_str(d: u64) -> (s: &'static str)
    requires
        d < 10,
    ensures
        s@ == seq![digit_char(d as int)],
{
    proof {
        reveal_strlit("0");
        reveal_strlit("1");
        reveal_strlit("2");
        reveal_strlit("3");
        reveal_strlit("4");
        reveal_strlit("5");
        reveal_strlit("6");
        reveal_strlit("7");
        reveal_strlit("8");
        reveal_strlit("9");
    }
    let s: &'static str = match d {
        0 => "0",
        1 => "1",
        2 => "2",
        3 => "3",
        4 => "4",
        5 => "5",
        6 => "6",
        7 => "7",
        8 => "8",
        _ => "9",
    };
    proof {
        assert(s@ =~= seq![digit_char(d as int)]);
    }
    s
}

/// Render `n` in decimal.
pub fn u64_to_string(n: u64) -> (s: String)
    ensures
        s@ == spec_dec_digits(n as nat),
    decreases n,
{
    if n < 10 {
        digit_str(n).to_owned()
    } else {
        let s = u64_to_string(n / 10).concat(digit_str(n % 10));
        proof {
            assert(s@ =~= spec_dec_digits(n as nat));
        }
        s
    }
}

/// Render `n` in decimal.
pub fn u32_to_string(n: u32) -> (s: String)
    ensures
        s@ == spec_dec_digits(n as nat),
{
    u64_to_string(n as u64)
}

/// Decimal rendering of a signed value: a minus sign before the digits of the
/// magnitude when negative.
pub open spec fn spec_i64_digits(n: int) -> Seq<char> {
    if n < 0 {
        seq!['-'] + spec_dec_digits((-n) as nat)
    } else {
        spec_dec_digits(n as nat)
    }
}

/// Render `n` in decimal, with a sign when negative.
pub fn i64_to_string(n: i64) -> (s: String)
    ensures
        s@ == spec_i64_digits(n as int),
{
    if n >= 0 {
        u64_to_string(n as u64)
    } else {
        let mag: u64 = (-(n as i128)) as u64;
        let s = "-".to_owned().concat(u64_to_string(mag).as_str());
        proof {
            reveal_strlit("-");
            assert(s@ =~= spec_i64_digits(n as int));
        }
        s
    }
}

// ---------------------------------------------------------------------------
// Decimal parsing
// ---------------------------------------------------------------------------

pub open spec fn is_digit(c: char) -> bool {
    '0' <= c && c <= '9'
}

pub open spec fn digit_val(c: char) -> int {
    c as int - '0' as int
}

pub open spec fn all_digits(s: Seq<char>) -> bool {
    forall|i: int| 0 <= i < s.len() ==> is_digit(#[trigger] s[i])
}

/// The value of a sequence of decimal digits, most significant first.
pub open spec fn spec_dec_val(s: Seq<char>) -> int
    decreases s.len(),
{
    if s.len() == 0 {
        0
    } else {
        spec_dec_val(s.drop_last()) * 10 + digit_val(s.last())
    }
}

proof fn lemma_dec_val_nonneg(s: Seq<char>)
    requires
        all_digits(s),
    ensures
        spec_dec_val(s) >= 0,
    decreases s.len(),
{
    if s.len() > 0 {
        assert(all_digits(s.drop_last()));
        lemma_dec_val_nonneg(s.drop_last());
    }
}

proof fn lemma_dec_val_grows(s: Seq<char>, i: int)
    requires
        all_digits(s),
        0 <= i <= s.len(),
    ensures
        spec_dec_val(s) >= spec_dec_val(s.take(i)),
    decreases s.len() - i,
{
    if i < s.len() {
        lemma_dec_val_grows(s, i + 1);
        let t = s.take(i + 1);
        assert(t.drop_last() =~= s.take(i));
        assert(all_digits(s.take(i)));
        lemma_dec_val_nonneg(s.take(i));
        assert(spec_dec_val(t) == spec_dec_val(s.take(i)) * 10 + digit_val(s[i]));
    } else {
        assert(s.take(i) =~= s);
    }
}

/// The value of the decimal digits of `s` from position `from` on, when they
/// are one or more digits whose value is at most `bound`.
pub open spec fn spec_parse_digits(s: Seq<char>, from: int, bound: int) -> Option<u64> {
    let t = s.subrange(from, s.len() as int);
    if t.len() > 0 && all_digits(t) && 0 <= spec_dec_val(t) && spec_dec_val(t) <= bound {
        Some(spec_dec_val(t) as u64)
    } else {
        None
    }
}

fn parse_digits(s: &str, from: usize, bound: u64) -> (r: Option<u64>)
    requires
        from <= s@.len(),
    ensures
        r == spec_parse_digits(s@, from as int, bound as int),
{
    let ghost t = s@.subrange(from as int, s@.len() as int);
    let n = s.unicode_len();
    if from == n {
        return None;
    }
    let mut acc: u64 = 0;
    let mut i: usize = from;
    while i < n
        invariant
            from <= i <= n,
            n == s@.len(),
            t == s@.subrange(from as int, s@.len() as int),
            all_digits(t.take(i - from)),
            acc == spec_dec_val(t.take(i - from)),
            acc <= bound,
        decreases n - i,
    {
        let c = s.get_char(i);
        proof {
            assert(t[i - from] == s@[i as int]);
        }
        if c < '0' || c > '9' {
            proof {
                assert(!is_digit(t[i - from]));
            }
            return None;
        }
        let d: u64 = (c as u64) - ('0' as u64);
        proof {
            assert(d == digit_val(t[i - from]));
            let tk = t.take(i + 1 - from);
            assert(tk.drop_last() =~= t.take(i - from));
            assert(tk.last() == t[i - from]);
            assert(spec_dec_val(tk) == acc * 10 + digit_val(t[i - from]));
            assert forall|k: int| 0 <= k < tk.len() implies is_digit(#[trigger] tk[k]) by {
                if k < i - from {
                    assert(tk[k] == t.take(i - from)[k]);
                } else {
                    assert(tk[k] == t[i - from]);
                }
            }
        }
        if d > bound || acc > (bound - d) / 10 {
            proof {
                assert(spec_dec_val(t.take(i + 1 - from)) > bound);
                if all_digits(t) {
                    lemma_dec_val_grows(t, i + 1 - from);
                }
            }
            return None;
        }
        acc = acc * 10 + d;
        i += 1;
    }
    proof {
        assert(t.take(n - from) =~= t);
    }
    Some(acc)
}

/// The value of `s` as an unsigned decimal number, when `s` is one or more
/// digits whose value fits in `u32`.
pub open spec fn spec_parse_u32(s: Seq<char>) -> Option<u32> {
    match spec_parse_digits(s, 0, u32::MAX as int) {
        Some(v) => Some(v as u32),
        None => None,
    }
}

/// Parse an unsigned decimal number.
pub fn parse_u32(s: &str) -> (r: Option<u32>)
    ensures
        r == spec_parse_u32(s@),
{
    proof {
        assert(s@.subrange(0, s@.len() as int) =~= s@);
    }
    match parse_digits(s, 0, u32::MAX as u64) {
        Some(v) => Some(v as u32),
        None => None,
    }
}

/// The value of `s` as a signed decimal number: an optional minus sign
/// followed by one or more digits, the value fitting in `i64`.
pub open spec fn spec_parse_i64(s: Seq<char>) -> Option<i64> {
    if s.len() > 0 && s[0] == '-' {
        match spec_parse_digits(s, 1, 0x8000000000000000) {
            Some(v) => Some((-(v as int)) as i64),
            None => None,
        }
    } else {
        match spec_parse_digits(s, 0, i64::MAX as int) {
            Some(v) => Some(v as i64),
            None => None,
        }
    }
}

/// Parse a signed decimal number.
pub fn parse_i64(s: &str) -> (r: Option<i64>)
    ensures
        r == spec_parse_i64(s@),
{
    if s.unicode_len() > 0 && s.get_char(0) == '-' {
        match parse_digits(s, 1, 0x8000000000000000u64) {
            Some(v) => {
                proof {
                    assert(spec_parse_digits(s@, 1, 0x8000000000000000) == Some(v));
                    assert(v <= 0x8000000000000000u64);
                }
                Some((0i128 - (v as i128)) as i64)
            },
            None => None,
        }
    } else {
        match parse_digits(s, 0, i64::MAX as u64) {
            Some(v) => {
                proof {
                    assert(spec_parse_digits(s@, 0, i64::MAX as int) == Some(v));
                    assert(v <= i64::MAX as u64);
                }
                Some(v as i64)
            },
            None => None,
        }
    }
}

// ---------------------------------------------------------------------------
// Padding and fixed-width binary rendering
// ---------------------------------------------------------------------------

/// `k` zero characters.
pub open spec fn zeros(k: nat) -> Seq<char>
    decreases k,
{
    if k == 0 {
        Seq::empty()
    } else {
        zeros((k - 1) as nat).push('0')
    }
}

/// `k` space characters.
pub open spec fn spaces(k: nat) -> Seq<char>
    decreases k,
{
    if k == 0 {
        Seq::empty()
    } else {
        spaces((k - 1) as nat).push(' ')
    }
}

/// `s` padded with spaces on the right to at least `w` characters.
pub open spec fn spec_pad_right(s: Seq<char>, w: nat) -> Seq<char> {
    s + spaces(if s.len() < w { (w - s.len()) as nat } else { 0 })
}

/// Pad with spaces on the right to at least `w` characters.
pub fn pad_right(s: &str, w: usize) -> (r: String)
    ensures
        r@ == spec_pad_right(s@, w as nat),
{
    let mut r = s.to_owned();
    let mut k = s.unicode_len();
    proof {
        assert(r@ =~= s@ + spaces(0));
    }
    while k < w
        invariant
            k == r@.len(),
            k >= s@.len(),
            r@ == s@ + spaces((k - s@.len()) as nat),
            s@.len() >= w ==> k == s@.len(),
            s@.len() < w ==> k <= w,
        decreases w - k,
    {
        r.append(" ");
        k += 1;
        proof {
            reveal_strlit(" ");
            assert(spaces((k - s@.len()) as nat) =~= spaces((k - 1 - s@.len()) as nat).push(' '));
            assert(r@ =~= s@ + spaces((k - s@.len()) as nat));
        }
    }
    proof {
        if s@.len() >= w {
            assert(r@ =~= spec_pad_right(s@, w as nat));
        }
    }
    r
}

/// The binary digits of `n`, zero-padded on the left to eleven places, after
/// a `0b` prefix.
pub open spec fn spec_bin11(n: nat) -> Seq<char> {
    let b = spec_bin_digits(n);
    "0b"@ + zeros(if b.len() < 11 { (11 - b.len()) as nat } else { 0 }) + b
}

fn bin_digits_string(n: u32) -> (s: String)
    ensures
        s@ == spec_bin_digits(n as nat),
    decreases n,
{
    if n < 2 {
        digit_str(n as u64).to_owned()
    } else {
        let s = bin_digits_string(n / 2).concat(digit_str((n % 2) as u64));
        proof {
            assert(s@ =~= spec_bin_digits(n as nat));
        }
        s
    }
}

proof fn lemma_bin_digits_len(n: nat)
    ensures
        spec_bin_digits(n).len() >= 1,
    decreases n,
{
    if n >= 2 {
        lemma_bin_digits_len(n / 2);
    }
}

/// Render `n` in binary, zero-padded on the left to eleven places, with a
/// `0b` prefix.
pub fn bin11_string(n: u32) -> (s: String)
    ensures
        s@ == spec_bin11(n as nat),
{
    let b = bin_digits_string(n);
    let blen = b.unicode_len();
    proof {
        lemma_bin_digits_len(n as nat);
    }
    let mut r = "0b".to_owned();
    let mut k: usize = 0;
    let ghost pad: nat = if blen < 11 { (11 - blen) as nat } else { 0 };
    let cap: usize = if blen < 11 {
        11 - blen
    } else {
        0
    };
    while k < cap
        invariant
            r@ == "0b"@ + zeros(k as nat),
            k <= pad,
            cap == pad,
            pad == (if b@.len() < 11 { 11 - b@.len() } else { 0 }),
            b@ == spec_bin_digits(n as nat),
        decreases 11 - k,
    {
        r.append("0");
        k += 1;
        proof {
            reveal_strlit("0");
            assert(zeros(k as nat) =~= zeros((k - 1) as nat).push('0'));
            assert(r@ =~= "0b"@ + zeros(k as nat));
        }
    }
    proof {
        assert(k == pad);
    }
    let s = r.concat(b.as_str());
    proof {
        assert(s@ =~= spec_bin11(n as nat));
    }
    s
}

// ---------------------------------------------------------------------------
// Booleans and characters
// ---------------------------------------------------------------------------

/// The text of a boolean value.
pub open spec fn spec_bool_str(b: bool) -> Seq<char> {
    if b {
        "true"@
    } else {
        "false"@
    }
}

/// The text of a boolean value.
pub fn bool_str(b: bool) -> (s: &'static str)
    ensures
        s@ == spec_bool_str(b),
{
    if b {
        "true"
    } else {
        "false"
    }
}

/// A labelled boolean line: the label text followed by `true` or `false`.
pub fn bool_line(label: &str, b: bool) -> (r: String)
    ensures
        r@ == label@ + spec_bool_str(b),
{
    label.to_owned().concat(bool_str(b))
}

/// Whether two pieces of text hold the same characters.
pub fn str_eq(a: &str, b: &str) -> (r: bool)
    ensures
        r == (a@ == b@),
{
    let oa = a.to_owned();
    let ob = b.to_owned();
    oa == ob
}

/// Relies on std's `String::push`: pushing one character onto the empty
/// string yields the one-character string.
#[verifier::external_body]
pub fn char_to_string(c: char) -> (s: String)
    ensures
        s@ == seq![c],
{
    let mut s = String::new();
    s.push(c);
    s
}

// ---------------------------------------------------------------------------
// Diagnostic lines shared by the commands
// ---------------------------------------------------------------------------

/// `option: --NAME VALUE`
pub open spec fn spec_opt_line(name: Seq<char>, value: Seq<char>) -> Seq<char> {
    "option: --"@ + name + " "@ + value
}

/// Report one option and its value.
pub fn opt_line(name: &str, value: &str) -> (r: String)
    ensures
        r@ == spec_opt_line(name@, value@),
{
    let r = "option: --".to_owned().concat(name).concat(" ").concat(value);
    proof {
        assert(r@ =~= spec_opt_line(name@, value@));
    }
    r
}

/// `option '--NAME' is required`
pub open spec fn spec_required_line(name: Seq<char>) -> Seq<char> {
    "option '--"@ + name + "' is required"@
}

/// Report a missing required option.
pub fn required_line(name: &str) -> (r: String)
    ensures
        r@ == spec_required_line(name@),
{
    let r = "option '--".to_owned().concat(name).concat("' is required");
    proof {
        assert(r@ =~= spec_required_line(name@));
    }
    r
}

/// `options '--A' and '--B' can't be set both`
pub open spec fn spec_both_set_line(a: Seq<char>, b: Seq<char>) -> Seq<char> {
    "options '--"@ + a + "' and '--"@ + b + "' can't be set both"@
}

/// Report two mutually exclusive options both given.
pub fn both_set_line(a: &str, b: &str) -> (r: String)
    ensures
        r@ == spec_both_set_line(a@, b@),
{
    let r = "options '--".to_owned().concat(a).concat("' and '--").concat(b).concat(
        "' can't be set both",
    );
    proof {
        assert(r@ =~= spec_both_set_line(a@, b@));
    }
    r
}

/// `option '--A' or '--B' is required`
pub open spec fn spec_either_required_line(a: Seq<char>, b: Seq<char>) -> Seq<char> {
    "option '--"@ + a + "' or '--"@ + b + "' is required"@
}

/// Report that one of two options must be given.
pub fn either_required_line(a: &str, b: &str) -> (r: String)
    ensures
        r@ == spec_either_required_line(a@, b@),
{
    let r = "option '--".to_owned().concat(a).concat("' or '--").concat(b).concat(
        "' is required",
    );
    proof {
        assert(r@ =~= spec_either_required_line(a@, b@));
    }
    r
}

/// `option '--NAME' missing: get input from stdin`
pub open spec fn spec_stdin_line(name: Seq<char>) -> Seq<char> {
    "option '--"@ + name + "' missing: get input from stdin"@
}

/// Report the fall-back to standard input when an input option is absent.
pub fn stdin_line(name: &str) -> (r: String)
    ensures
        r@ == spec_stdin_line(name@),
{
    let r = "option '--".to_owned().concat(name).concat("' missing: get input from stdin");
    proof {
        assert(r@ =~= spec_stdin_line(name@));
    }
    r
}

/// `option '--A' or '--B' missing: get input from stdin`
pub open spec fn spec_either_stdin_line(a: Seq<char>, b: Seq<char>) -> Seq<char> {
    "option '--"@ + a + "' or '--"@ + b + "' missing: get input from stdin"@
}

/// Report the fall-back to standard input when both input options are absent.
pub fn either_stdin_line(a: &str, b: &str) -> (r: String)
    ensures
        r@ == spec_either_stdin_line(a@, b@),
{
    let r = "option '--".to_owned().concat(a).concat("' or '--").concat(b).concat(
        "' missing: get input from stdin",
    );
    proof {
        assert(r@ =~= spec_either_stdin_line(a@, b@));
    }
    r
}

/// `option '--A' and '--B' missing: get input from stdin`
pub open spec fn spec_and_stdin_line(a: Seq<char>, b: Seq<char>) -> Seq<char> {
    "option '--"@ + a + "' and '--"@ + b + "' missing: get input from stdin"@
}

/// Report the fall-back to standard input when both input options are absent.
pub fn and_stdin_line(a: &str, b: &str) -> (r: String)
    ensures
        r@ == spec_and_stdin_line(a@, b@),
{
    let r = "option '--".to_owned().concat(a).concat("' and '--").concat(b).concat(
        "' missing: get input from stdin",
    );
    proof {
        assert(r@ =~= spec_and_stdin_line(a@, b@));
    }
    r
}

/// `option '--A' is required if '--B' is set`
pub open spec fn spec_required_if_line(a: Seq<char>, b: Seq<char>) -> Seq<char> {
    "option '--"@ + a + "' is required if '--"@ + b + "' is set"@
}

/// Report an option that another given option makes mandatory.
pub fn required_if_line(a: &str, b: &str) -> (r: String)
    ensures
        r@ == spec_required_if_line(a@, b@),
{
    let r = "option '--".to_owned().concat(a).concat("' is required if '--").concat(b).concat(
        "' is set",
    );
    proof {
        assert(r@ =~= spec_required_if_line(a@, b@));
    }
    r
}

/// `invalid '--NAME' value`
pub open spec fn spec_invalid_value_line(name: Seq<char>) -> Seq<char> {
    "invalid '--"@ + name + "' value"@
}

/// Report an option value that is not a number where one is expected.
pub fn invalid_value_line(name: &str) -> (r: String)
    ensures
        r@ == spec_invalid_value_line(name@),
{
    let r = "invalid '--".to_owned().concat(name).concat("' value");
    proof {
        assert(r@ =~= spec_invalid_value_line(name@));
    }
    r
}

// ---------------------------------------------------------------------------
// Building line lists
// ---------------------------------------------------------------------------

/// One line `PREFIXVALUE` for each value, in order.
pub open spec fn spec_prefixed_lines(prefix: Seq<char>, vals: Seq<Seq<char>>) -> Seq<Seq<char>> {
    vals.map_values(|v: Seq<char>| prefix + v)
}

/// Append one prefixed line for each value, in order.
pub fn push_prefixed_lines(lines: &mut Vec<String>, prefix: &str, vals: &Vec<String>)
    ensures
        final(lines).deep_view() == old(lines).deep_view() + spec_prefixed_lines(
            prefix@,
            vals.deep_view(),
        ),
{
    let ghost base = old(lines).deep_view();
    let ghost vs = vals.deep_view();
    let mut k: usize = 0;
    proof {
        assert(lines.deep_view() =~= base + spec_prefixed_lines(prefix@, vs.take(0)));
    }
    while k < vals.len()
        invariant
            k <= vals.len(),
            vs == vals.deep_view(),
            lines.deep_view() == base + spec_prefixed_lines(prefix@, vs.take(k as int)),
        decreases vals.len() - k,
    {
        let line = prefix.to_owned().concat(vals[k].as_str());
        lines.push(line);
        k += 1;
        proof {
            assert(vs.take(k as int) =~= vs.take(k - 1).push(vs[k - 1]));
            assert(spec_prefixed_lines(prefix@, vs.take(k as int)) =~= spec_prefixed_lines(
                prefix@,
                vs.take(k - 1),
            ).push(prefix@ + vs[k - 1]));
            assert(lines.deep_view() =~= (base + spec_prefixed_lines(prefix@, vs.take(k - 1))).push(
                prefix@ + vs[k - 1],
            ));
            assert(lines.deep_view() =~= base + spec_prefixed_lines(prefix@, vs.take(k as int)));
        }
    }
    proof {
        assert(vs.take(vals.len() as int) =~= vs);
    }
}

/// One `option: --NAME VALUE` line for each value, in order.
pub open spec fn spec_multi_lines(name: Seq<char>, vals: Seq<Seq<char>>) -> Seq<Seq<char>> {
    vals.map_values(|v: Seq<char>| spec_opt_line(name, v))
}

/// Append one report line for each value of a repeatable option.
pub fn push_multi_lines(lines: &mut Vec<String>, name: &str, vals: &Vec<String>)
    ensures
        final(lines).deep_view() == old(lines).deep_view() + spec_multi_lines(
            name@,
            vals.deep_view(),
        ),
{
    let ghost base = old(lines).deep_view();
    let ghost vs = vals.deep_view();
    let mut k: usize = 0;
    proof {
        assert(lines.deep_view() =~= base + spec_multi_lines(name@, vs.take(0)));
    }
    while k < vals.len()
        invariant
            k <= vals.len(),
            vs == vals.deep_view(),
            lines.deep_view() == base + spec_multi_lines(name@, vs.take(k as int)),
        decreases vals.len() - k,
    {
        let line = opt_line(name, vals[k].as_str());
        lines.push(line);
        k += 1;
        proof {
            assert(vs.take(k as int) =~= vs.take(k - 1).push(vs[k - 1]));
            assert(spec_multi_lines(name@, vs.take(k as int)) =~= spec_multi_lines(
                name@,
                vs.take(k - 1),
            ).push(spec_opt_line(name@, vs[k - 1])));
            assert(lines.deep_view() =~= (base + spec_multi_lines(name@, vs.take(k - 1))).push(
                spec_opt_line(name@, vs[k - 1]),
            ));
            assert(lines.deep_view() =~= base + spec_multi_lines(name@, vs.take(k as int)));
        }
    }
    proof {
        assert(vs.take(vals.len() as int) =~= vs);
    }
}

} // verus!
