//! The option parser: given a list of option descriptors, parse a list of
//! argument tokens into per-option occurrence counts and value lists.
//!
//! Token grammar: `--name` and `--name=value` select an option by its long
//! name, `-c` and `-cvalue` by its short character; a value-taking option
//! without an inline value consumes the next token; `--` ends option
//! processing; anything else is a free argument. Arity is enforced here:
//! a flag takes no value, a single-valued option may be given at most once,
//! a multi-valued option accumulates its values in the order given.

use vstd::pervasive::VecAdditionalExecFns;
use vstd::prelude::*;
use vstd::string::*;

use crate::Arity;
use crate::Opt;
use crate::OptV;
use crate::text::char_to_string;

verus! {

// ---------------------------------------------------------------------------
// Parse results
// ---------------------------------------------------------------------------

/// What parsing recorded for one declared option.
#[derive(Debug, PartialEq, Eq)]
pub struct OptEntry {
    /// long name of the declared option
    pub long: String,
    /// short character of the declared option
    pub short: char,
    /// arity of the declared option
    pub arity: Arity,
    /// how many times the option occurred
    pub count: usize,
    /// the values given, in order
    pub values: Vec<String>,
}

/// The mathematical value of one parse entry.
#[verifier::ext_equal]
pub ghost struct EntryV {
    pub long: Seq<char>,
    pub short: char,
    pub arity: Arity,
    pub count: nat,
    pub values: Seq<Seq<char>>,
}

impl View for OptEntry {
    type V = EntryV;

    open spec fn view(&self) -> EntryV {
        EntryV {
            long: self.long@,
            short: self.short,
            arity: self.arity,
            count: self.count as nat,
            values: self.values.deep_view(),
        }
    }
}

/// The result of a successful parse: one entry per declared option, in
/// declaration order, and the free arguments.
#[derive(Debug, PartialEq, Eq)]
pub struct ParsedOptions {
    /// one entry per declared option, in declaration order
    pub entries: Vec<OptEntry>,
    /// tokens that selected no option, in order
    pub free: Vec<String>,
}

/// The mathematical value of a parse result.
#[verifier::ext_equal]
pub ghost struct ParsedV {
    pub entries: Seq<EntryV>,
    pub free: Seq<Seq<char>>,
}

impl View for ParsedOptions {
    type V = ParsedV;

    open spec fn view(&self) -> ParsedV {
        ParsedV {
            entries: entry_views(self.entries@),
            free: self.free.deep_view(),
        }
    }
}

/// What went wrong while parsing.
#[derive(Clone, Copy, PartialEq, Eq, Structural, Debug)]
pub enum ErrKind {
    /// a token named no declared option
    Unrecognized,
    /// a value-taking option came last, with no value token after it
    MissingArgument,
    /// a flag option was given an inline value
    UnexpectedArgument,
    /// a flag or single-valued option occurred twice
    Duplicated,
}

/// A parse error: the kind, and the option name as written (without dashes).
#[derive(Debug, PartialEq, Eq)]
pub struct ParseError {
    pub kind: ErrKind,
    pub opt: String,
}

/// The mathematical value of a parse error.
#[verifier::ext_equal]
pub ghost struct ParseErrorV {
    pub kind: ErrKind,
    pub opt: Seq<char>,
}

impl View for ParseError {
    type V = ParseErrorV;

    open spec fn view(&self) -> ParseErrorV {
        ParseErrorV { kind: self.kind, opt: self.opt@ }
    }
}

/// The diagnostic line for a parse error.
pub open spec fn spec_err_message(e: ParseErrorV) -> Seq<char> {
    match e.kind {
        ErrKind::Unrecognized => "Unrecognized option: '"@ + e.opt + "'"@,
        ErrKind::MissingArgument => "Argument to option '"@ + e.opt + "' missing"@,
        ErrKind::UnexpectedArgument => "Option '"@ + e.opt + "' does not take an argument"@,
        ErrKind::Duplicated => "Option '"@ + e.opt + "' given more than once"@,
    }
}

impl ParseError {
    /// Render the error as one diagnostic line.
    pub fn message(&self) -> (r: String)
        ensures
            r@ == spec_err_message(self@),
    {
        let r = match self.kind {
            ErrKind::Unrecognized => "Unrecognized option: '".to_owned().concat(
                self.opt.as_str(),
            ).concat("'"),
            ErrKind::MissingArgument => "Argument to option '".to_owned().concat(
                self.opt.as_str(),
            ).concat("' missing"),
            ErrKind::UnexpectedArgument => "Option '".to_owned().concat(self.opt.as_str()).concat(
                "' does not take an argument",
            ),
            ErrKind::Duplicated => "Option '".to_owned().concat(self.opt.as_str()).concat(
                "' given more than once",
            ),
        };
        proof {
            assert(r@ =~= spec_err_message(self@));
        }
        r
    }
}

// ---------------------------------------------------------------------------
// The parse, as a mathematical function
// ---------------------------------------------------------------------------

/// The views of a list of option descriptors.
pub open spec fn opts_view(opts: Seq<Opt>) -> Seq<OptV> {
    opts.map_values(|o: Opt| o@)
}

/// One entry per declared option, nothing recorded yet.
pub open spec fn init_entries(opts: Seq<OptV>) -> Seq<EntryV> {
    opts.map_values(
        |o: OptV|
            EntryV {
                long: o.long,
                short: o.short,
                arity: o.arity,
                count: 0,
                values: Seq::empty(),
            },
    )
}

/// A token that selects an option by long name: `--` followed by more.
pub open spec fn is_long_token(t: Seq<char>) -> bool {
    t.len() > 2 && t[0] == '-' && t[1] == '-'
}

/// The token `--` alone, which ends option processing.
pub open spec fn is_separator(t: Seq<char>) -> bool {
    t.len() == 2 && t[0] == '-' && t[1] == '-'
}

/// A token that selects an option by short character: `-` followed by a
/// character other than `-`.
pub open spec fn is_short_token(t: Seq<char>) -> bool {
    t.len() >= 2 && t[0] == '-' && t[1] != '-'
}

/// The first `=` in `t` at position `i` or later.
pub open spec fn eq_pos_from(t: Seq<char>, i: int) -> Option<int>
    decreases t.len() - i,
{
    if i < 0 || i >= t.len() {
        None
    } else if t[i] == '=' {
        Some(i)
    } else {
        eq_pos_from(t, i + 1)
    }
}

/// The long name in a `--name` or `--name=value` token.
pub open spec fn long_name(t: Seq<char>) -> Seq<char> {
    match eq_pos_from(t, 2) {
        Some(p) => t.subrange(2, p),
        None => t.subrange(2, t.len() as int),
    }
}

/// The inline value in a `--name=value` token.
pub open spec fn long_inline(t: Seq<char>) -> Option<Seq<char>> {
    match eq_pos_from(t, 2) {
        Some(p) => Some(t.subrange(p + 1, t.len() as int)),
        None => None,
    }
}

/// The inline value in a `-cvalue` token.
pub open spec fn short_inline(t: Seq<char>) -> Option<Seq<char>> {
    if t.len() > 2 {
        Some(t.subrange(2, t.len() as int))
    } else {
        None
    }
}

/// The first declared option with this long name, from position `i` on.
pub open spec fn find_long_from(opts: Seq<OptV>, name: Seq<char>, i: int) -> Option<int>
    decreases opts.len() - i,
{
    if i < 0 || i >= opts.len() {
        None
    } else if opts[i].long == name {
        Some(i)
    } else {
        find_long_from(opts, name, i + 1)
    }
}

/// The first declared option with this long name.
pub open spec fn spec_find_long(opts: Seq<OptV>, name: Seq<char>) -> Option<int> {
    find_long_from(opts, name, 0)
}

/// The first declared option with this short character, from position `i` on.
pub open spec fn find_short_from(opts: Seq<OptV>, c: char, i: int) -> Option<int>
    decreases opts.len() - i,
{
    if i < 0 || i >= opts.len() {
        None
    } else if opts[i].short == c {
        Some(i)
    } else {
        find_short_from(opts, c, i + 1)
    }
}

/// The first declared option with this short character.
pub open spec fn spec_find_short(opts: Seq<OptV>, c: char) -> Option<int> {
    find_short_from(opts, c, 0)
}

/// One more occurrence of an option, with its value if one was given.
pub open spec fn bump_entry(e: EntryV, v: Option<Seq<char>>) -> EntryV {
    EntryV {
        long: e.long,
        short: e.short,
        arity: e.arity,
        count: e.count + 1,
        values: match v {
            Some(x) => e.values.push(x),
            None => e.values,
        },
    }
}

/// The parser's running state.
#[verifier::ext_equal]
pub ghost struct ParseSt {
    pub entries: Seq<EntryV>,
    pub free: Seq<Seq<char>>,
    pub sep: bool,
}

/// What one occurrence of declared option `j`, named as `name` with inline
/// value `inline` at token `i`, does to the state: an error, or the updated
/// state and the position of the next unread token.
pub open spec fn spec_apply_opt(
    opts: Seq<OptV>,
    args: Seq<Seq<char>>,
    i: int,
    st: ParseSt,
    j: int,
    name: Seq<char>,
    inline: Option<Seq<char>>,
) -> Result<(ParseSt, int), ParseErrorV>
    recommends
        0 <= j < opts.len(),
        opts.len() == st.entries.len(),
        0 <= i < args.len(),
{
    let e = st.entries[j];
    match opts[j].arity {
        Arity::Flag => {
            if inline is Some {
                Err(ParseErrorV { kind: ErrKind::UnexpectedArgument, opt: name })
            } else if e.count >= 1 {
                Err(ParseErrorV { kind: ErrKind::Duplicated, opt: name })
            } else {
                Ok((ParseSt { entries: st.entries.update(j, bump_entry(e, None)), ..st }, i + 1))
            }
        },
        Arity::Single => {
            if e.count >= 1 {
                Err(ParseErrorV { kind: ErrKind::Duplicated, opt: name })
            } else {
                match inline {
                    Some(v) => Ok(
                        (
                            ParseSt { entries: st.entries.update(j, bump_entry(e, Some(v))), ..st },
                            i + 1,
                        ),
                    ),
                    None => {
                        if i + 1 < args.len() {
                            Ok(
                                (
                                    ParseSt {
                                        entries: st.entries.update(
                                            j,
                                            bump_entry(e, Some(args[i + 1])),
                                        ),
                                        ..st
                                    },
                                    i + 2,
                                ),
                            )
                        } else {
                            Err(ParseErrorV { kind: ErrKind::MissingArgument, opt: name })
                        }
                    },
                }
            }
        },
        Arity::Multiple => {
            match inline {
                Some(v) => Ok(
                    (
                        ParseSt { entries: st.entries.update(j, bump_entry(e, Some(v))), ..st },
                        i + 1,
                    ),
                ),
                None => {
                    if i + 1 < args.len() {
                        Ok(
                            (
                                ParseSt {
                                    entries: st.entries.update(
                                        j,
                                        bump_entry(e, Some(args[i + 1])),
                                    ),
                                    ..st
                                },
                                i + 2,
                            ),
                        )
                    } else {
                        Err(ParseErrorV { kind: ErrKind::MissingArgument, opt: name })
                    }
                },
            }
        },
    }
}

/// Parse the tokens from position `i` on, starting in state `st`.
pub open spec fn spec_parse_from(
    opts: Seq<OptV>,
    args: Seq<Seq<char>>,
    i: int,
    st: ParseSt,
) -> Result<ParseSt, ParseErrorV>
    decreases args.len() - i,
{
    if i < 0 || i >= args.len() {
        Ok(st)
    } else {
        let t = args[i];
        if st.sep {
            spec_parse_from(
                opts,
                args,
                i + 1,
                ParseSt { free: st.free.push(t), ..st },
            )
        } else if is_separator(t) {
            spec_parse_from(opts, args, i + 1, ParseSt { sep: true, ..st })
        } else if is_long_token(t) {
            let name = long_name(t);
            match spec_find_long(opts, name) {
                None => Err(ParseErrorV { kind: ErrKind::Unrecognized, opt: name }),
                Some(j) => match spec_apply_opt(opts, args, i, st, j, name, long_inline(t)) {
                    Err(e) => Err(e),
                    Ok((st2, i2)) => spec_parse_from(opts, args, i2, st2),
                },
            }
        } else if is_short_token(t) {
            let name = seq![t[1]];
            match spec_find_short(opts, t[1]) {
                None => Err(ParseErrorV { kind: ErrKind::Unrecognized, opt: name }),
                Some(j) => match spec_apply_opt(opts, args, i, st, j, name, short_inline(t)) {
                    Err(e) => Err(e),
                    Ok((st2, i2)) => spec_parse_from(opts, args, i2, st2),
                },
            }
        } else {
            spec_parse_from(
                opts,
                args,
                i + 1,
                ParseSt { free: st.free.push(t), ..st },
            )
        }
    }
}

/// The parser's starting state.
pub open spec fn spec_init(opts: Seq<OptV>) -> ParseSt {
    ParseSt { entries: init_entries(opts), free: Seq::empty(), sep: false }
}

/// The whole parse: what [`parse`] returns, as a function of the declared
/// options and the tokens.
pub open spec fn spec_parse(opts: Seq<OptV>, args: Seq<Seq<char>>) -> Result<ParsedV, ParseErrorV> {
    match spec_parse_from(opts, args, 0, spec_init(opts)) {
        Ok(st) => Ok(ParsedV { entries: st.entries, free: st.free }),
        Err(e) => Err(e),
    }
}

// ---------------------------------------------------------------------------
// Lemmas about the searches
// ---------------------------------------------------------------------------

proof fn lemma_eq_pos_skip(t: Seq<char>, i: int, k: int)
    requires
        0 <= i <= k <= t.len(),
        forall|m: int| i <= m < k ==> t[m] != '=',
    ensures
        eq_pos_from(t, i) == eq_pos_from(t, k),
    decreases k - i,
{
    if i < k {
        lemma_eq_pos_skip(t, i + 1, k);
    }
}

proof fn lemma_find_long_range(opts: Seq<OptV>, name: Seq<char>, i: int)
    ensures
        match find_long_from(opts, name, i) {
            Some(j) => i <= j < opts.len() && opts[j].long == name,
            None => true,
        },
    decreases opts.len() - i,
{
    if 0 <= i < opts.len() && opts[i].long != name {
        lemma_find_long_range(opts, name, i + 1);
    }
}

proof fn lemma_find_short_range(opts: Seq<OptV>, c: char, i: int)
    ensures
        match find_short_from(opts, c, i) {
            Some(j) => i <= j < opts.len() && opts[j].short == c,
            None => true,
        },
    decreases opts.len() - i,
{
    if 0 <= i < opts.len() && opts[i].short != c {
        lemma_find_short_range(opts, c, i + 1);
    }
}

proof fn lemma_find_long_skip(opts: Seq<OptV>, name: Seq<char>, i: int, k: int)
    requires
        0 <= i <= k <= opts.len(),
        forall|m: int| i <= m < k ==> #[trigger] opts[m].long != name,
    ensures
        find_long_from(opts, name, i) == find_long_from(opts, name, k),
    decreases k - i,
{
    if i < k {
        lemma_find_long_skip(opts, name, i + 1, k);
    }
}

proof fn lemma_find_short_skip(opts: Seq<OptV>, c: char, i: int, k: int)
    requires
        0 <= i <= k <= opts.len(),
        forall|m: int| i <= m < k ==> #[trigger] opts[m].short != c,
    ensures
        find_short_from(opts, c, i) == find_short_from(opts, c, k),
    decreases k - i,
{
    if i < k {
        lemma_find_short_skip(opts, c, i + 1, k);
    }
}

// ---------------------------------------------------------------------------
// The executable parser
// ---------------------------------------------------------------------------

/// The views of the recorded entries.
pub open spec fn entry_views(entries: Seq<OptEntry>) -> Seq<EntryV> {
    entries.map_values(|e: OptEntry| e@)
}

/// The recorded entries still carry the declared names and arities.
pub open spec fn entries_match(es: Seq<EntryV>, ov: Seq<OptV>) -> bool {
    &&& es.len() == ov.len()
    &&& forall|j: int|
        0 <= j < es.len() ==> {
            &&& (#[trigger] es[j]).long == ov[j].long
            &&& es[j].short == ov[j].short
            &&& es[j].arity == ov[j].arity
        }
}

/// Record one more occurrence of option `j`, with its value if one was given.
fn bump_exec(entries: &mut Vec<OptEntry>, j: usize, v: Option<String>)
    requires
        j < old(entries).len(),
        old(entries)@[j as int].count < usize::MAX,
    ensures
        entry_views(final(entries)@) == entry_views(old(entries)@).update(j as int, bump_entry(old(entries)@[j as int]@, v.deep_view())),
        final(entries).len() == old(entries).len(),
        final(entries)@[j as int].count == old(entries)@[j as int].count + 1,
        forall|m: int|
            0 <= m < old(entries)@.len() && m != j ==> (#[trigger] final(entries)@[m]).count
                == old(entries)@[m].count,
{
    let ghost before = entry_views(entries@);
    let mut tmp = OptEntry {
        long: String::new(),
        short: '-',
        arity: Arity::Flag,
        count: 0,
        values: Vec::new(),
    };
    entries.set_and_swap(j, &mut tmp);
    tmp.count = tmp.count + 1;
    match v {
        Some(x) => tmp.values.push(x),
        None => {},
    }
    entries.set(j, tmp);
    proof {
        assert(entry_views(entries@) =~~= before.update(
            j as int,
            bump_entry(before[j as int], v.deep_view()),
        ));
    }
}

/// Record one occurrence of declared option `j`, taking its value from the
/// inline text or from the next token, as [`spec_apply_opt`] says.
fn apply_opt(
    entries: &mut Vec<OptEntry>,
    pos: &mut usize,
    args: &Vec<String>,
    j: usize,
    name: String,
    inline: Option<String>,
    Ghost(ov): Ghost<Seq<OptV>>,
) -> (r: Result<(), ParseError>)
    requires
        j < old(entries).len(),
        *old(pos) < args.len(),
        entries_match(entry_views(old(entries)@), ov),
        forall|m: int|
            0 <= m < old(entries)@.len() ==> (#[trigger] old(entries)@[m]).count <= *old(pos),
    ensures
        final(entries).len() == old(entries).len(),
        entries_match(entry_views(final(entries)@), ov),
        forall|m: int|
            0 <= m < final(entries)@.len() ==> (#[trigger] final(entries)@[m]).count
                <= *final(pos),
        match r {
            Ok(_) => {
                &&& *old(pos) < *final(pos) <= args.len()
                &&& forall|fr: Seq<Seq<char>>, sp: bool|
                    #[trigger] spec_apply_opt(
                        ov,
                        args.deep_view(),
                        *old(pos) as int,
                        ParseSt {
                            entries: entry_views(old(entries)@),
                            free: fr,
                            sep: sp,
                        },
                        j as int,
                        name@,
                        inline.deep_view(),
                    ) == Ok::<(ParseSt, int), ParseErrorV>(
                        (
                            ParseSt {
                                entries: entry_views(final(entries)@),
                                free: fr,
                                sep: sp,
                            },
                            *final(pos) as int,
                        ),
                    )
            },
            Err(e) => {
                &&& *final(pos) == *old(pos)
                &&& forall|fr: Seq<Seq<char>>, sp: bool|
                    #[trigger] spec_apply_opt(
                        ov,
                        args.deep_view(),
                        *old(pos) as int,
                        ParseSt {
                            entries: entry_views(old(entries)@),
                            free: fr,
                            sep: sp,
                        },
                        j as int,
                        name@,
                        inline.deep_view(),
                    ) == Err::<(ParseSt, int), ParseErrorV>(e@)
            },
        },
{
    let i0 = *pos;
    let arity = entries[j].arity;
    let cnt = entries[j].count;
    proof {
        assert(entry_views(old(entries)@)[j as int] == entries@[j as int]@);
    }
    match arity {
        Arity::Flag => {
            if inline.is_some() {
                return Err(ParseError { kind: ErrKind::UnexpectedArgument, opt: name });
            }
            if cnt >= 1 {
                return Err(ParseError { kind: ErrKind::Duplicated, opt: name });
            }
            bump_exec(entries, j, None);
            *pos = i0 + 1;
            Ok(())
        },
        Arity::Single => {
            if cnt >= 1 {
                return Err(ParseError { kind: ErrKind::Duplicated, opt: name });
            }
            match inline {
                Some(v) => {
                    bump_exec(entries, j, Some(v));
                    *pos = i0 + 1;
                    Ok(())
                },
                None => {
                    if i0 + 1 < args.len() {
                        let v = args[i0 + 1].clone();
                        bump_exec(entries, j, Some(v));
                        *pos = i0 + 2;
                        Ok(())
                    } else {
                        Err(ParseError { kind: ErrKind::MissingArgument, opt: name })
                    }
                },
            }
        },
        Arity::Multiple => {
            match inline {
                Some(v) => {
                    bump_exec(entries, j, Some(v));
                    *pos = i0 + 1;
                    Ok(())
                },
                None => {
                    if i0 + 1 < args.len() {
                        let v = args[i0 + 1].clone();
                        bump_exec(entries, j, Some(v));
                        *pos = i0 + 2;
                        Ok(())
                    } else {
                        Err(ParseError { kind: ErrKind::MissingArgument, opt: name })
                    }
                },
            }
        },
    }
}

/// Parse `args` against the declared options.
///
/// The result is exactly [`spec_parse`] of the declared options and the
/// tokens: parsing is a pure function of its two arguments.
pub fn parse(opts: &Vec<Opt>, args: &Vec<String>) -> (r: Result<ParsedOptions, ParseError>)
    ensures
        match r {
            Ok(p) => spec_parse(opts_view(opts@), args.deep_view()) == Ok::<
                ParsedV,
                ParseErrorV,
            >(p@),
            Err(e) => spec_parse(opts_view(opts@), args.deep_view()) == Err::<
                ParsedV,
                ParseErrorV,
            >(e@),
        },
{
    let ghost ov = opts_view(opts@);
    let ghost av = args.deep_view();

    // One fresh entry per declared option.
    let mut entries: Vec<OptEntry> = Vec::new();
    let mut k: usize = 0;
    while k < opts.len()
        invariant
            k <= opts.len(),
            ov == opts_view(opts@),
            entries.len() == k,
            entry_views(entries@) == init_entries(ov).take(k as int),
        decreases opts.len() - k,
    {
        let o = &opts[k];
        entries.push(
            OptEntry {
                long: o.long.clone(),
                short: o.short,
                arity: o.arity,
                count: 0,
                values: Vec::new(),
            },
        );
        k += 1;
        proof {
            assert(entry_views(entries@) =~~= init_entries(ov).take(k as int));
        }
    }
    proof {
        assert(init_entries(ov).take(opts.len() as int) =~= init_entries(ov));
        assert(entries_match(entry_views(entries@), ov));
    }

    let mut free: Vec<String> = Vec::new();
    let mut sep = false;
    let mut i: usize = 0;
    proof {
        assert(free.deep_view() =~= Seq::<Seq<char>>::empty());
        assert(ParseSt { entries: entry_views(entries@), free: free.deep_view(), sep }
            == spec_init(ov));
        assert forall|m: int| 0 <= m < entries@.len() implies (#[trigger] entries@[m]).count
            <= i by {
            assert(entry_views(entries@)[m] == entries@[m]@);
            assert(init_entries(ov)[m].count == 0);
        }
    }

    while i < args.len()
        invariant
            i <= args.len(),
            ov == opts_view(opts@),
            av == args.deep_view(),
            entries.len() == opts.len(),
            entries_match(entry_views(entries@), ov),
            forall|m: int| 0 <= m < entries@.len() ==> (#[trigger] entries@[m]).count <= i,
            spec_parse_from(
                ov,
                av,
                i as int,
                ParseSt {
                    entries: entry_views(entries@),
                    free: free.deep_view(),
                    sep,
                },
            ) == spec_parse_from(ov, av, 0, spec_init(ov)),
        decreases args.len() - i,
    {
        let ghost st0 = ParseSt {
            entries: entry_views(entries@),
            free: free.deep_view(),
            sep,
        };
        let ghost i0 = i as int;
        let t: &String = &args[i];
        proof {
            assert(t@ == av[i0]);
        }
        let tlen = t.as_str().unicode_len();
        if sep {
            free.push(t.clone());
            i += 1;
            proof {
                let st1 = ParseSt { entries: st0.entries, free: st0.free.push(av[i0]), sep: true };
                assert(free.deep_view() =~= st0.free.push(av[i0]));
                assert(spec_parse_from(ov, av, i0, st0) == spec_parse_from(ov, av, i0 + 1, st1));
            }
        } else if tlen >= 2 && t.as_str().get_char(0) == '-' && t.as_str().get_char(1) == '-' {
            if tlen == 2 {
                // `--` alone: everything after is a free argument
                sep = true;
                i += 1;
                proof {
                    let st1 = ParseSt { entries: st0.entries, free: st0.free, sep: true };
                    assert(is_separator(av[i0]));
                    assert(spec_parse_from(ov, av, i0, st0) == spec_parse_from(
                        ov,
                        av,
                        i0 + 1,
                        st1,
                    ));
                }
            } else {
                // a long option, with an inline value after `=` if one is there
                proof {
                    assert(is_long_token(av[i0]));
                }
                let mut p: usize = 2;
                while p < tlen
                    invariant_except_break
                        2 <= p <= tlen,
                        tlen == t@.len(),
                        forall|m: int| 2 <= m < p ==> t@[m] != '=',
                    ensures
                        2 <= p <= tlen,
                        tlen == t@.len(),
                        forall|m: int| 2 <= m < p ==> t@[m] != '=',
                        p < tlen ==> t@[p as int] == '=',
                    decreases tlen - p,
                {
                    if t.as_str().get_char(p) == '=' {
                        break ;
                    }
                    p += 1;
                }
                proof {
                    lemma_eq_pos_skip(t@, 2, p as int);
                    if p < tlen {
                        assert(eq_pos_from(t@, 2) == Some(p as int));
                    } else {
                        assert(eq_pos_from(t@, 2) == None::<int>);
                    }
                }
                let name: String = t.as_str().substring_char(2, p).to_owned();
                let inline: Option<String> = if p < tlen {
                    Some(t.as_str().substring_char(p + 1, tlen).to_owned())
                } else {
                    None
                };
                proof {
                    assert(name@ == long_name(av[i0]));
                    assert(inline.deep_view() == long_inline(av[i0]));
                }
                // look the long name up among the declared options
                let nopts = entries.len();
                let mut j: usize = 0;
                while j < nopts
                    invariant_except_break
                        j <= nopts,
                        nopts == entries.len(),
                        entries_match(entry_views(entries@), ov),
                        forall|m: int| 0 <= m < j ==> #[trigger] ov[m].long != name@,
                    ensures
                        j <= nopts,
                        forall|m: int| 0 <= m < j ==> #[trigger] ov[m].long != name@,
                        j < nopts ==> ov[j as int].long == name@,
                    decreases nopts - j,
                {
                    if entries[j].long == name {
                        proof {
                            assert(entry_views(entries@)[j as int].long == ov[j as int].long);
                        }
                        break ;
                    }
                    j += 1;
                }
                proof {
                    lemma_find_long_skip(ov, name@, 0, j as int);
                }
                if j == nopts {
                    proof {
                        assert(spec_find_long(ov, name@) == None::<int>);
                        assert(spec_parse_from(ov, av, i0, st0) == Err::<
                            ParseSt,
                            ParseErrorV,
                        >(ParseErrorV { kind: ErrKind::Unrecognized, opt: name@ }));
                    }
                    return Err(ParseError { kind: ErrKind::Unrecognized, opt: name });
                }
                proof {
                    assert(spec_find_long(ov, name@) == Some(j as int));
                }
                if let Err(e) = apply_opt(&mut entries, &mut i, args, j, name, inline, Ghost(ov)) {
                    proof {
                        assert(spec_parse_from(ov, av, i0, st0) == Err::<
                            ParseSt,
                            ParseErrorV,
                        >(e@));
                    }
                    return Err(e);
                }
                proof {
                    let stj = ParseSt {
                        entries: entry_views(entries@),
                        free: st0.free,
                        sep: st0.sep,
                    };
                    assert(spec_parse_from(ov, av, i0, st0) == spec_parse_from(
                        ov,
                        av,
                        i as int,
                        stj,
                    ));
                }
            }
        } else if tlen >= 2 && t.as_str().get_char(0) == '-' {
            // a short option, with an inline value if the token goes on
            proof {
                assert(is_short_token(av[i0]));
            }
            let c = t.as_str().get_char(1);
            let name: String = char_to_string(c);
            let inline: Option<String> = if tlen > 2 {
                Some(t.as_str().substring_char(2, tlen).to_owned())
            } else {
                None
            };
            proof {
                assert(name@ =~= seq![av[i0][1]]);
                assert(inline.deep_view() == short_inline(av[i0]));
            }
            // look the short character up among the declared options
            let nopts = entries.len();
            let mut j: usize = 0;
            while j < nopts
                invariant_except_break
                    j <= nopts,
                    nopts == entries.len(),
                    entries_match(entry_views(entries@), ov),
                    forall|m: int| 0 <= m < j ==> #[trigger] ov[m].short != c,
                ensures
                    j <= nopts,
                    forall|m: int| 0 <= m < j ==> #[trigger] ov[m].short != c,
                    j < nopts ==> ov[j as int].short == c,
                decreases nopts - j,
            {
                if entries[j].short == c {
                    proof {
                        assert(entry_views(entries@)[j as int].short == ov[j as int].short);
                    }
                    break ;
                }
                j += 1;
            }
            proof {
                lemma_find_short_skip(ov, c, 0, j as int);
            }
            if j == nopts {
                proof {
                    assert(spec_find_short(ov, c) == None::<int>);
                    assert(spec_parse_from(ov, av, i0, st0) == Err::<
                        ParseSt,
                        ParseErrorV,
                    >(ParseErrorV { kind: ErrKind::Unrecognized, opt: name@ }));
                }
                return Err(ParseError { kind: ErrKind::Unrecognized, opt: name });
            }
            proof {
                assert(spec_find_short(ov, c) == Some(j as int));
            }
            if let Err(e) = apply_opt(&mut entries, &mut i, args, j, name, inline, Ghost(ov)) {
                proof {
                    assert(spec_parse_from(ov, av, i0, st0) == Err::<ParseSt, ParseErrorV>(e@));
                }
                return Err(e);
            }
            proof {
                let stj = ParseSt {
                    entries: entry_views(entries@),
                    free: st0.free,
                    sep: st0.sep,
                };
                assert(spec_parse_from(ov, av, i0, st0) == spec_parse_from(ov, av, i as int, stj));
            }
        } else {
            // a free argument
            free.push(t.clone());
            i += 1;
            proof {
                let st1 = ParseSt { entries: st0.entries, free: st0.free.push(av[i0]), sep };
                assert(!is_separator(av[i0]) && !is_long_token(av[i0]) && !is_short_token(av[i0]));
                assert(free.deep_view() =~= st0.free.push(av[i0]));
                assert(spec_parse_from(ov, av, i0, st0) == spec_parse_from(ov, av, i0 + 1, st1));
            }
        }
    }
    proof {
        let stend = ParseSt {
            entries: entry_views(entries@),
            free: free.deep_view(),
            sep,
        };
        assert(spec_parse_from(ov, av, i as int, stend) == Ok::<ParseSt, ParseErrorV>(stend));
    }
    Ok(ParsedOptions { entries, free })
}

// ---------------------------------------------------------------------------
// Reading a parse result
// ---------------------------------------------------------------------------

/// Whether `name` (a long name, or one short character) names this entry.
pub open spec fn spec_entry_match(e: EntryV, name: Seq<char>) -> bool {
    e.long == name || (name.len() == 1 && e.short == name[0])
}

/// The first entry that `name` names, from position `i` on.
pub open spec fn find_entry_from(es: Seq<EntryV>, name: Seq<char>, i: int) -> Option<int>
    decreases es.len() - i,
{
    if i < 0 || i >= es.len() {
        None
    } else if spec_entry_match(es[i], name) {
        Some(i)
    } else {
        find_entry_from(es, name, i + 1)
    }
}

/// The first entry that `name` names.
pub open spec fn spec_find_entry(es: Seq<EntryV>, name: Seq<char>) -> Option<int> {
    find_entry_from(es, name, 0)
}

/// How often the option that `name` names was given.
pub open spec fn spec_count(p: ParsedV, name: Seq<char>) -> nat {
    match spec_find_entry(p.entries, name) {
        Some(j) => p.entries[j].count,
        None => 0,
    }
}

/// Whether the option that `name` names was given at all.
pub open spec fn spec_present(p: ParsedV, name: Seq<char>) -> bool {
    spec_count(p, name) > 0
}

/// The values given for the option that `name` names, in order.
pub open spec fn spec_values(p: ParsedV, name: Seq<char>) -> Seq<Seq<char>> {
    match spec_find_entry(p.entries, name) {
        Some(j) => p.entries[j].values,
        None => Seq::empty(),
    }
}

/// The first value given for the option that `name` names.
pub open spec fn spec_opt_str(p: ParsedV, name: Seq<char>) -> Option<Seq<char>> {
    if spec_values(p, name).len() > 0 {
        Some(spec_values(p, name)[0])
    } else {
        None
    }
}

proof fn lemma_find_entry_skip(es: Seq<EntryV>, name: Seq<char>, i: int, k: int)
    requires
        0 <= i <= k <= es.len(),
        forall|m: int| i <= m < k ==> !spec_entry_match(#[trigger] es[m], name),
    ensures
        find_entry_from(es, name, i) == find_entry_from(es, name, k),
    decreases k - i,
{
    if i < k {
        lemma_find_entry_skip(es, name, i + 1, k);
    }
}

/// Clone the strings of `v` from position `from` on.
pub fn clone_strings_from(v: &Vec<String>, from: usize) -> (r: Vec<String>)
    requires
        from <= v.len(),
    ensures
        r.deep_view() == v.deep_view().subrange(from as int, v.len() as int),
{
    let mut r: Vec<String> = Vec::new();
    let mut k = from;
    proof {
        assert(r.deep_view() =~= v.deep_view().subrange(from as int, from as int));
    }
    while k < v.len()
        invariant
            from <= k <= v.len(),
            r.deep_view() == v.deep_view().subrange(from as int, k as int),
        decreases v.len() - k,
    {
        let ghost prev = r.deep_view();
        r.push(v[k].clone());
        k += 1;
        proof {
            assert(r.deep_view() =~= prev.push(v.deep_view()[k - 1]));
            assert(v.deep_view().subrange(from as int, k as int) =~= v.deep_view().subrange(
                from as int,
                k - 1,
            ).push(v.deep_view()[k - 1]));
            assert(r.deep_view() =~= v.deep_view().subrange(from as int, k as int));
        }
    }
    r
}

impl ParsedOptions {
    /// The first entry that `name` (a long name, or one short character)
    /// names.
    fn find_entry(&self, name: &str) -> (r: Option<usize>)
        ensures
            match r {
                Some(j) => j < self.entries.len() && spec_find_entry(self@.entries, name@)
                    == Some(j as int),
                None => spec_find_entry(self@.entries, name@) == None::<int>,
            },
    {
        let name_o = name.to_owned();
        let nlen = name.unicode_len();
        let single = nlen == 1;
        let c0: char = if single {
            name.get_char(0)
        } else {
            '-'
        };
        let n = self.entries.len();
        let mut j: usize = 0;
        while j < n
            invariant_except_break
                j <= n,
                n == self.entries.len(),
                name_o@ == name@,
                single == (name@.len() == 1),
                single ==> c0 == name@[0],
                forall|m: int|
                    0 <= m < j ==> !spec_entry_match(#[trigger] self@.entries[m], name@),
            ensures
                j <= n,
                n == self.entries.len(),
                forall|m: int|
                    0 <= m < j ==> !spec_entry_match(#[trigger] self@.entries[m], name@),
                j < n ==> spec_entry_match(self@.entries[j as int], name@),
            decreases n - j,
        {
            let e = &self.entries[j];
            let hit = e.long == name_o || (single && e.short == c0);
            proof {
                assert(self@.entries[j as int] == self.entries@[j as int]@);
            }
            if hit {
                break ;
            }
            j += 1;
        }
        proof {
            lemma_find_entry_skip(self@.entries, name@, 0, j as int);
        }
        if j == n {
            None
        } else {
            Some(j)
        }
    }

    /// How often the option that `name` names was given.
    pub fn opt_count(&self, name: &str) -> (r: usize)
        ensures
            r as nat == spec_count(self@, name@),
    {
        match self.find_entry(name) {
            Some(j) => self.entries[j].count,
            None => 0,
        }
    }

    /// Whether the option that `name` names was given at all.
    pub fn opt_present(&self, name: &str) -> (r: bool)
        ensures
            r == spec_present(self@, name@),
    {
        self.opt_count(name) > 0
    }

    /// The first value given for the option that `name` names.
    pub fn opt_str(&self, name: &str) -> (r: Option<String>)
        ensures
            match r {
                Some(s) => spec_opt_str(self@, name@) == Some(s@),
                None => spec_opt_str(self@, name@) == None::<Seq<char>>,
            },
    {
        match self.find_entry(name) {
            Some(j) => {
                let e = &self.entries[j];
                if e.values.len() > 0 {
                    Some(e.values[0].clone())
                } else {
                    None
                }
            },
            None => None,
        }
    }

    /// All values given for the option that `name` names, in order.
    pub fn opt_strs(&self, name: &str) -> (r: Vec<String>)
        ensures
            r.deep_view() == spec_values(self@, name@),
    {
        match self.find_entry(name) {
            Some(j) => {
                let e = &self.entries[j];
                let r = clone_strings_from(&e.values, 0);
                proof {
                    assert(e.values.deep_view().subrange(0, e.values@.len() as int)
                        =~= e.values.deep_view());
                }
                r
            },
            None => {
                let r: Vec<String> = Vec::new();
                proof {
                    assert(r.deep_view() =~= Seq::<Seq<char>>::empty());
                }
                r
            },
        }
    }
}

// ---------------------------------------------------------------------------
// Laws of the parser
// ---------------------------------------------------------------------------

/// Parsing is pure: it reads nothing but the declared options and the
/// argument tokens, so parsing the same tokens against the same options a
/// second time yields exactly the same result.
pub proof fn lemma_parse_deterministic(
    opts: Seq<OptV>,
    args: Seq<Seq<char>>,
    r1: Result<ParsedV, ParseErrorV>,
    r2: Result<ParsedV, ParseErrorV>,
)
    requires
        r1 == spec_parse(opts, args),
        r2 == spec_parse(opts, args),
    ensures
        r1 == r2,
{
}

/// With no arguments at all, parsing succeeds with every option unused and
/// every value list empty: an option given zero times is no error.
pub proof fn lemma_parse_empty(opts: Seq<OptV>)
    ensures
        spec_parse(opts, Seq::empty()) == Ok::<ParsedV, ParseErrorV>(
            ParsedV { entries: init_entries(opts), free: Seq::empty() },
        ),
{
}

/// A successful parse keeps one entry per declared option.
pub proof fn lemma_parse_from_entries_len(
    opts: Seq<OptV>,
    args: Seq<Seq<char>>,
    i: int,
    st: ParseSt,
    stf: ParseSt,
)
    requires
        st.entries.len() == opts.len(),
        spec_parse_from(opts, args, i, st) == Ok::<ParseSt, ParseErrorV>(stf),
    ensures
        stf.entries.len() == opts.len(),
    decreases args.len() - i,
{
    if 0 <= i < args.len() {
        let t = args[i];
        if st.sep {
            lemma_parse_from_entries_len(
                opts,
                args,
                i + 1,
                ParseSt { free: st.free.push(t), ..st },
                stf,
            );
        } else if is_separator(t) {
            lemma_parse_from_entries_len(opts, args, i + 1, ParseSt { sep: true, ..st }, stf);
        } else if is_long_token(t) {
            let name = long_name(t);
            lemma_find_long_range(opts, name, 0);
            match spec_find_long(opts, name) {
                None => {},
                Some(j) => {
                    match spec_apply_opt(opts, args, i, st, j, name, long_inline(t)) {
                        Err(_) => {},
                        Ok((st2, i2)) => {
                            assert(st2.entries.len() == opts.len());
                            lemma_parse_from_entries_len(opts, args, i2, st2, stf);
                        },
                    }
                },
            }
        } else if is_short_token(t) {
            let name = seq![t[1]];
            lemma_find_short_range(opts, t[1], 0);
            match spec_find_short(opts, t[1]) {
                None => {},
                Some(j) => {
                    match spec_apply_opt(opts, args, i, st, j, name, short_inline(t)) {
                        Err(_) => {},
                        Ok((st2, i2)) => {
                            assert(st2.entries.len() == opts.len());
                            lemma_parse_from_entries_len(opts, args, i2, st2, stf);
                        },
                    }
                },
            }
        } else {
            lemma_parse_from_entries_len(
                opts,
                args,
                i + 1,
                ParseSt { free: st.free.push(t), ..st },
                stf,
            );
        }
    }
}

/// A successful parse of `args` takes the same steps when `args` is followed
/// by more tokens, and then goes on with the extra tokens from its final
/// state.
proof fn lemma_parse_from_append(
    opts: Seq<OptV>,
    args: Seq<Seq<char>>,
    ext: Seq<Seq<char>>,
    i: int,
    st: ParseSt,
    stf: ParseSt,
)
    requires
        0 <= i <= args.len(),
        spec_parse_from(opts, args, i, st) == Ok::<ParseSt, ParseErrorV>(stf),
    ensures
        spec_parse_from(opts, args + ext, i, st) == spec_parse_from(
            opts,
            args + ext,
            args.len() as int,
            stf,
        ),
    decreases args.len() - i,
{
    let aext = args + ext;
    if i == args.len() {
        assert(st == stf);
    } else {
        let t = args[i];
        assert(aext[i] == t);
        if st.sep {
            lemma_parse_from_append(
                opts,
                args,
                ext,
                i + 1,
                ParseSt { free: st.free.push(t), ..st },
                stf,
            );
        } else if is_separator(t) {
            lemma_parse_from_append(opts, args, ext, i + 1, ParseSt { sep: true, ..st }, stf);
        } else if is_long_token(t) {
            let name = long_name(t);
            match spec_find_long(opts, name) {
                None => {
                    assert(false);
                },
                Some(j) => {
                    match spec_apply_opt(opts, args, i, st, j, name, long_inline(t)) {
                        Err(_) => {
                            assert(false);
                        },
                        Ok((st2, i2)) => {
                            if i + 1 < args.len() {
                                assert(aext[i + 1] == args[i + 1]);
                            }
                            assert(spec_apply_opt(opts, aext, i, st, j, name, long_inline(t))
                                == Ok::<(ParseSt, int), ParseErrorV>((st2, i2)));
                            lemma_parse_from_append(opts, args, ext, i2, st2, stf);
                        },
                    }
                },
            }
        } else if is_short_token(t) {
            let name = seq![t[1]];
            match spec_find_short(opts, t[1]) {
                None => {
                    assert(false);
                },
                Some(j) => {
                    match spec_apply_opt(opts, args, i, st, j, name, short_inline(t)) {
                        Err(_) => {
                            assert(false);
                        },
                        Ok((st2, i2)) => {
                            if i + 1 < args.len() {
                                assert(aext[i + 1] == args[i + 1]);
                            }
                            assert(spec_apply_opt(opts, aext, i, st, j, name, short_inline(t))
                                == Ok::<(ParseSt, int), ParseErrorV>((st2, i2)));
                            lemma_parse_from_append(opts, args, ext, i2, st2, stf);
                        },
                    }
                },
            }
        } else {
            lemma_parse_from_append(
                opts,
                args,
                ext,
                i + 1,
                ParseSt { free: st.free.push(t), ..st },
                stf,
            );
        }
    }
}

/// Giving a repeatable option once more appends its value. When `args`
/// parses successfully without ending option processing, parsing
/// `args ++ [--long, value]` — where `long` names the repeatable option at
/// position `j` — succeeds too, and records the same result with `value`
/// appended to that option's values: repetition preserves the order given.
pub proof fn lemma_multiple_appends(
    opts: Seq<OptV>,
    args: Seq<Seq<char>>,
    j: int,
    value: Seq<char>,
    stf: ParseSt,
)
    requires
        spec_parse_from(opts, args, 0, spec_init(opts)) == Ok::<ParseSt, ParseErrorV>(stf),
        !stf.sep,
        0 <= j < opts.len(),
        opts[j].arity == Arity::Multiple,
        opts[j].long.len() > 0,
        forall|k: int| 0 <= k < opts[j].long.len() ==> #[trigger] opts[j].long[k] != '=',
        spec_find_long(opts, opts[j].long) == Some(j),
    ensures
        spec_parse(opts, args + seq![seq!['-', '-'] + opts[j].long, value]) == Ok::<
            ParsedV,
            ParseErrorV,
        >(
            ParsedV {
                entries: stf.entries.update(j, bump_entry(stf.entries[j], Some(value))),
                free: stf.free,
            },
        ),
{
    let name = opts[j].long;
    let tok = seq!['-', '-'] + name;
    let ext = seq![tok, value];
    let aext = args + ext;
    let n = args.len() as int;
    lemma_parse_from_entries_len(opts, args, 0, spec_init(opts), stf);
    lemma_parse_from_append(opts, args, ext, 0, spec_init(opts), stf);
    assert(aext[n] == tok);
    assert(aext[n + 1] == value);
    assert(aext.len() == n + 2);
    assert(is_long_token(tok));
    assert(!is_separator(tok));
    assert forall|m: int| 2 <= m < tok.len() implies tok[m] != '=' by {
        assert(tok[m] == name[m - 2]);
    }
    lemma_eq_pos_skip(tok, 2, tok.len() as int);
    assert(eq_pos_from(tok, 2) == None::<int>);
    assert(long_name(tok) =~= name);
    assert(long_inline(tok) == None::<Seq<char>>);
    let st2 = ParseSt {
        entries: stf.entries.update(j, bump_entry(stf.entries[j], Some(value))),
        free: stf.free,
        sep: stf.sep,
    };
    assert(spec_apply_opt(opts, aext, n, stf, j, name, None) == Ok::<
        (ParseSt, int),
        ParseErrorV,
    >((st2, n + 2)));
    assert(spec_parse_from(opts, aext, n, stf) == spec_parse_from(opts, aext, n + 2, st2));
    assert(spec_parse_from(opts, aext, n + 2, st2) == Ok::<ParseSt, ParseErrorV>(st2));
}

} // verus!
