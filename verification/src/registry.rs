//! The command registry: an append-only, registration-ordered list of command
//! descriptors, with lookup by short character, well-formedness (no two
//! commands share their identifying pair), and the help listings derived from
//! it.

use vstd::prelude::*;
use vstd::string::*;

use crate::Command;
use crate::CommandV;
use crate::OptV;
use crate::text::char_to_string;
use crate::text::pad_right;
use crate::text::spec_pad_right;

verus! {

/// The registry of commands, in registration order.
pub struct Registry {
    pub commands: Vec<Command>,
}

/// The views of a list of command descriptors.
pub open spec fn command_views(cmds: Seq<Command>) -> Seq<CommandV> {
    cmds.map_values(|c: Command| c@)
}

impl View for Registry {
    type V = Seq<CommandV>;

    open spec fn view(&self) -> Seq<CommandV> {
        command_views(self.commands@)
    }
}

// ---------------------------------------------------------------------------
// Well-formedness: unique identifying pairs
// ---------------------------------------------------------------------------

/// No two commands share the identifying pair (short, long).
pub open spec fn unique_command_pairs(cmds: Seq<CommandV>) -> bool {
    forall|a: int, b: int|
        0 <= a < b < cmds.len() ==> !((#[trigger] cmds[a]).short == (#[trigger] cmds[b]).short
            && cmds[a].long == cmds[b].long)
}

/// No two options of one command share the identifying pair (short, long).
pub open spec fn unique_option_pairs(opts: Seq<OptV>) -> bool {
    forall|a: int, b: int|
        0 <= a < b < opts.len() ==> !((#[trigger] opts[a]).short == (#[trigger] opts[b]).short
            && opts[a].long == opts[b].long)
}

/// The registry's invariant: command pairs are unique, and within each
/// command the option pairs are unique.
pub open spec fn registry_wf(cmds: Seq<CommandV>) -> bool {
    &&& unique_command_pairs(cmds)
    &&& forall|i: int| 0 <= i < cmds.len() ==> unique_option_pairs((#[trigger] cmds[i]).options)
}

/// No two commands share a short character. This is stronger than
/// [`unique_command_pairs`] and makes lookup by short character unambiguous.
pub open spec fn unique_command_shorts(cmds: Seq<CommandV>) -> bool {
    forall|a: int, b: int|
        0 <= a < b < cmds.len() ==> (#[trigger] cmds[a]).short != (#[trigger] cmds[b]).short
}

// ---------------------------------------------------------------------------
// Lookup by short character
// ---------------------------------------------------------------------------

/// The first command with this short character, from position `i` on.
pub open spec fn find_command_from(cmds: Seq<CommandV>, c: char, i: int) -> Option<int>
    decreases cmds.len() - i,
{
    if i < 0 || i >= cmds.len() {
        None
    } else if cmds[i].short == c {
        Some(i)
    } else {
        find_command_from(cmds, c, i + 1)
    }
}

/// The first command with this short character: registry lookup.
pub open spec fn spec_find_command(cmds: Seq<CommandV>, c: char) -> Option<int> {
    find_command_from(cmds, c, 0)
}

proof fn lemma_find_command_first(cmds: Seq<CommandV>, c: char, i: int)
    requires
        0 <= i <= cmds.len(),
    ensures
        match find_command_from(cmds, c, i) {
            Some(j) => i <= j < cmds.len() && cmds[j].short == c && (forall|m: int|
                i <= m < j ==> (#[trigger] cmds[m]).short != c),
            None => forall|m: int| i <= m < cmds.len() ==> (#[trigger] cmds[m]).short != c,
        },
    decreases cmds.len() - i,
{
    if i < cmds.len() && cmds[i].short != c {
        lemma_find_command_first(cmds, c, i + 1);
    }
}

/// Lookup by short character resolves uniquely when no two commands share a
/// short character: the first match that lookup returns is the only command
/// bearing that character at all.
pub proof fn lemma_lookup_by_short_unique(cmds: Seq<CommandV>, c: char, j: int)
    requires
        unique_command_shorts(cmds),
        spec_find_command(cmds, c) == Some(j),
    ensures
        0 <= j < cmds.len(),
        cmds[j].short == c,
        forall|k: int| 0 <= k < cmds.len() && (#[trigger] cmds[k]).short == c ==> k == j,
{
    lemma_find_command_first(cmds, c, 0);
    assert forall|k: int| 0 <= k < cmds.len() && (#[trigger] cmds[k]).short == c implies k
        == j by {
        if k < j {
            assert(cmds[k].short != c);
        } else if j < k {
            assert(cmds[j].short != cmds[k].short);
        }
    }
}

impl Registry {
    /// The empty registry, trivially well-formed.
    pub fn new() -> (r: Registry)
        ensures
            r@ == Seq::<CommandV>::empty(),
            registry_wf(r@),
    {
        let r = Registry { commands: Vec::new() };
        proof {
            assert(r@ =~= Seq::<CommandV>::empty());
        }
        r
    }

    /// Append one command, keeping the registry well-formed: the command is
    /// refused when its identifying pair (short, long) is already taken, or
    /// when two of its own options share their pair. A well-formed set of
    /// commands registers unchanged, in order.
    pub fn register(&mut self, cmd: Command) -> (added: bool)
        ensures
            added ==> final(self)@ == old(self)@.push(cmd@),
            !added ==> final(self)@ == old(self)@,
            registry_wf(old(self)@) ==> registry_wf(final(self)@),
    {
        if !options_unique(&cmd.options) {
            return false;
        }
        let ghost before = self@;
        let n = self.commands.len();
        let mut i: usize = 0;
        while i < n
            invariant
                i <= n,
                n == self.commands.len(),
                before == self@,
                forall|m: int|
                    0 <= m < i ==> !((#[trigger] before[m]).short == cmd@.short && before[m].long
                        == cmd@.long),
            decreases n - i,
        {
            let c = &self.commands[i];
            proof {
                assert(before[i as int] == self.commands@[i as int]@);
            }
            if c.short == cmd.short && c.long == cmd.long {
                return false;
            }
            i += 1;
        }
        let ghost cv = cmd@;
        self.commands.push(cmd);
        proof {
            assert(self@ =~= before.push(cv));
            if registry_wf(before) {
                assert forall|a: int, b: int| 0 <= a < b < self@.len() implies !((
                #[trigger] self@[a]).short == (#[trigger] self@[b]).short && self@[a].long
                    == self@[b].long) by {
                    if b < self@.len() - 1 {
                        assert(self@[a] == before[a] && self@[b] == before[b]);
                    } else {
                        assert(self@[b] == cv && self@[a] == before[a]);
                    }
                }
                assert forall|a: int| 0 <= a < self@.len() implies unique_option_pairs(
                    (#[trigger] self@[a]).options,
                ) by {
                    if a < self@.len() - 1 {
                        assert(self@[a] == before[a]);
                    } else {
                        assert(self@[a] == cv);
                    }
                }
            }
        }
        true
    }

    /// Look a command up by its short character: the first match in
    /// registration order.
    pub fn find_by_short(&self, c: char) -> (r: Option<usize>)
        ensures
            match r {
                Some(j) => j < self.commands.len() && spec_find_command(self@, c) == Some(
                    j as int,
                ),
                None => spec_find_command(self@, c) == None::<int>,
            },
    {
        let n = self.commands.len();
        let mut j: usize = 0;
        while j < n
            invariant_except_break
                j <= n,
                n == self.commands.len(),
                forall|m: int| 0 <= m < j ==> (#[trigger] self@[m]).short != c,
            ensures
                j <= n,
                n == self.commands.len(),
                forall|m: int| 0 <= m < j ==> (#[trigger] self@[m]).short != c,
                j < n ==> self@[j as int].short == c,
            decreases n - j,
        {
            if self.commands[j].short == c {
                proof {
                    assert(self@[j as int] == self.commands@[j as int]@);
                }
                break ;
            }
            j += 1;
        }
        proof {
            lemma_find_command_skip(self@, c, 0, j as int);
        }
        if j == n {
            None
        } else {
            Some(j)
        }
    }

    /// Check the registry's invariant: no two commands share their
    /// identifying pair, and within each command no two options do.
    pub fn is_well_formed(&self) -> (r: bool)
        ensures
            r == registry_wf(self@),
    {
        let n = self.commands.len();
        let mut i: usize = 0;
        while i < n
            invariant
                i <= n,
                n == self.commands.len(),
                forall|a: int, b: int|
                    0 <= a < b < n && a < i ==> !((#[trigger] self@[a]).short
                        == (#[trigger] self@[b]).short && self@[a].long == self@[b].long),
                forall|a: int|
                    0 <= a < i ==> unique_option_pairs((#[trigger] self@[a]).options),
            decreases n - i,
        {
            let ca = &self.commands[i];
            proof {
                assert(self@[i as int] == self.commands@[i as int]@);
            }
            let mut b = i + 1;
            while b < n
                invariant
                    i < b <= n || b == i + 1,
                    i < n,
                    n == self.commands.len(),
                    ca == &self.commands@[i as int],
                    forall|m: int|
                        i < m < b ==> !((#[trigger] self@[m]).short == self@[i as int].short
                            && self@[m].long == self@[i as int].long),
                decreases n - b,
            {
                let cb = &self.commands[b];
                proof {
                    assert(self@[b as int] == self.commands@[b as int]@);
                }
                if ca.short == cb.short && ca.long == cb.long {
                    return false;
                }
                b += 1;
            }
            if !options_unique(&ca.options) {
                return false;
            }
            i += 1;
        }
        true
    }
}

proof fn lemma_find_command_skip(cmds: Seq<CommandV>, c: char, i: int, k: int)
    requires
        0 <= i <= k <= cmds.len(),
        forall|m: int| i <= m < k ==> (#[trigger] cmds[m]).short != c,
    ensures
        find_command_from(cmds, c, i) == find_command_from(cmds, c, k),
    decreases k - i,
{
    if i < k {
        lemma_find_command_skip(cmds, c, i + 1, k);
    }
}

/// Check that no two of these options share their identifying pair.
fn options_unique(opts: &Vec<crate::Opt>) -> (r: bool)
    ensures
        r == unique_option_pairs(crate::parse::opts_view(opts@)),
{
    let ghost ov = crate::parse::opts_view(opts@);
    let n = opts.len();
    let mut a: usize = 0;
    while a < n
        invariant
            a <= n,
            n == opts.len(),
            ov == crate::parse::opts_view(opts@),
            forall|x: int, y: int|
                0 <= x < y < n && x < a ==> !((#[trigger] ov[x]).short == (#[trigger] ov[y]).short
                    && ov[x].long == ov[y].long),
        decreases n - a,
    {
        let oa = &opts[a];
        proof {
            assert(ov[a as int] == opts@[a as int]@);
        }
        let mut b = a + 1;
        while b < n
            invariant
                a < b <= n || b == a + 1,
                a < n,
                n == opts.len(),
                ov == crate::parse::opts_view(opts@),
                oa == &opts@[a as int],
                forall|m: int|
                    a < m < b ==> !((#[trigger] ov[m]).short == ov[a as int].short && ov[m].long
                        == ov[a as int].long),
            decreases n - b,
        {
            let ob = &opts[b];
            proof {
                assert(ov[b as int] == opts@[b as int]@);
            }
            if oa.short == ob.short && oa.long == ob.long {
                return false;
            }
            b += 1;
        }
        a += 1;
    }
    true
}

// ---------------------------------------------------------------------------
// The command listing and per-command usage text
// ---------------------------------------------------------------------------

/// One line of the command listing: the long name padded to seven places,
/// the short character, and the description.
pub open spec fn spec_listing_line(long: Seq<char>, short: char, descr: Seq<char>) -> Seq<char> {
    "  --"@ + spec_pad_right(long, 7) + " (-"@ + seq![short] + ")  "@ + descr
}

/// The full command listing: a fixed header, the reserved help flag, then one
/// line per command in registration order.
pub open spec fn spec_usage_lines(cmds: Seq<CommandV>) -> Seq<Seq<char>> {
    seq![
        "usage:"@,
        "  pki command [options]"@,
        "commands:"@,
        spec_listing_line("help"@, 'h', "show usage information"@),
    ] + cmds.map_values(|c: CommandV| spec_listing_line(c.long, c.short, c.descr))
}

fn listing_line(long: &str, short: char, descr: &str) -> (r: String)
    ensures
        r@ == spec_listing_line(long@, short, descr@),
{
    let r = "  --".to_owned().concat(pad_right(long, 7).as_str()).concat(" (-").concat(
        char_to_string(short).as_str(),
    ).concat(")  ").concat(descr);
    proof {
        assert(r@ =~= spec_listing_line(long@, short, descr@));
    }
    r
}

/// The full command listing, one string per line.
pub fn usage(reg: &Registry) -> (r: Vec<String>)
    ensures
        r.deep_view() == spec_usage_lines(reg@),
{
    let ghost cv = reg@;
    let mut lines: Vec<String> = Vec::new();
    lines.push("usage:".to_owned());
    lines.push("  pki command [options]".to_owned());
    lines.push("commands:".to_owned());
    lines.push(listing_line("help", 'h', "show usage information"));
    let ghost head = lines.deep_view();
    proof {
        assert(head =~= spec_usage_lines(cv).take(4));
    }
    let n = reg.commands.len();
    let mut k: usize = 0;
    while k < n
        invariant
            k <= n,
            n == reg.commands.len(),
            cv == reg@,
            head == lines.deep_view().take(4),
            lines.deep_view() == spec_usage_lines(cv).take(4 + k as int),
        decreases n - k,
    {
        let c = &reg.commands[k];
        proof {
            assert(cv[k as int] == reg.commands@[k as int]@);
        }
        let l = listing_line(c.long.as_str(), c.short, c.descr.as_str());
        let ghost lv = l@;
        let ghost prev = lines.deep_view();
        lines.push(l);
        k += 1;
        proof {
            let full = spec_usage_lines(cv);
            assert(lines.deep_view() =~= prev.push(lv));
            assert(full[4 + k - 1] == cv.map_values(
                |cc: CommandV| spec_listing_line(cc.long, cc.short, cc.descr),
            )[k - 1]);
            assert(full[4 + k - 1] == lv);
            assert(full.take(4 + k as int) =~= full.take(4 + k - 1).push(full[4 + k - 1]));
            assert(lines.deep_view() =~= spec_usage_lines(cv).take(4 + k as int));
        }
    }
    proof {
        assert(spec_usage_lines(cv).take(4 + n as int) =~= spec_usage_lines(cv));
    }
    lines
}

/// One line of a command's option table: the long name padded to fifteen
/// places, the short character, and the description.
pub open spec fn spec_option_line(o: OptV) -> Seq<char> {
    "  --"@ + spec_pad_right(o.long, 15) + " (-"@ + seq![o.short] + ")  "@ + o.descr
}

/// A command's usage text: the brief lines after a `pki --long` heading, then
/// the option table. With no brief lines the `options:` header completes the
/// heading line itself.
pub open spec fn spec_cmd_usage_lines(c: CommandV) -> Seq<Seq<char>> {
    let opt_lines = c.options.map_values(|o: OptV| spec_option_line(o));
    if c.brief.len() == 0 {
        seq!["usage:"@, "  pki --"@ + c.long + " options:"@] + opt_lines
    } else {
        seq!["usage:"@, "  pki --"@ + c.long + " "@ + c.brief[0]] + c.brief.skip(1).map_values(
            |l: Seq<char>| "     "@ + l,
        ) + seq!["options:"@] + opt_lines
    }
}

/// A command's usage text, one string per line.
pub fn cmd_usage(cmd: &Command) -> (r: Vec<String>)
    ensures
        r.deep_view() == spec_cmd_usage_lines(cmd@),
{
    let ghost c = cmd@;
    let ghost want = spec_cmd_usage_lines(c);
    let mut lines: Vec<String> = Vec::new();
    lines.push("usage:".to_owned());
    let nb = cmd.brief.len();
    if nb == 0 {
        let l = "  pki --".to_owned().concat(cmd.long.as_str()).concat(" options:");
        proof {
            assert(l@ =~= "  pki --"@ + c.long + " options:"@);
        }
        lines.push(l);
        proof {
            assert(lines.deep_view() =~= want.take(2));
        }
    } else {
        let l = "  pki --".to_owned().concat(cmd.long.as_str()).concat(" ").concat(
            cmd.brief[0].as_str(),
        );
        proof {
            assert(cmd.brief.deep_view()[0] == cmd.brief@[0]@);
            assert(l@ =~= "  pki --"@ + c.long + " "@ + c.brief[0]);
        }
        lines.push(l);
        let mut k: usize = 1;
        proof {
            assert(lines.deep_view() =~= want.take(2));
        }
        while k < nb
            invariant
                1 <= k <= nb,
                nb == cmd.brief.len(),
                c == cmd@,
                want == spec_cmd_usage_lines(c),
                lines.deep_view() == want.take(1 + k as int),
            decreases nb - k,
        {
            let l = "     ".to_owned().concat(cmd.brief[k].as_str());
            let ghost lv = l@;
            let ghost prev = lines.deep_view();
            proof {
                assert(cmd.brief.deep_view()[k as int] == cmd.brief@[k as int]@);
                assert(lv =~= "     "@ + c.brief[k as int]);
                assert(c.brief.skip(1)[k - 1] == c.brief[k as int]);
                assert(c.brief.skip(1).map_values(|b: Seq<char>| "     "@ + b)[k - 1] == "     "@
                    + c.brief[k as int]);
                assert(want[1 + k as int] == c.brief.skip(1).map_values(
                    |b: Seq<char>| "     "@ + b,
                )[k - 1]);
            }
            lines.push(l);
            k += 1;
            proof {
                assert(lines.deep_view() =~= prev.push(lv));
                assert(want[k as int] == lv);
                assert(want.take(1 + k as int) =~= want.take(k as int).push(want[k as int]));
                assert(lines.deep_view() =~= want.take(1 + k as int));
            }
        }
        lines.push("options:".to_owned());
        proof {
            assert(lines.deep_view() =~= want.take(2 + nb as int));
        }
    }
    let ghost done = lines.deep_view().len() as int;
    proof {
        assert(lines.deep_view() == want.take(done));
        assert(done + c.options.len() == want.len());
    }
    let no = cmd.options.len();
    let mut k: usize = 0;
    while k < no
        invariant
            k <= no,
            no == cmd.options.len(),
            c == cmd@,
            want == spec_cmd_usage_lines(c),
            done + c.options.len() == want.len(),
            lines.deep_view() == want.take(done + k as int),
        decreases no - k,
    {
        let o = &cmd.options[k];
        proof {
            assert(c.options[k as int] == cmd.options@[k as int]@);
        }
        let l = "  --".to_owned().concat(pad_right(o.long.as_str(), 15).as_str()).concat(
            " (-",
        ).concat(char_to_string(o.short).as_str()).concat(")  ").concat(o.descr.as_str());
        let ghost lv = l@;
        let ghost prev = lines.deep_view();
        proof {
            assert(lv =~= spec_option_line(c.options[k as int]));
            assert(want[done + k as int] == c.options.map_values(|oo: OptV| spec_option_line(oo))[
                k as int
            ]);
        }
        lines.push(l);
        k += 1;
        proof {
            assert(lines.deep_view() =~= prev.push(lv));
            assert(want[done + k - 1] == lv);
            assert(want.take(done + k as int) =~= want.take(done + k - 1).push(
                want[done + k - 1],
            ));
            assert(lines.deep_view() =~= want.take(done + k as int));
        }
    }
    proof {
        assert(want.take(done + no as int) =~= want);
    }
    lines
}

} // verus!
