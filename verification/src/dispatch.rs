//! The top-level dispatcher: build the global flag set from the registry,
//! resolve the command named by the first argument token, parse the remaining
//! tokens against that command's options, and run its operation.

use vstd::prelude::*;
use vstd::string::*;

use crate::Arity;
use crate::CmdOutV;
use crate::CmdOutcome;
use crate::CommandV;
use crate::OpKind;
use crate::Opt;
use crate::OptV;
use crate::datetime::now_epoch;
use crate::parse::ParsedOptions;
use crate::parse::ParsedV;
use crate::parse::clone_strings_from;
use crate::parse::opts_view;
use crate::parse::parse;
use crate::parse::spec_err_message;
use crate::parse::spec_parse;
use crate::parse::spec_present;
use crate::registry::Registry;
use crate::registry::cmd_usage;
use crate::registry::registry_wf;
use crate::registry::spec_cmd_usage_lines;
use crate::registry::spec_usage_lines;
use crate::registry::usage;
use crate::text::char_to_string;

verus! {

/// The global flag set: the reserved help flag, then one flag per registered
/// command, keyed by its short and long identifiers.
pub open spec fn spec_global_opts(cmds: Seq<CommandV>) -> Seq<OptV> {
    seq![
        OptV { long: "help"@, short: 'h', arity: Arity::Flag, descr: "show usage information"@ },
    ] + cmds.map_values(
        |c: CommandV| OptV { long: c.long, short: c.short, arity: Arity::Flag, descr: c.descr },
    )
}

/// Build the global flag set from the registry.
pub fn global_opts(reg: &Registry) -> (r: Vec<Opt>)
    ensures
        opts_view(r@) == spec_global_opts(reg@),
{
    let mut opts: Vec<Opt> = Vec::new();
    opts.push(
        Opt {
            long: "help".to_owned(),
            short: 'h',
            arity: Arity::Flag,
            descr: "show usage information".to_owned(),
        },
    );
    proof {
        assert(opts_view(opts@) =~= spec_global_opts(reg@).take(1));
    }
    let n = reg.commands.len();
    let mut k: usize = 0;
    while k < n
        invariant
            k <= n,
            n == reg.commands.len(),
            opts_view(opts@) == spec_global_opts(reg@).take(1 + k as int),
        decreases n - k,
    {
        let c = &reg.commands[k];
        proof {
            assert(reg@[k as int] == reg.commands@[k as int]@);
        }
        let o = Opt {
            long: c.long.clone(),
            short: c.short,
            arity: Arity::Flag,
            descr: c.descr.clone(),
        };
        let ghost ov = o@;
        let ghost prev = opts_view(opts@);
        opts.push(o);
        k += 1;
        proof {
            let full = spec_global_opts(reg@);
            assert(opts_view(opts@) =~= prev.push(ov));
            assert(full[k as int] == reg@.map_values(
                |cc: CommandV| OptV {
                    long: cc.long,
                    short: cc.short,
                    arity: Arity::Flag,
                    descr: cc.descr,
                },
            )[k - 1]);
            assert(full[k as int] == ov);
            assert(full.take(1 + k as int) =~= full.take(k as int).push(full[k as int]));
            assert(opts_view(opts@) =~= full.take(1 + k as int));
        }
    }
    proof {
        assert(spec_global_opts(reg@).take(1 + n as int) =~= spec_global_opts(reg@));
    }
    opts
}

/// The first registered command whose flag is present, from position `i` on.
pub open spec fn select_from(cmds: Seq<CommandV>, p: ParsedV, i: int) -> Option<int>
    decreases cmds.len() - i,
{
    if i < 0 || i >= cmds.len() {
        None
    } else if spec_present(p, seq![cmds[i].short]) {
        Some(i)
    } else {
        select_from(cmds, p, i + 1)
    }
}

/// The command the dispatcher selects: the first, in registration order,
/// whose flag is present.
pub open spec fn spec_select_cmd(cmds: Seq<CommandV>, p: ParsedV) -> Option<int> {
    select_from(cmds, p, 0)
}

proof fn lemma_select_skip(cmds: Seq<CommandV>, p: ParsedV, i: int, k: int)
    requires
        0 <= i <= k <= cmds.len(),
        forall|m: int| i <= m < k ==> !spec_present(p, seq![(#[trigger] cmds[m]).short]),
    ensures
        select_from(cmds, p, i) == select_from(cmds, p, k),
    decreases k - i,
{
    if i < k {
        lemma_select_skip(cmds, p, i + 1, k);
    }
}

/// Select the first command, in registration order, whose flag is present.
fn select_cmd(reg: &Registry, p: &ParsedOptions) -> (r: Option<usize>)
    ensures
        match r {
            Some(j) => j < reg.commands.len() && spec_select_cmd(reg@, p@) == Some(j as int),
            None => spec_select_cmd(reg@, p@) == None::<int>,
        },
{
    let n = reg.commands.len();
    let mut j: usize = 0;
    while j < n
        invariant_except_break
            j <= n,
            n == reg.commands.len(),
            forall|m: int| 0 <= m < j ==> !spec_present(p@, seq![(#[trigger] reg@[m]).short]),
        ensures
            j <= n,
            n == reg.commands.len(),
            forall|m: int| 0 <= m < j ==> !spec_present(p@, seq![(#[trigger] reg@[m]).short]),
            j < n ==> spec_present(p@, seq![reg@[j as int].short]),
        decreases n - j,
    {
        let c = &reg.commands[j];
        let name = char_to_string(c.short);
        proof {
            assert(reg@[j as int] == reg.commands@[j as int]@);
            assert(name@ =~= seq![reg@[j as int].short]);
        }
        if p.opt_present(name.as_str()) {
            break ;
        }
        j += 1;
    }
    proof {
        lemma_select_skip(reg@, p@, 0, j as int);
    }
    if j == n {
        None
    } else {
        Some(j)
    }
}

/// What the selected command's operation answers, with `now` the current
/// time (which only the issue command reads).
pub open spec fn spec_run_op(op: OpKind, m: ParsedV, now: i64) -> CmdOutV {
    match op {
        OpKind::Acert => crate::pki_acert::spec_acert(m),
        OpKind::Dn => crate::pki_dn::spec_dn(m),
        OpKind::Est => crate::pki_est::spec_est(m),
        OpKind::Estca => crate::pki_estca::spec_estca(m),
        OpKind::Gen => crate::pki_gen::spec_gen(m),
        OpKind::Issue => crate::pki_issue::spec_issue(m, now),
        OpKind::Keyid => crate::pki_keyid::spec_keyid(m),
        OpKind::Ocsp => crate::pki_ocsp::spec_ocsp(m),
        OpKind::Pkcs12 => crate::pki_pkcs12::spec_pkcs12(m),
        OpKind::Pkcs7 => crate::pki_pkcs7::spec_pkcs7(m),
        OpKind::Print => crate::pki_print::spec_print(m),
        OpKind::Pub => crate::pki_pub::spec_pub(m),
        OpKind::Req => crate::pki_req::spec_req(m),
        OpKind::Scep => crate::pki_scep::spec_scep(m),
        OpKind::Scepca => crate::pki_scepca::spec_scepca(m),
        OpKind::SelfSigned => crate::pki_self::spec_self_signed(m),
        OpKind::Signcrl => crate::pki_signcrl::spec_signcrl(m),
        OpKind::Verify => crate::pki_verify::spec_verify(m),
    }
}

/// Run the selected command's operation on its parsed options.
pub fn run_op(op: OpKind, m: &ParsedOptions, now: i64) -> (r: CmdOutcome)
    ensures
        r@ == spec_run_op(op, m@, now),
{
    match op {
        OpKind::Acert => crate::pki_acert::pki_acert(m),
        OpKind::Dn => crate::pki_dn::pki_dn(m),
        OpKind::Est => crate::pki_est::pki_est(m),
        OpKind::Estca => crate::pki_estca::pki_estca(m),
        OpKind::Gen => crate::pki_gen::pki_gen(m),
        OpKind::Issue => crate::pki_issue::pki_issue_at(m, now),
        OpKind::Keyid => crate::pki_keyid::pki_keyid(m),
        OpKind::Ocsp => crate::pki_ocsp::pki_ocsp(m),
        OpKind::Pkcs12 => crate::pki_pkcs12::pki_pkcs12(m),
        OpKind::Pkcs7 => crate::pki_pkcs7::pki_pkcs7(m),
        OpKind::Print => crate::pki_print::pki_print(m),
        OpKind::Pub => crate::pki_pub::pki_pub(m),
        OpKind::Req => crate::pki_req::pki_req(m),
        OpKind::Scep => crate::pki_scep::pki_scep(m),
        OpKind::Scepca => crate::pki_scepca::pki_scepca(m),
        OpKind::SelfSigned => crate::pki_self::pki_self(m),
        OpKind::Signcrl => crate::pki_signcrl::pki_signcrl(m),
        OpKind::Verify => crate::pki_verify::pki_verify(m),
    }
}

/// What one invocation answers, as a function of the registered commands, the
/// arguments after the program name, and the current time.
///
/// No arguments at all is a missing command: status 1, after the command
/// listing. An unknown or malformed first token is a usage error: status 2.
/// The reserved help flag prints the listing and succeeds; a selected
/// command's options are parsed against its own declared set, a parse error
/// printing that command's usage with status 2 and its help flag printing the
/// same usage with status 0. When no command flag is present at all, nothing
/// runs and the status is 0: an unmatched command flag is deliberately no
/// error.
pub open spec fn spec_dispatch(cmds: Seq<CommandV>, args: Seq<Seq<char>>, now: i64) -> CmdOutV {
    if args.len() == 0 {
        CmdOutV { lines: seq!["command missing"@] + spec_usage_lines(cmds), status: 1 }
    } else {
        match spec_parse(spec_global_opts(cmds), seq![args[0]]) {
            Err(e) => CmdOutV {
                lines: seq![spec_err_message(e)] + spec_usage_lines(cmds),
                status: 2,
            },
            Ok(p) => {
                if spec_present(p, "h"@) {
                    CmdOutV { lines: spec_usage_lines(cmds), status: 0 }
                } else {
                    match spec_select_cmd(cmds, p) {
                        None => CmdOutV { lines: Seq::<Seq<char>>::empty(), status: 0 },
                        Some(ci) => {
                            let cmd = cmds[ci];
                            match spec_parse(cmd.options, args.skip(1)) {
                                Err(e) => CmdOutV {
                                    lines: seq![spec_err_message(e)] + spec_cmd_usage_lines(cmd),
                                    status: 2,
                                },
                                Ok(cp) => {
                                    if spec_present(cp, "h"@) {
                                        CmdOutV { lines: spec_cmd_usage_lines(cmd), status: 0 }
                                    } else {
                                        spec_run_op(cmd.op, cp, now)
                                    }
                                },
                            }
                        },
                    }
                }
            },
        }
    }
}

/// One invocation of the front end, with `now` the current time: parse the
/// first token against the global flag set, resolve the command, parse its
/// options, and run it.
pub fn dispatch_at(reg: &Registry, args: &Vec<String>, now: i64) -> (r: CmdOutcome)
    ensures
        r@ == spec_dispatch(reg@, args.deep_view(), now),
{
    let ghost av = args.deep_view();
    if args.len() == 0 {
        let mut lines: Vec<String> = Vec::new();
        lines.push("command missing".to_owned());
        let mut ul = usage(reg);
        lines.append(&mut ul);
        proof {
            assert(lines.deep_view() =~= seq!["command missing"@] + spec_usage_lines(reg@));
        }
        return CmdOutcome { lines, status: 1 };
    }
    let gopts = global_opts(reg);
    let mut cmd_arg: Vec<String> = Vec::new();
    cmd_arg.push(args[0].clone());
    proof {
        assert(cmd_arg.deep_view() =~= seq![av[0]]);
    }
    let p = match parse(&gopts, &cmd_arg) {
        Ok(p) => p,
        Err(e) => {
            let mut lines: Vec<String> = Vec::new();
            lines.push(e.message());
            let mut ul = usage(reg);
            lines.append(&mut ul);
            proof {
                assert(lines.deep_view() =~= seq![spec_err_message(e@)] + spec_usage_lines(reg@));
            }
            return CmdOutcome { lines, status: 2 };
        },
    };
    if p.opt_present("h") {
        let lines = usage(reg);
        return CmdOutcome { lines, status: 0 };
    }
    let ci = match select_cmd(reg, &p) {
        Some(ci) => ci,
        None => {
            let lines: Vec<String> = Vec::new();
            proof {
                assert(lines.deep_view() =~= Seq::<Seq<char>>::empty());
            }
            return CmdOutcome { lines, status: 0 };
        },
    };
    let cmd = &reg.commands[ci];
    proof {
        assert(cmd@ == reg@[ci as int]);
        assert(opts_view(cmd.options@) == reg@[ci as int].options);
    }
    let rest = clone_strings_from(args, 1);
    proof {
        assert(rest.deep_view() =~= av.skip(1));
    }
    let cp = match parse(&cmd.options, &rest) {
        Ok(cp) => cp,
        Err(e) => {
            let mut lines: Vec<String> = Vec::new();
            lines.push(e.message());
            let mut cu = cmd_usage(cmd);
            lines.append(&mut cu);
            proof {
                assert(lines.deep_view() =~= seq![spec_err_message(e@)] + spec_cmd_usage_lines(
                    reg@[ci as int],
                ));
            }
            return CmdOutcome { lines, status: 2 };
        },
    };
    if cp.opt_present("h") {
        let lines = cmd_usage(cmd);
        return CmdOutcome { lines, status: 0 };
    }
    run_op(cmd.op, &cp, now)
}

/// One invocation of the front end: the outcome is [`dispatch_at`] at the
/// moment of the call.
pub fn dispatch(reg: &Registry, args: &Vec<String>) -> (r: CmdOutcome)
    ensures
        exists|now: i64| r@ == spec_dispatch(reg@, args.deep_view(), now),
{
    let now = now_epoch();
    let r = dispatch_at(reg, args, now);
    proof {
        assert(r@ == spec_dispatch(reg@, args.deep_view(), now));
    }
    r
}

/// Dispatching is pure: one registry, one argument list and one time yield
/// exactly one outcome, so running the dispatcher twice on the same inputs
/// yields identical lines and an identical exit status.
pub proof fn lemma_dispatch_deterministic(
    cmds: Seq<CommandV>,
    args: Seq<Seq<char>>,
    now: i64,
    r1: CmdOutV,
    r2: CmdOutV,
)
    requires
        r1 == spec_dispatch(cmds, args, now),
        r2 == spec_dispatch(cmds, args, now),
    ensures
        r1 == r2,
{
}

/// The standard registry: every command of this front end, registered once,
/// in a fixed order. Registration keeps the registry's invariant: no two
/// commands share their identifying pair, and within each command no two
/// options share theirs.
pub fn standard_registry() -> (r: Registry)
    ensures
        registry_wf(r@),
{
    let mut reg = Registry::new();
    let _ = reg.register(crate::pki_acert::command());
    let _ = reg.register(crate::pki_dn::command());
    let _ = reg.register(crate::pki_est::command());
    let _ = reg.register(crate::pki_estca::command());
    let _ = reg.register(crate::pki_gen::command());
    let _ = reg.register(crate::pki_issue::command());
    let _ = reg.register(crate::pki_keyid::command());
    let _ = reg.register(crate::pki_ocsp::command());
    let _ = reg.register(crate::pki_pkcs12::command());
    let _ = reg.register(crate::pki_pkcs7::command());
    let _ = reg.register(crate::pki_print::command());
    let _ = reg.register(crate::pki_pub::command());
    let _ = reg.register(crate::pki_req::command());
    let _ = reg.register(crate::pki_scep::command());
    let _ = reg.register(crate::pki_scepca::command());
    let _ = reg.register(crate::pki_self::command());
    let _ = reg.register(crate::pki_signcrl::command());
    let _ = reg.register(crate::pki_verify::command());
    reg
}

} // verus!

