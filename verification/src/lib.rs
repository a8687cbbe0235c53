//! A multi-command PKI command-line front end: a registry of self-describing
//! commands, a two-phase dispatcher (select a command, then parse that
//! command's options), and a fluent credential-request builder.
//!
//! The library is pure: every function here computes output lines and an exit
//! status from its inputs. Reading the process arguments, printing the lines
//! and returning the status to the operating system is left to the thin
//! program around the library.

use vstd::prelude::*;

pub mod datetime;
pub mod dispatch;
pub mod parse;
pub mod registry;
pub mod report;
pub mod text;

pub mod strongswan;

pub mod pki_acert;
pub mod pki_dn;
pub mod pki_est;
pub mod pki_estca;
pub mod pki_gen;
pub mod pki_issue;
pub mod pki_keyid;
pub mod pki_ocsp;
pub mod pki_pkcs12;
pub mod pki_pkcs7;
pub mod pki_print;
pub mod pki_pub;
pub mod pki_req;
pub mod pki_scep;
pub mod pki_self;
pub mod pki_signcrl;
pub mod pki_scepca;
pub mod pki_verify;

verus! {

/// How many values an option accepts: none (presence only), at most one, or
/// arbitrarily many in the order given.
#[derive(Clone, Copy, PartialEq, Eq, Structural, Debug)]
pub enum Arity {
    Flag,
    Single,
    Multiple,
}

/// Descriptor of one command-line option.
pub struct Opt {
    /// long option string
    pub long: String,
    /// short option character
    pub short: char,
    /// expected argument to option: no/single/multiple argument
    pub arity: Arity,
    /// description of the option
    pub descr: String,
}

/// The mathematical value of an option descriptor.
#[verifier::ext_equal]
pub ghost struct OptV {
    pub long: Seq<char>,
    pub short: char,
    pub arity: Arity,
    pub descr: Seq<char>,
}

impl View for Opt {
    type V = OptV;

    open spec fn view(&self) -> OptV {
        OptV { long: self.long@, short: self.short, arity: self.arity, descr: self.descr@ }
    }
}

/// The operation a command performs, one variant per command module.
#[derive(Clone, Copy, PartialEq, Eq, Structural, Debug)]
pub enum OpKind {
    Acert,
    Dn,
    Est,
    Estca,
    Gen,
    Issue,
    Keyid,
    Ocsp,
    Pkcs12,
    Pkcs7,
    Print,
    Pub,
    Req,
    Scep,
    Scepca,
    SelfSigned,
    Signcrl,
    Verify,
}

/// Descriptor of one command.
pub struct Command {
    /// operation implementing the command
    pub op: OpKind,
    /// short option character
    pub short: char,
    /// long option string
    pub long: String,
    /// description of the command
    pub descr: String,
    /// usage summary of the command
    pub brief: Vec<String>,
    /// list of options the command accepts
    pub options: Vec<Opt>,
}

/// The mathematical value of a command descriptor.
#[verifier::ext_equal]
pub ghost struct CommandV {
    pub op: OpKind,
    pub short: char,
    pub long: Seq<char>,
    pub descr: Seq<char>,
    pub brief: Seq<Seq<char>>,
    pub options: Seq<OptV>,
}

impl View for Command {
    type V = CommandV;

    open spec fn view(&self) -> CommandV {
        CommandV {
            op: self.op,
            short: self.short,
            long: self.long@,
            descr: self.descr@,
            brief: self.brief.deep_view(),
            options: self.options@.map_values(|o: Opt| o@),
        }
    }
}

/// What running the library on an argument list comes to: the lines to
/// print, in order, and the process exit status.
#[derive(Debug, PartialEq, Eq)]
pub struct CmdOutcome {
    /// the lines to print, in order
    pub lines: Vec<String>,
    /// the process exit status
    pub status: u8,
}

/// The mathematical value of an outcome.
#[verifier::ext_equal]
pub ghost struct CmdOutV {
    pub lines: Seq<Seq<char>>,
    pub status: u8,
}

impl View for CmdOutcome {
    type V = CmdOutV;

    open spec fn view(&self) -> CmdOutV {
        CmdOutV { lines: self.lines.deep_view(), status: self.status }
    }
}

impl Command {
    pub fn new(
        op: OpKind,
        short: char,
        long: String,
        descr: String,
        brief: Vec<String>,
        options: Vec<Opt>,
    ) -> (r: Command)
        ensures
            r@ == (CommandV {
                op,
                short,
                long: long@,
                descr: descr@,
                brief: brief.deep_view(),
                options: options@.map_values(|o: Opt| o@),
            }),
    {
        Command { op, short, long, descr, brief, options }
    }
}

} // verus!
