//! The run's settings and the audit tool's command line.
use vstd::prelude::*;
use vstd::string::*;

use crate::{level_name, PrintLevel};

verus! {

/// One of the audit tool's checks.
#[derive(Clone, Copy, Debug, PartialEq, Eq, Structural)]
pub enum Check {
    Advisories,
    Bans,
    Licenses,
    Sources,
}

pub open spec fn check_name(c: Check) -> Seq<char> {
    match c {
        Check::Advisories => "advisories"@,
        Check::Bans => "bans"@,
        Check::Licenses => "licenses"@,
        Check::Sources => "sources"@,
    }
}

impl Check {
    /// The lower-case name of the check.
    pub fn as_str(&self) -> (r: &'static str)
        ensures
            r@ == check_name(*self),
    {
        proof {
            reveal_strlit("advisories");
            reveal_strlit("bans");
            reveal_strlit("licenses");
            reveal_strlit("sources");
        }
        match self {
            Check::Advisories => "advisories",
            Check::Bans => "bans",
            Check::Licenses => "licenses",
            Check::Sources => "sources",
        }
    }
}

/// What the audit tool is asked to do.
pub struct CargoDenyOpt {
    /// The path of a Cargo.toml to use as the context for the operation.
    pub manifest_path: Option<String>,
    /// The checks to perform; none means all of them.
    pub checks: Vec<Check>,
}

/// The settings of a run.
pub struct Opt {
    pub cargo_deny: CargoDenyOpt,
    /// Events less severe than this are not reported.
    pub report_level: PrintLevel,
    /// The run fails on an event at least this severe.
    pub fail_level: PrintLevel,
}

pub open spec fn strings_view(v: Seq<String>) -> Seq<Seq<char>> {
    v.map_values(|s: String| s@)
}

pub open spec fn check_names(cs: Seq<Check>) -> Seq<Seq<char>> {
    cs.map_values(|c: Check| check_name(c))
}

/// The audit tool's arguments: fixed options, the manifest path when one is
/// given, then `check` and the names of the checks.
pub open spec fn cargo_deny_args_spec(opt: CargoDenyOpt) -> Seq<Seq<char>> {
    seq!["--workspace"@, "--all-features"@, "--format"@, "json"@, "--log-level"@, "trace"@]
        + (match opt.manifest_path {
        Some(p) => seq!["--manifest-path"@, p@],
        None => Seq::empty(),
    }) + seq!["check"@] + check_names(opt.checks@)
}

fn push_str(v: &mut Vec<String>, s: &str)
    ensures
        strings_view(final(v)@) == strings_view(old(v)@).push(s@),
{
    v.push(String::from_str(s));
    assert(strings_view(final(v)@) =~= strings_view(old(v)@).push(s@));
}

/// The arguments to run the audit tool with.
pub fn cargo_deny_args(opt: &CargoDenyOpt) -> (r: Vec<String>)
    ensures
        strings_view(r@) == cargo_deny_args_spec(*opt),
{
    proof {
        reveal_strlit("--workspace");
        reveal_strlit("--all-features");
        reveal_strlit("--format");
        reveal_strlit("json");
        reveal_strlit("--log-level");
        reveal_strlit("trace");
        reveal_strlit("--manifest-path");
        reveal_strlit("check");
    }
    let mut v: Vec<String> = Vec::new();
    push_str(&mut v, "--workspace");
    push_str(&mut v, "--all-features");
    push_str(&mut v, "--format");
    push_str(&mut v, "json");
    push_str(&mut v, "--log-level");
    push_str(&mut v, "trace");
    match &opt.manifest_path {
        Some(p) => {
            push_str(&mut v, "--manifest-path");
            push_str(&mut v, p.as_str());
        },
        None => {},
    }
    push_str(&mut v, "check");
    let ghost head = strings_view(v@);
    let mut i: usize = 0;
    while i < opt.checks.len()
        invariant
            i <= opt.checks@.len(),
            strings_view(v@) == head + check_names(opt.checks@.subrange(0, i as int)),
        decreases opt.checks@.len() - i,
    {
        push_str(&mut v, opt.checks[i].as_str());
        assert(check_names(opt.checks@.subrange(0, (i + 1) as int)) =~= check_names(
            opt.checks@.subrange(0, i as int),
        ).push(check_name(opt.checks@[i as int])));
        i = i + 1;
    }
    assert(opt.checks@.subrange(0, i as int) =~= opt.checks@);
    assert(strings_view(v@) =~= cargo_deny_args_spec(*opt));
    v
}

/// The names of the checks, separated by `, `.
pub open spec fn joined_checks(cs: Seq<Check>) -> Seq<char>
    decreases cs.len(),
{
    if cs.len() == 0 {
        Seq::empty()
    } else if cs.len() == 1 {
        check_name(cs[0])
    } else {
        joined_checks(cs.drop_last()) + ", "@ + check_name(cs.last())
    }
}

/// The three lines that describe the settings of a run.
pub open spec fn opt_info_spec(opt: Opt) -> Seq<char> {
    "Will report "@ + level_name(opt.report_level) + "s or worse\nWill fail on "@ + level_name(
        opt.fail_level,
    ) + "s or worse\nChecks to perform: "@ + joined_checks(opt.cargo_deny.checks@)
}

/// Describes the settings of a run, in three lines.
pub fn opt_info(opt: &Opt) -> (r: String)
    ensures
        r@ == opt_info_spec(*opt),
{
    proof {
        reveal_strlit("Will report ");
        reveal_strlit("s or worse\nWill fail on ");
        reveal_strlit("s or worse\nChecks to perform: ");
        reveal_strlit(", ");
    }
    let mut buf = String::from_str("Will report ");
    buf.append(opt.report_level.as_str());
    buf.append("s or worse\nWill fail on ");
    buf.append(opt.fail_level.as_str());
    buf.append("s or worse\nChecks to perform: ");
    let ghost head = buf@;
    let checks = &opt.cargo_deny.checks;
    let mut i: usize = 0;
    while i < checks.len()
        invariant
            i <= checks@.len(),
            buf@ == head + joined_checks(checks@.subrange(0, i as int)),
        decreases checks@.len() - i,
    {
        let ghost prev = buf@;
        if i > 0 {
            buf.append(", ");
        }
        buf.append(checks[i].as_str());
        let ghost sub = checks@.subrange(0, (i + 1) as int);
        assert(sub.drop_last() =~= checks@.subrange(0, i as int));
        if i == 0 {
            assert(checks@.subrange(0, 0) =~= Seq::<Check>::empty());
            assert(buf@ =~= head + joined_checks(sub));
        } else {
            assert(buf@ =~= head + joined_checks(sub));
        }
        i = i + 1;
    }
    assert(checks@.subrange(0, i as int) =~= checks@);
    buf
}

} // verus!
