//! Turns the JSON log of a dependency audit into CI annotations and decides,
//! from the worst severity seen, whether the run passes.
use vstd::prelude::*;
use vstd::string::*;

use crate::github::{annotation, str_opt_view};
use crate::text::{decimal, decimal_of};

pub mod cli;
pub mod github;
pub mod log;
pub mod text;

verus! {

/// Severity of an annotation, ordered from most to least severe.
#[derive(Clone, Copy, Debug, PartialEq, Eq, Structural, Hash)]
pub enum PrintLevel {
    Error,
    Warning,
    Notice,
}

/// Position of a level in the ordering: lower is more severe.
pub open spec fn rank(l: PrintLevel) -> nat {
    match l {
        PrintLevel::Error => 0,
        PrintLevel::Warning => 1,
        PrintLevel::Notice => 2,
    }
}

/// The lower-case name of a level.
pub open spec fn level_name(l: PrintLevel) -> Seq<char> {
    match l {
        PrintLevel::Error => "error"@,
        PrintLevel::Warning => "warning"@,
        PrintLevel::Notice => "notice"@,
    }
}

impl PrintLevel {
    /// Lower is more severe: `Error` is 0, `Warning` 1, `Notice` 2.
    pub fn rank(&self) -> (r: u8)
        ensures
            r as nat == rank(*self),
    {
        match self {
            PrintLevel::Error => 0,
            PrintLevel::Warning => 1,
            PrintLevel::Notice => 2,
        }
    }

    /// The lower-case name of the level.
    pub fn as_str(&self) -> (r: &'static str)
        ensures
            r@ == level_name(*self),
    {
        proof {
            reveal_strlit("error");
            reveal_strlit("warning");
            reveal_strlit("notice");
        }
        match self {
            PrintLevel::Error => "error",
            PrintLevel::Warning => "warning",
            PrintLevel::Notice => "notice",
        }
    }
}

/// What an event renders to: an optional title, a body and a severity.
pub struct PrintValues {
    pub title: Option<String>,
    pub message: String,
    pub level: PrintLevel,
}

/// The view of an optional string.
pub open spec fn opt_view(o: Option<String>) -> Option<Seq<char>> {
    match o {
        Some(s) => Some(s@),
        None => None,
    }
}

impl View for PrintValues {
    type V = (Option<Seq<char>>, Seq<char>, PrintLevel);

    open spec fn view(&self) -> Self::V {
        (opt_view(self.title), self.message@, self.level)
    }
}

/// The more severe of two levels.
pub open spec fn level_min(a: PrintLevel, b: PrintLevel) -> PrintLevel {
    if rank(a) <= rank(b) {
        a
    } else {
        b
    }
}

/// The more severe of two levels.
pub fn min_level(a: PrintLevel, b: PrintLevel) -> (r: PrintLevel)
    ensures
        r == level_min(a, b),
{
    if a.rank() <= b.rank() {
        a
    } else {
        b
    }
}

/// The minimum under the severity order is the more severe of the two
/// levels, whichever order they come in.
pub proof fn lemma_min_is_more_severe(a: PrintLevel, b: PrintLevel)
    ensures
        level_min(a, b) == a || level_min(a, b) == b,
        rank(level_min(a, b)) <= rank(a),
        rank(level_min(a, b)) <= rank(b),
        level_min(a, b) == level_min(b, a),
        level_min(PrintLevel::Error, PrintLevel::Warning) == PrintLevel::Error,
        level_min(PrintLevel::Warning, PrintLevel::Notice) == PrintLevel::Warning,
        level_min(PrintLevel::Error, PrintLevel::Notice) == PrintLevel::Error,
{
}

/// The worst level seen once `l` is seen after `found`.
pub open spec fn worse(found: Option<PrintLevel>, l: PrintLevel) -> PrintLevel {
    match found {
        Some(f) => level_min(f, l),
        None => l,
    }
}

/// An event at `l` is reported when it is at least as severe as the
/// report threshold.
pub open spec fn reported(report_level: PrintLevel, l: PrintLevel) -> bool {
    rank(l) <= rank(report_level)
}

/// The run fails when something was seen that is at least as severe as the
/// fail threshold.
pub open spec fn fails(found: Option<PrintLevel>, fail_level: PrintLevel) -> bool {
    match found {
        Some(f) => rank(fail_level) >= rank(f),
        None => false,
    }
}

/// Why a run fails.
pub enum RunError {
    /// The audit tool itself exited abnormally, with this status and this
    /// standard error.
    Abnormal { status: u32, stderr: String },
    /// Something at least as severe as this fail threshold was found.
    Threshold(PrintLevel),
}

pub open spec fn run_error_message(e: RunError) -> Seq<char> {
    match e {
        RunError::Abnormal { status, stderr } => "failed running cargo-deny, exited with status code "@
            + decimal_of(status as nat) + "\n\n"@ + stderr@,
        RunError::Threshold(l) => "failed due to finding one or more "@ + level_name(l)
            + "s or worse"@,
    }
}

impl RunError {
    /// The text to report the failure with.
    pub fn message(&self) -> (r: String)
        ensures
            r@ == run_error_message(*self),
    {
        proof {
            reveal_strlit("failed running cargo-deny, exited with status code ");
            reveal_strlit("\n\n");
            reveal_strlit("failed due to finding one or more ");
            reveal_strlit("s or worse");
        }
        match self {
            RunError::Abnormal { status, stderr } => {
                let mut buf = String::from_str(
                    "failed running cargo-deny, exited with status code ",
                );
                let d = decimal(*status as u64);
                buf.append(d.as_str());
                buf.append("\n\n");
                buf.append(stderr.as_str());
                buf
            },
            RunError::Threshold(l) => {
                let mut buf = String::from_str("failed due to finding one or more ");
                buf.append(l.as_str());
                buf.append("s or worse");
                buf
            },
        }
    }
}

/// Statuses 0 and 1 are the audit tool's own verdicts, which are derived
/// again from its log; any greater status means the tool itself failed.
pub fn check_status(status: i32, stderr: String) -> (r: Result<(), RunError>)
    ensures
        r is Ok <==> status <= 1,
        status > 1 ==> r == Err::<(), RunError>(
            RunError::Abnormal { status: status as u32, stderr },
        ),
{
    if status > 1 {
        Err(RunError::Abnormal { status: status as u32, stderr })
    } else {
        Ok(())
    }
}

/// Folds the events of a run: remembers the worst level seen and says which
/// events to report.
pub struct Aggregator {
    pub found_level: Option<PrintLevel>,
}

impl Aggregator {
    /// Nothing seen yet.
    pub fn new() -> (r: Aggregator)
        ensures
            r.found_level == None::<PrintLevel>,
    {
        Aggregator { found_level: None }
    }

    /// Takes in one rendered event; returns its annotation line when it is
    /// at least as severe as `report_level`.
    pub fn observe(&mut self, values: &PrintValues, report_level: PrintLevel) -> (r: Option<String>)
        ensures
            final(self).found_level == Some(worse(old(self).found_level, values.level)),
            opt_view(r) == (if reported(report_level, values.level) {
                Some(annotation(values.level, opt_view(values.title), values.message@))
            } else {
                None
            }),
    {
        let found = match self.found_level {
            Some(f) => min_level(f, values.level),
            None => values.level,
        };
        self.found_level = Some(found);
        if report_level.rank() < values.level.rank() {
            return None;
        }
        let title = match &values.title {
            Some(t) => Some(t.as_str()),
            None => None,
        };
        assert(str_opt_view(title) == opt_view(values.title));
        let line = match values.level {
            PrintLevel::Error => github::error(title, values.message.as_str()),
            PrintLevel::Warning => github::warning(title, values.message.as_str()),
            PrintLevel::Notice => github::notice(title, values.message.as_str()),
        };
        Some(line)
    }

    /// The outcome once every event has been seen.
    pub fn finish(&self, fail_level: PrintLevel) -> (r: Result<(), RunError>)
        ensures
            r is Err <==> fails(self.found_level, fail_level),
            r is Err ==> r == Err::<(), RunError>(RunError::Threshold(fail_level)),
    {
        match self.found_level {
            Some(f) => {
                if fail_level.rank() >= f.rank() {
                    return Err(RunError::Threshold(fail_level));
                }
                Ok(())
            },
            None => Ok(()),
        }
    }
}

/// A run that saw no event passes, whatever the fail threshold.
pub proof fn lemma_nothing_seen_passes(fail_level: PrintLevel)
    ensures
        !fails(None, fail_level),
{
}

/// A notice is reported only when the report threshold is itself the notice
/// level; warnings and errors are reported from their own level on.
pub proof fn lemma_report_boundary(report_level: PrintLevel)
    ensures
        reported(report_level, PrintLevel::Notice) <==> report_level == PrintLevel::Notice,
        reported(report_level, PrintLevel::Warning) <==> report_level != PrintLevel::Error,
        reported(report_level, PrintLevel::Error),
{
}

} // verus!
