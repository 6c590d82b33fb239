//! The events of the audit tool's JSON log, and what each renders to.
use vstd::prelude::*;
use vstd::string::*;

use crate::text::{decimal, decimal_of, pad, pad_left};
use crate::{PrintLevel, PrintValues};

verus! {

/// One line of the audit tool's log.
pub enum LogEntry {
    Diagnostic(Diagnostic),
    Summary(Summary),
    Log(Log),
}

/// What an event renders to, as (title, body, severity).
pub open spec fn entry_values(e: LogEntry) -> (Option<Seq<char>>, Seq<char>, PrintLevel) {
    match e {
        LogEntry::Diagnostic(d) => diagnostic_values(d),
        LogEntry::Summary(s) => summary_values(s),
        LogEntry::Log(l) => log_values(l),
    }
}

impl LogEntry {
    pub fn print(&self) -> (r: PrintValues)
        ensures
            r@ == entry_values(*self),
    {
        match self {
            LogEntry::Diagnostic(d) => d.print(),
            LogEntry::Summary(s) => s.print(),
            LogEntry::Log(l) => l.print(),
        }
    }
}

// ---------------------------------------------------------------- diagnostics

/// One finding of the audit.
pub struct Diagnostic {
    pub code: Code,
    pub graphs: Vec<Graph>,
    pub labels: Vec<Label>,
    pub message: String,
    pub severity: Severity,
    pub advisory: Option<Advisory>,
}

/// The identifier of a finding, such as `A001` or `B004`.
pub struct Code(pub String);

/// The audit check that produced a finding.
#[derive(Clone, Copy, Debug, PartialEq, Eq, Structural)]
pub enum Category {
    Advisories,
    Bans,
    Licenses,
    Sources,
}

/// The category named by the first character of a code, if any.
pub open spec fn category_of(code: Seq<char>) -> Option<Category> {
    if code.len() == 0 {
        None
    } else if code[0] == 'a' || code[0] == 'A' {
        Some(Category::Advisories)
    } else if code[0] == 'b' || code[0] == 'B' {
        Some(Category::Bans)
    } else if code[0] == 'l' || code[0] == 'L' {
        Some(Category::Licenses)
    } else if code[0] == 's' || code[0] == 'S' {
        Some(Category::Sources)
    } else {
        None
    }
}

impl Code {
    /// The category that the code's first character names.
    pub fn category(&self) -> (r: Option<Category>)
        ensures
            r == category_of(self.0@),
    {
        let s = self.0.as_str();
        if s.unicode_len() == 0 {
            return None;
        }
        let c = s.get_char(0);
        if c == 'a' || c == 'A' {
            Some(Category::Advisories)
        } else if c == 'b' || c == 'B' {
            Some(Category::Bans)
        } else if c == 'l' || c == 'L' {
            Some(Category::Licenses)
        } else if c == 's' || c == 'S' {
            Some(Category::Sources)
        } else {
            None
        }
    }
}

/// Severity of a finding as the audit tool reports it.
#[derive(Clone, Copy, Debug, PartialEq, Eq, Structural)]
pub enum Severity {
    Error,
    Warning,
    Note,
    Help,
}

pub open spec fn severity_name(s: Severity) -> Seq<char> {
    match s {
        Severity::Error => "error"@,
        Severity::Warning => "warning"@,
        Severity::Note => "note"@,
        Severity::Help => "help"@,
    }
}

/// Errors and warnings keep their level; notes and helps become notices.
pub open spec fn severity_level(s: Severity) -> PrintLevel {
    match s {
        Severity::Error => PrintLevel::Error,
        Severity::Warning => PrintLevel::Warning,
        _ => PrintLevel::Notice,
    }
}

impl Severity {
    /// The lower-case name of the severity.
    pub fn as_str(&self) -> (r: &'static str)
        ensures
            r@ == severity_name(*self),
    {
        proof {
            reveal_strlit("error");
            reveal_strlit("warning");
            reveal_strlit("note");
            reveal_strlit("help");
        }
        match self {
            Severity::Error => "error",
            Severity::Warning => "warning",
            Severity::Note => "note",
            Severity::Help => "help",
        }
    }

    /// The annotation level of a finding of this severity.
    pub fn level(&self) -> (r: PrintLevel)
        ensures
            r == severity_level(*self),
    {
        match self {
            Severity::Error => PrintLevel::Error,
            Severity::Warning => PrintLevel::Warning,
            _ => PrintLevel::Notice,
        }
    }
}

/// A source excerpt with a message about it.
pub struct Label {
    pub span: String,
    pub message: String,
}

pub open spec fn label_text(l: Label) -> Seq<char> {
    l.message@ + "\n\n"@ + l.span@
}

impl Label {
    pub fn print(&self) -> (r: String)
        ensures
            r@ == label_text(*self),
    {
        let mut buf = self.message.clone();
        buf.append("\n\n");
        buf.append(self.span.as_str());
        buf
    }
}

/// How a dependency is used by the crate that depends on it.
#[derive(Clone, Copy, Debug, PartialEq, Eq, Structural)]
pub enum DepKind {
    Normal,
    Dev,
    Build,
}

impl Default for DepKind {
    fn default() -> (r: Self)
        ensures
            r == DepKind::Normal,
    {
        DepKind::Normal
    }
}

pub open spec fn kind_prefix(k: DepKind) -> Seq<char> {
    match k {
        DepKind::Normal => ""@,
        DepKind::Dev => "(dev) "@,
        DepKind::Build => "(build) "@,
    }
}

/// A node of an inverted dependency tree: a package and the packages that
/// depend on it.
pub struct Graph {
    pub name: String,
    pub version: String,
    pub repeat: bool,
    pub parents: Vec<Graph>,
    pub kind: DepKind,
}

/// The line of one node, after `indent`.
pub open spec fn graph_line(g: Graph, indent: Seq<char>) -> Seq<char> {
    indent + kind_prefix(g.kind) + g.name@ + " "@ + g.version@ + (if g.repeat {
        " (*)"@
    } else {
        ""@
    })
}

/// The parents of `g` from the `i`-th on, each on a new line and indented
/// two spaces deeper than `g`.
pub open spec fn parents_text(g: Graph, indent: Seq<char>, i: nat) -> Seq<char>
    decreases g, g.parents@.len() - i,
{
    if i < g.parents@.len() {
        let p = g.parents@[i as int];
        let inner = indent + "  "@;
        "\n"@ + graph_line(p, inner) + parents_text(p, inner, 0) + parents_text(g, indent, i + 1)
    } else {
        Seq::empty()
    }
}

/// A tree in pre-order, one node per line, each indented after `indent` by
/// two spaces per level.
pub open spec fn graph_text(g: Graph, indent: Seq<char>) -> Seq<char> {
    graph_line(g, indent) + parents_text(g, indent, 0)
}

impl DepKind {
    pub fn prefix(&self) -> (r: &'static str)
        ensures
            r@ == kind_prefix(*self),
    {
        proof {
            reveal_strlit("");
            reveal_strlit("(dev) ");
            reveal_strlit("(build) ");
        }
        match self {
            DepKind::Normal => "",
            DepKind::Dev => "(dev) ",
            DepKind::Build => "(build) ",
        }
    }
}

impl Graph {
    pub fn print(&self) -> (r: String)
        ensures
            r@ == graph_text(*self, Seq::empty()),
    {
        proof {
            reveal_strlit("");
        }
        assert(""@ =~= Seq::<char>::empty());
        self.print_internal("")
    }

    fn print_internal(&self, indent: &str) -> (r: String)
        ensures
            r@ == graph_text(*self, indent@),
        decreases self,
    {
        proof {
            reveal_strlit(" ");
            reveal_strlit(" (*)");
            reveal_strlit("  ");
            reveal_strlit("\n");
        }
        let mut buf = String::from_str(indent);
        buf.append(self.kind.prefix());
        buf.append(self.name.as_str());
        buf.append(" ");
        buf.append(self.version.as_str());
        if self.repeat {
            buf.append(" (*)");
        } else {
            proof { reveal_strlit(""); }
            buf.append("");
        }
        assert(buf@ =~= graph_line(*self, indent@));
        let mut inner = String::from_str(indent);
        inner.append("  ");
        let mut i: usize = 0;
        while i < self.parents.len()
            invariant
                i <= self.parents@.len(),
                inner@ == indent@ + "  "@,
                buf@ + parents_text(*self, indent@, i as nat) == graph_text(*self, indent@),
            decreases self.parents@.len() - i,
        {
            let ghost before = buf@;
            buf.append("\n");
            assert(decreases_to!(*self => self.parents@[i as int]));
            let sub = self.parents[i].print_internal(inner.as_str());
            buf.append(sub.as_str());
            assert(buf@ + parents_text(*self, indent@, (i + 1) as nat) =~= before + parents_text(*self, indent@, i as nat));
            i = i + 1;
        }
        assert(buf@ + parents_text(*self, indent@, i as nat) =~= buf@);
        buf
    }
}

/// A security advisory attached to a finding.
pub struct Advisory {
    pub id: String,
    pub package: String,
    pub title: String,
    pub description: String,
    pub date: String,
    pub aliases: Vec<String>,
    pub related: Vec<String>,
    pub collection: Option<String>,
    pub categories: Vec<String>,
    pub keywords: Vec<String>,
    pub cvss: Option<String>,
    pub informational: Option<String>,
    pub url: Option<String>,
    pub references: Vec<String>,
    pub withdrawn: Option<String>,
}

pub open spec fn advisory_text(a: Advisory) -> Seq<char> {
    "ID: "@ + a.id@ + "\nIssue: "@ + (match a.url {
        Some(u) => u@,
        None => "<none>"@,
    }) + "\n\n"@ + a.title@ + "\n\n"@ + a.description@
}

impl Advisory {
    pub fn print(&self) -> (r: String)
        ensures
            r@ == advisory_text(*self),
    {
        proof {
            reveal_strlit("ID: ");
            reveal_strlit("\nIssue: ");
            reveal_strlit("<none>");
            reveal_strlit("\n\n");
        }
        let mut buf = String::from_str("ID: ");
        buf.append(self.id.as_str());
        buf.append("\nIssue: ");
        match &self.url {
            Some(u) => buf.append(u.as_str()),
            None => buf.append("<none>"),
        }
        buf.append("\n\n");
        buf.append(self.title.as_str());
        buf.append("\n\n");
        buf.append(self.description.as_str());
        buf
    }
}

/// The labels, each followed by a newline.
pub open spec fn labels_text(ls: Seq<Label>) -> Seq<char>
    decreases ls.len(),
{
    if ls.len() == 0 {
        Seq::empty()
    } else {
        labels_text(ls.drop_last()) + label_text(ls.last()) + "\n"@
    }
}

/// The trees, each rendered from depth zero and followed by a newline.
pub open spec fn graphs_text(gs: Seq<Graph>) -> Seq<char>
    decreases gs.len(),
{
    if gs.len() == 0 {
        Seq::empty()
    } else {
        graphs_text(gs.drop_last()) + graph_text(gs.last(), Seq::empty()) + "\n"@
    }
}

pub open spec fn diagnostic_title(d: Diagnostic) -> Seq<char> {
    severity_name(d.severity) + "["@ + d.code.0@ + "]: "@ + d.message@
}

/// Labels, then a dependency-graph section when there are graphs, then an
/// advisory section when there is an advisory.
pub open spec fn diagnostic_body(d: Diagnostic) -> Seq<char> {
    labels_text(d.labels@) + (if d.graphs@.len() > 0 {
        "\nDependency graph:\n"@
    } else {
        Seq::empty()
    }) + graphs_text(d.graphs@) + (match d.advisory {
        Some(a) => "\nAdvisory:\n\n"@ + advisory_text(a),
        None => Seq::empty(),
    })
}

pub open spec fn diagnostic_values(d: Diagnostic) -> (Option<Seq<char>>, Seq<char>, PrintLevel) {
    (Some(diagnostic_title(d)), diagnostic_body(d), severity_level(d.severity))
}

impl Diagnostic {
    /// The category that the finding's code names.
    pub fn category(&self) -> (r: Option<Category>)
        ensures
            r == category_of(self.code.0@),
    {
        self.code.category()
    }

    pub fn print(&self) -> (r: PrintValues)
        ensures
            r@ == diagnostic_values(*self),
    {
        proof {
            reveal_strlit("\n");
            reveal_strlit("\nDependency graph:\n");
            reveal_strlit("\nAdvisory:\n\n");
            reveal_strlit("[");
            reveal_strlit("]: ");
        }
        let mut buf = String::new();
        let mut i: usize = 0;
        while i < self.labels.len()
            invariant
                i <= self.labels@.len(),
                buf@ == labels_text(self.labels@.subrange(0, i as int)),
            decreases self.labels@.len() - i,
        {
            let l = self.labels[i].print();
            buf.append(l.as_str());
            buf.append("\n");
            assert(self.labels@.subrange(0, (i + 1) as int).drop_last() =~= self.labels@.subrange(0, i as int));
            i = i + 1;
        }
        assert(self.labels@.subrange(0, i as int) =~= self.labels@);
        let ghost labels_part = buf@;
        if self.graphs.len() > 0 {
            buf.append("\nDependency graph:\n");
        }
        let ghost head = buf@;
        let mut j: usize = 0;
        while j < self.graphs.len()
            invariant
                j <= self.graphs@.len(),
                buf@ == head + graphs_text(self.graphs@.subrange(0, j as int)),
            decreases self.graphs@.len() - j,
        {
            let g = self.graphs[j].print();
            buf.append(g.as_str());
            buf.append("\n");
            assert(self.graphs@.subrange(0, (j + 1) as int).drop_last() =~= self.graphs@.subrange(0, j as int));
            j = j + 1;
        }
        assert(self.graphs@.subrange(0, j as int) =~= self.graphs@);
        match &self.advisory {
            Some(a) => {
                buf.append("\nAdvisory:\n\n");
                let t = a.print();
                buf.append(t.as_str());
            },
            None => {},
        }
        assert(buf@ =~= diagnostic_body(*self));
        let mut title = String::from_str(self.severity.as_str());
        title.append("[");
        title.append(self.code.0.as_str());
        title.append("]: ");
        title.append(self.message.as_str());
        PrintValues { title: Some(title), message: buf, level: self.severity.level() }
    }
}

// ---------------------------------------------------------------- summary

/// Counts of findings of one check, by severity.
pub struct Stats {
    pub errors: u32,
    pub warnings: u32,
    pub notes: u32,
    pub helps: u32,
}

impl Default for Stats {
    fn default() -> (r: Self)
        ensures
            r.errors == 0 && r.warnings == 0 && r.notes == 0 && r.helps == 0,
    {
        Stats { errors: 0, warnings: 0, notes: 0, helps: 0 }
    }
}

/// `FAILED` when there are errors, else `ok`.
pub open spec fn stats_status(s: Stats) -> Seq<char> {
    if s.errors > 0 {
        "FAILED"@
    } else {
        "ok"@
    }
}

/// One line of the summary: the category right-aligned to ten characters,
/// the status to six, then the counts, helps counted as notes.
pub open spec fn stats_line(s: Stats, category: Seq<char>) -> Seq<char> {
    pad_left(category, 10) + " "@ + pad_left(stats_status(s), 6) + ": "@ + decimal_of(s.errors as nat)
        + " errors, "@ + decimal_of(s.warnings as nat) + " warnings, "@ + decimal_of(
        s.notes as nat + s.helps as nat,
    ) + " notes"@
}

impl Stats {
    pub fn print(&self, category: &str) -> (r: String)
        ensures
            r@ == stats_line(*self, category@),
    {
        proof {
            reveal_strlit("FAILED");
            reveal_strlit("ok");
            reveal_strlit(" ");
            reveal_strlit(": ");
            reveal_strlit(" errors, ");
            reveal_strlit(" warnings, ");
            reveal_strlit(" notes");
        }
        let mut buf = pad(category, 10);
        buf.append(" ");
        let status = if self.errors > 0 { "FAILED" } else { "ok" };
        let p = pad(status, 6);
        buf.append(p.as_str());
        buf.append(": ");
        let e = decimal(self.errors as u64);
        buf.append(e.as_str());
        buf.append(" errors, ");
        let w = decimal(self.warnings as u64);
        buf.append(w.as_str());
        buf.append(" warnings, ");
        let n = decimal(self.notes as u64 + self.helps as u64);
        buf.append(n.as_str());
        buf.append(" notes");
        buf
    }
}

/// Counts of findings of each of the four checks.
pub struct Summary {
    pub advisories: Stats,
    pub bans: Stats,
    pub licenses: Stats,
    pub sources: Stats,
}

/// One line per check, in the order advisories, bans, licenses, sources.
pub open spec fn summary_body(s: Summary) -> Seq<char> {
    stats_line(s.advisories, "advisories"@) + "\n"@ + stats_line(s.bans, "bans"@) + "\n"@
        + stats_line(s.licenses, "licenses"@) + "\n"@ + stats_line(s.sources, "sources"@)
}

pub open spec fn summary_values(s: Summary) -> (Option<Seq<char>>, Seq<char>, PrintLevel) {
    (Some("Statistics"@), summary_body(s), PrintLevel::Notice)
}

impl Summary {
    pub fn print(&self) -> (r: PrintValues)
        ensures
            r@ == summary_values(*self),
    {
        proof {
            reveal_strlit("\n");
        }
        let mut buf = self.advisories.print("advisories");
        buf.append("\n");
        let b = self.bans.print("bans");
        buf.append(b.as_str());
        buf.append("\n");
        let l = self.licenses.print("licenses");
        buf.append(l.as_str());
        buf.append("\n");
        let s = self.sources.print("sources");
        buf.append(s.as_str());
        PrintValues {
            title: Some(String::from_str("Statistics")),
            message: buf,
            level: PrintLevel::Notice,
        }
    }
}

// ---------------------------------------------------------------- log lines

/// Level of an operational message of the audit tool.
#[derive(Clone, Copy, Debug, PartialEq, Eq, Structural)]
pub enum Level {
    Error,
    Warn,
    Info,
    Debug,
    Trace,
}

pub open spec fn level_upper(l: Level) -> Seq<char> {
    match l {
        Level::Error => "ERROR"@,
        Level::Warn => "WARN"@,
        Level::Info => "INFO"@,
        Level::Debug => "DEBUG"@,
        Level::Trace => "TRACE"@,
    }
}

impl Level {
    /// The upper-case name of the level.
    pub fn as_str(&self) -> (r: &'static str)
        ensures
            r@ == level_upper(*self),
    {
        proof {
            reveal_strlit("ERROR");
            reveal_strlit("WARN");
            reveal_strlit("INFO");
            reveal_strlit("DEBUG");
            reveal_strlit("TRACE");
        }
        match self {
            Level::Error => "ERROR",
            Level::Warn => "WARN",
            Level::Info => "INFO",
            Level::Debug => "DEBUG",
            Level::Trace => "TRACE",
        }
    }
}

/// An operational message of the audit tool.
pub struct Log {
    pub timestamp: String,
    pub level: Level,
    pub message: String,
}

/// `{timestamp} [{level:>5}] {message}`, always a notice.
pub open spec fn log_values(l: Log) -> (Option<Seq<char>>, Seq<char>, PrintLevel) {
    (
        None,
        l.timestamp@ + " ["@ + pad_left(level_upper(l.level), 5) + "] "@ + l.message@,
        PrintLevel::Notice,
    )
}

impl Log {
    pub fn print(&self) -> (r: PrintValues)
        ensures
            r@ == log_values(*self),
    {
        proof {
            reveal_strlit(" [");
            reveal_strlit("] ");
        }
        let mut buf = self.timestamp.clone();
        buf.append(" [");
        let lv = pad(self.level.as_str(), 5);
        buf.append(lv.as_str());
        buf.append("] ");
        buf.append(self.message.as_str());
        PrintValues { title: None, message: buf, level: PrintLevel::Notice }
    }
}

// ---------------------------------------------------------------- laws

/// A summary whose counters are all zero lists every check as `ok` with
/// zero counts, as a notice.
pub proof fn lemma_zero_summary(s: Summary)
    requires
        s.advisories.errors == 0 && s.advisories.warnings == 0 && s.advisories.notes == 0
            && s.advisories.helps == 0,
        s.bans.errors == 0 && s.bans.warnings == 0 && s.bans.notes == 0 && s.bans.helps == 0,
        s.licenses.errors == 0 && s.licenses.warnings == 0 && s.licenses.notes == 0
            && s.licenses.helps == 0,
        s.sources.errors == 0 && s.sources.warnings == 0 && s.sources.notes == 0
            && s.sources.helps == 0,
    ensures
        summary_values(s) == (
            Some("Statistics"@),
            "advisories     ok: 0 errors, 0 warnings, 0 notes\n      bans     ok: 0 errors, 0 warnings, 0 notes\n  licenses     ok: 0 errors, 0 warnings, 0 notes\n   sources     ok: 0 errors, 0 warnings, 0 notes"@,
            PrintLevel::Notice,
        ),
{
    reveal_strlit("advisories     ok: 0 errors, 0 warnings, 0 notes\n      bans     ok: 0 errors, 0 warnings, 0 notes\n  licenses     ok: 0 errors, 0 warnings, 0 notes\n   sources     ok: 0 errors, 0 warnings, 0 notes");
    reveal_strlit("advisories");
    reveal_strlit("bans");
    reveal_strlit("licenses");
    reveal_strlit("sources");
    reveal_strlit("ok");
    reveal_strlit(" ");
    reveal_strlit(": ");
    reveal_strlit(" errors, ");
    reveal_strlit(" warnings, ");
    reveal_strlit(" notes");
    reveal_strlit("\n");
    assert(decimal_of(0) == seq!['0']);
    assert(pad_left("ok"@, 6) =~= "    ok"@) by { reveal_strlit("    ok"); }
    assert(pad_left("advisories"@, 10) =~= "advisories"@);
    assert(pad_left("bans"@, 10) =~= "      bans"@) by { reveal_strlit("      bans"); }
    assert(pad_left("licenses"@, 10) =~= "  licenses"@) by { reveal_strlit("  licenses"); }
    assert(pad_left("sources"@, 10) =~= "   sources"@) by { reveal_strlit("   sources"); }
    assert(summary_body(s) =~= "advisories     ok: 0 errors, 0 warnings, 0 notes\n      bans     ok: 0 errors, 0 warnings, 0 notes\n  licenses     ok: 0 errors, 0 warnings, 0 notes\n   sources     ok: 0 errors, 0 warnings, 0 notes"@);
}

/// Rendering has no hidden state: two renderings of one event agree on
/// title, body and severity.
pub proof fn lemma_render_deterministic(e: LogEntry, first: PrintValues, second: PrintValues)
    requires
        first@ == entry_values(e),
        second@ == entry_values(e),
    ensures
        first@ == second@,
{
}

/// A chain `leaf <- mid <- root` renders as three lines, the leaf's, the
/// mid's and the root's, indented by zero, one and two pairs of spaces; each
/// line is the kind's prefix, name and version, with ` (*)` only after a
/// repeated node.
pub proof fn lemma_chain_rendering(leaf: Graph)
    requires
        leaf.parents@.len() == 1,
        leaf.parents@[0].parents@.len() == 1,
        leaf.parents@[0].parents@[0].parents@.len() == 0,
    ensures
        graph_text(leaf, Seq::empty()) == graph_line(leaf, Seq::empty()) + "\n"@ + graph_line(
            leaf.parents@[0],
            "  "@,
        ) + "\n"@ + graph_line(leaf.parents@[0].parents@[0], "    "@),
{
    let mid = leaf.parents@[0];
    let root = mid.parents@[0];
    reveal_strlit("  ");
    reveal_strlit("    ");
    let i1 = Seq::<char>::empty() + "  "@;
    let i2 = i1 + "  "@;
    assert(i1 =~= "  "@);
    assert(i2 =~= "    "@);
    assert(parents_text(root, i2, 0) == Seq::<char>::empty());
    assert(parents_text(mid, i1, 1) == Seq::<char>::empty());
    assert(parents_text(leaf, Seq::empty(), 1) == Seq::<char>::empty());
    let m = parents_text(mid, i1, 0);
    assert(m == "\n"@ + graph_line(root, i2) + parents_text(root, i2, 0) + parents_text(mid, i1, 1));
    assert(m =~= "\n"@ + graph_line(root, i2));
    let l = parents_text(leaf, Seq::empty(), 0);
    assert(l == "\n"@ + graph_line(mid, i1) + m + parents_text(leaf, Seq::empty(), 1));
    assert(graph_text(leaf, Seq::empty()) =~= graph_line(leaf, Seq::empty()) + "\n"@ + graph_line(
        mid,
        "  "@,
    ) + "\n"@ + graph_line(root, "    "@));
}

} // verus!
