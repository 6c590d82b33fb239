use action_cargo_deny::cli::{cargo_deny_args, opt_info, CargoDenyOpt, Check, Opt};
use action_cargo_deny::github::{command_line, error, notice, warning};
use action_cargo_deny::log::{
    Advisory, Category, Code, DepKind, Diagnostic, Graph, Label, Level, Log, LogEntry, Severity,
    Stats, Summary,
};
use action_cargo_deny::text::{decimal, pad};
use action_cargo_deny::{check_status, min_level, Aggregator, PrintLevel, PrintValues, RunError};

fn stats(errors: u32, warnings: u32, notes: u32, helps: u32) -> Stats {
    Stats { errors, warnings, notes, helps }
}

fn graph(name: &str, version: &str, kind: DepKind, repeat: bool, parents: Vec<Graph>) -> Graph {
    Graph { name: name.to_string(), version: version.to_string(), repeat, parents, kind }
}

fn diagnostic(severity: Severity) -> Diagnostic {
    Diagnostic {
        code: Code("B004".to_string()),
        graphs: vec![],
        labels: vec![Label { span: "foo = \"1\"".to_string(), message: "banned".to_string() }],
        message: "crate is banned".to_string(),
        severity,
        advisory: None,
    }
}

fn log_entry() -> Log {
    Log { timestamp: "2024-01-01".to_string(), level: Level::Info, message: "hi".to_string() }
}

fn zero_summary() -> Summary {
    Summary {
        advisories: Stats::default(),
        bans: stats(0, 0, 0, 0),
        licenses: stats(0, 0, 0, 0),
        sources: stats(0, 0, 0, 0),
    }
}

#[test]
fn min_level_is_more_severe() {
    assert_eq!(min_level(PrintLevel::Error, PrintLevel::Warning), PrintLevel::Error);
    assert_eq!(min_level(PrintLevel::Warning, PrintLevel::Error), PrintLevel::Error);
    assert_eq!(min_level(PrintLevel::Warning, PrintLevel::Notice), PrintLevel::Warning);
    assert_eq!(min_level(PrintLevel::Notice, PrintLevel::Warning), PrintLevel::Warning);
    assert_eq!(min_level(PrintLevel::Error, PrintLevel::Notice), PrintLevel::Error);
    assert_eq!(min_level(PrintLevel::Notice, PrintLevel::Notice), PrintLevel::Notice);
}

#[test]
fn decimal_and_pad() {
    assert_eq!(decimal(0), "0");
    assert_eq!(decimal(7), "7");
    assert_eq!(decimal(1234567890), "1234567890");
    assert_eq!(decimal(u64::MAX), "18446744073709551615");
    assert_eq!(pad("ok", 6), "    ok");
    assert_eq!(pad("FAILED", 6), "FAILED");
    assert_eq!(pad("toolongvalue", 6), "toolongvalue");
    assert_eq!(pad("", 3), "   ");
}

#[test]
fn zero_summary_renders_ok_everywhere() {
    let v = zero_summary().print();
    assert_eq!(v.title.as_deref(), Some("Statistics"));
    assert_eq!(
        v.message,
        "advisories     ok: 0 errors, 0 warnings, 0 notes\n      bans     ok: 0 errors, 0 warnings, 0 notes\n  licenses     ok: 0 errors, 0 warnings, 0 notes\n   sources     ok: 0 errors, 0 warnings, 0 notes"
    );
    assert_eq!(v.level, PrintLevel::Notice);
}

#[test]
fn summary_counts_and_failed_status() {
    let s = Summary {
        advisories: stats(2, 1, 3, 4),
        bans: stats(0, 5, 0, 0),
        licenses: stats(0, 0, u32::MAX, u32::MAX),
        sources: stats(10, 0, 0, 0),
    };
    let v = s.print();
    assert_eq!(
        v.message,
        "advisories FAILED: 2 errors, 1 warnings, 7 notes\n      bans     ok: 0 errors, 5 warnings, 0 notes\n  licenses     ok: 0 errors, 0 warnings, 8589934590 notes\n   sources FAILED: 10 errors, 0 warnings, 0 notes"
    );
}

#[test]
fn notice_reported_only_at_notice_threshold() {
    for (report, expected) in
        [(PrintLevel::Error, false), (PrintLevel::Warning, false), (PrintLevel::Notice, true)]
    {
        let mut agg = Aggregator::new();
        let v = zero_summary().print();
        assert_eq!(agg.observe(&v, report).is_some(), expected);
        assert_eq!(agg.found_level, Some(PrintLevel::Notice));
    }
}

#[test]
fn rendering_twice_is_identical() {
    let mut d = diagnostic(Severity::Warning);
    d.graphs = vec![graph("a", "1.0.0", DepKind::Normal, false, vec![])];
    let e = LogEntry::Diagnostic(d);
    let a = e.print();
    let b = e.print();
    assert_eq!(a.title, b.title);
    assert_eq!(a.message, b.message);
    assert_eq!(a.level, b.level);
}

#[test]
fn chain_renders_indented_pre_order() {
    let root = graph("root", "0.1.0", DepKind::Normal, true, vec![]);
    let mid = graph("mid", "0.2.0", DepKind::Build, false, vec![root]);
    let leaf = graph("leaf", "1.2.3", DepKind::Dev, false, vec![mid]);
    assert_eq!(leaf.print(), "(dev) leaf 1.2.3\n  (build) mid 0.2.0\n    root 0.1.0 (*)");
}

#[test]
fn graph_with_siblings() {
    let a = graph("a", "1", DepKind::Normal, false, vec![]);
    let b = graph("b", "2", DepKind::Normal, false, vec![graph("c", "3", DepKind::Dev, true, vec![])]);
    let top = graph("top", "0", DepKind::Normal, false, vec![a, b]);
    assert_eq!(top.print(), "top 0\n  a 1\n  b 2\n    (dev) c 3 (*)");
    assert_eq!(DepKind::default(), DepKind::Normal);
}

#[test]
fn diagnostic_title_body_and_level() {
    let mut d = diagnostic(Severity::Error);
    d.graphs = vec![graph("foo", "1.0.0", DepKind::Normal, false, vec![])];
    let v = d.print();
    assert_eq!(v.title.as_deref(), Some("error[B004]: crate is banned"));
    assert_eq!(v.message, "banned\n\nfoo = \"1\"\n\nDependency graph:\nfoo 1.0.0\n");
    assert_eq!(v.level, PrintLevel::Error);
    assert_eq!(diagnostic(Severity::Warning).print().level, PrintLevel::Warning);
    assert_eq!(diagnostic(Severity::Note).print().level, PrintLevel::Notice);
    let h = diagnostic(Severity::Help).print();
    assert_eq!(h.level, PrintLevel::Notice);
    assert_eq!(h.title.as_deref(), Some("help[B004]: crate is banned"));
}

#[test]
fn diagnostic_with_advisory() {
    let mut d = diagnostic(Severity::Error);
    d.labels = vec![];
    d.code = Code("A001".to_string());
    d.advisory = Some(Advisory {
        id: "RUSTSEC-0000-0001".to_string(),
        package: "foo".to_string(),
        title: "Bad".to_string(),
        description: "Very bad".to_string(),
        date: "2024-01-01".to_string(),
        aliases: vec![],
        related: vec![],
        collection: None,
        categories: vec![],
        keywords: vec![],
        cvss: None,
        informational: None,
        url: None,
        references: vec![],
        withdrawn: None,
    });
    let v = d.print();
    assert_eq!(v.message, "\nAdvisory:\n\nID: RUSTSEC-0000-0001\nIssue: <none>\n\nBad\n\nVery bad");
    if let Some(a) = d.advisory.as_mut() {
        a.url = Some("https://example.org".to_string());
    }
    assert_eq!(
        d.print().message,
        "\nAdvisory:\n\nID: RUSTSEC-0000-0001\nIssue: https://example.org\n\nBad\n\nVery bad"
    );
    assert_eq!(d.category(), Some(Category::Advisories));
}

#[test]
fn code_categories() {
    assert_eq!(Code("a1".to_string()).category(), Some(Category::Advisories));
    assert_eq!(Code("B1".to_string()).category(), Some(Category::Bans));
    assert_eq!(Code("l1".to_string()).category(), Some(Category::Licenses));
    assert_eq!(Code("S1".to_string()).category(), Some(Category::Sources));
    assert_eq!(Code("x1".to_string()).category(), None);
    assert_eq!(Code(String::new()).category(), None);
}

#[test]
fn log_line_is_a_notice() {
    let v = log_entry().print();
    assert_eq!(v.title, None);
    assert_eq!(v.message, "2024-01-01 [ INFO] hi");
    assert_eq!(v.level, PrintLevel::Notice);
    let e = Log { level: Level::Error, ..log_entry() }.print();
    assert_eq!(e.message, "2024-01-01 [ERROR] hi");
    assert_eq!(e.level, PrintLevel::Notice);
}

#[test]
fn annotation_lines_are_encoded() {
    assert_eq!(notice(None, "plain"), "::notice title=::plain");
    assert_eq!(warning(Some("a:b,c"), "x:y,z"), "::warning title=a%3Ab%2Cc::x:y,z");
    assert_eq!(error(Some("t"), "100%\r\nok"), "::error title=t::100%25%0D%0Aok");
}

#[test]
fn aggregation_scenario() {
    let entries = vec![
        LogEntry::Diagnostic(diagnostic(Severity::Error)),
        LogEntry::Diagnostic(diagnostic(Severity::Warning)),
        LogEntry::Log(log_entry()),
    ];
    let mut agg = Aggregator::new();
    let mut lines = vec![];
    for e in &entries {
        if let Some(line) = agg.observe(&e.print(), PrintLevel::Warning) {
            lines.push(line);
        }
    }
    assert_eq!(lines.len(), 2);
    assert!(lines[0].starts_with("::error title=error[B004]%3A crate is banned::"));
    assert!(lines[1].starts_with("::warning title=warning[B004]%3A crate is banned::"));
    match agg.finish(PrintLevel::Error) {
        Err(e) => assert_eq!(e.message(), "failed due to finding one or more errors or worse"),
        Ok(()) => panic!("expected a failure"),
    }
}

#[test]
fn warnings_pass_an_error_threshold() {
    let mut agg = Aggregator::new();
    let v = PrintValues { title: None, message: "m".to_string(), level: PrintLevel::Warning };
    assert_eq!(agg.observe(&v, PrintLevel::Error), None);
    assert!(agg.finish(PrintLevel::Error).is_ok());
    assert!(agg.finish(PrintLevel::Warning).is_err());
    assert!(agg.finish(PrintLevel::Notice).is_err());
}

#[test]
fn empty_stream_passes() {
    let agg = Aggregator::new();
    for l in [PrintLevel::Error, PrintLevel::Warning, PrintLevel::Notice] {
        assert!(agg.finish(l).is_ok());
    }
}

#[test]
fn abnormal_exit_aborts() {
    match check_status(2, "boom".to_string()) {
        Err(e) => {
            assert!(matches!(e, RunError::Abnormal { status: 2, .. }));
            assert_eq!(e.message(), "failed running cargo-deny, exited with status code 2\n\nboom");
        }
        Ok(()) => panic!("expected an abnormal exit"),
    }
    assert!(check_status(0, String::new()).is_ok());
    assert!(check_status(1, "findings".to_string()).is_ok());
    assert!(check_status(101, String::new()).is_err());
}

#[test]
fn audit_tool_arguments() {
    let opt = CargoDenyOpt {
        manifest_path: Some("a/Cargo.toml".to_string()),
        checks: vec![Check::Bans, Check::Sources],
    };
    assert_eq!(
        cargo_deny_args(&opt),
        vec![
            "--workspace", "--all-features", "--format", "json", "--log-level", "trace",
            "--manifest-path", "a/Cargo.toml", "check", "bans", "sources"
        ]
    );
    let all = CargoDenyOpt { manifest_path: None, checks: vec![] };
    assert_eq!(
        cargo_deny_args(&all),
        vec!["--workspace", "--all-features", "--format", "json", "--log-level", "trace", "check"]
    );
}

#[test]
fn settings_description() {
    let opt = Opt {
        cargo_deny: CargoDenyOpt {
            manifest_path: None,
            checks: vec![Check::Advisories, Check::Licenses],
        },
        report_level: PrintLevel::Warning,
        fail_level: PrintLevel::Error,
    };
    assert_eq!(
        opt_info(&opt),
        "Will report warnings or worse\nWill fail on errors or worse\nChecks to perform: advisories, licenses"
    );
}

#[test]
fn command_line_from_encoded_parts() {
    assert_eq!(
        command_line(PrintLevel::Warning, "a%3Ab", "m%0A"),
        "::warning title=a%3Ab::m%0A"
    );
    assert_eq!(command_line(PrintLevel::Error, "", ""), "::error title=::");
}
