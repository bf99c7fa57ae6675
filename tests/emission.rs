use std::str::FromStr;

use rustfmt_emitter::{
    create_emitter, emit_format_report, ensure_real_path, select_original_text, write_file, Color,
    EmitMode, Emitter, EmitterConfig, EmitterError, EmitterKind, EmitterResult, FileName,
    FormatReport, FormatResult, FormattedFile, NewlineStyle, OriginalText, Verbosity,
};

/// Records every call it gets in the sink, in order.
struct Recorder;

impl Emitter<Vec<String>> for Recorder {
    fn emit_formatted_file(
        &mut self,
        output: &mut Vec<String>,
        formatted_file: FormattedFile<'_>,
    ) -> Result<EmitterResult, EmitterError> {
        let name = match formatted_file.filename {
            FileName::Real(p) => p.clone(),
            FileName::Stdin => "<stdin>".to_string(),
        };
        output.push(format!("file {} [{}]", name, formatted_file.original_text));
        Ok(EmitterResult {
            has_diff: formatted_file.original_text != formatted_file.formatted_text,
        })
    }

    fn emit_header(&self, output: &mut Vec<String>) -> Result<(), EmitterError> {
        output.push("header".to_string());
        Ok(())
    }

    fn emit_footer(&self, output: &mut Vec<String>) -> Result<(), EmitterError> {
        output.push("footer".to_string());
        Ok(())
    }
}

/// Fails on its header.
struct BrokenHeader;

impl Emitter<Vec<String>> for BrokenHeader {
    fn emit_formatted_file(
        &mut self,
        output: &mut Vec<String>,
        formatted_file: FormattedFile<'_>,
    ) -> Result<EmitterResult, EmitterError> {
        output.push("file".to_string());
        Ok(EmitterResult {
            has_diff: formatted_file.original_text != formatted_file.formatted_text,
        })
    }

    fn emit_header(&self, _output: &mut Vec<String>) -> Result<(), EmitterError> {
        Err(EmitterError::InvalidInputForFiles)
    }

    fn emit_footer(&self, output: &mut Vec<String>) -> Result<(), EmitterError> {
        output.push("footer".to_string());
        Ok(())
    }
}

fn on_disk(p: &str) -> FileName {
    FileName::Real(p.to_string())
}

fn kept(formatted: &str, original: &str) -> FormatResult {
    FormatResult::new(formatted.to_string(), Some(original.to_string()), NewlineStyle::Auto)
}

fn no_disk(_p: &str) -> Result<String, EmitterError> {
    panic!("the file system must not be read")
}

fn run(report: FormatReport) -> (Result<bool, EmitterError>, Vec<String>) {
    let mut out = Vec::new();
    let r = emit_format_report(report, &mut out, EmitterConfig::default(), |_| Recorder, no_disk);
    (r, out)
}

#[test]
fn empty_report_has_no_diff_and_still_gets_header_and_footer() {
    let (r, out) = run(FormatReport::new());
    assert!(matches!(r, Ok(false)));
    assert_eq!(out, vec!["header".to_string(), "footer".to_string()]);
}

#[test]
fn unchanged_files_give_no_diff() {
    let mut report = FormatReport::new();
    report.add(on_disk("a.rs"), kept("fn a() {}\n", "fn a() {}\n"));
    report.add(on_disk("b.rs"), kept("fn b() {}\n", "fn b() {}\n"));
    let (r, _) = run(report);
    assert!(matches!(r, Ok(false)));
}

#[test]
fn one_changed_file_sets_the_run_flag() {
    let mut report = FormatReport::new();
    report.add(on_disk("a.rs"), kept("fn a() {}\n", "fn a() {}\n"));
    report.add(on_disk("b.rs"), kept("fn b() {}\n", "fn  b(){}\n"));
    report.add(on_disk("c.rs"), kept("fn c() {}\n", "fn c() {}\n"));
    let (r, out) = run(report);
    assert!(matches!(r, Ok(true)));
    assert_eq!(out.len(), 5);
}

#[test]
fn equal_texts_give_no_diff_per_file() {
    let mut out = Vec::new();
    let result = kept("x\n", "x\n");
    let r = write_file(None, &on_disk("x.rs"), &result, &mut out, &mut Recorder, &no_disk);
    assert!(matches!(r, Ok(EmitterResult { has_diff: false })));
}

#[test]
fn newline_override_prefers_disk_over_cache() {
    let filename = on_disk("crlf.rs");
    let r = select_original_text(NewlineStyle::Windows, &filename, Some("a\nb\n"), Some("a\nb\n"));
    match r {
        Ok(OriginalText::OnDisk(p)) => assert_eq!(p, "crlf.rs"),
        other => panic!("unexpected {:?}", other),
    }

    let mut report = FormatReport::new();
    report.add(
        filename,
        FormatResult::new("a\r\nb\r\n".to_string(), Some("a\nb\n".to_string()), NewlineStyle::Windows),
    );
    let mut out = Vec::new();
    let disk = |p: &str| -> Result<String, EmitterError> {
        assert_eq!(p, "crlf.rs");
        Ok("a\nb\r\n".to_string())
    };
    let r = emit_format_report(report, &mut out, EmitterConfig::default(), |_| Recorder, disk);
    assert!(matches!(r, Ok(true)));
    assert_eq!(out[1], "file crlf.rs [a\nb\r\n]");
}

#[test]
fn stdin_with_newline_override_uses_cached_snippet() {
    let r = select_original_text(NewlineStyle::Unix, &FileName::Stdin, Some("kept"), None);
    match r {
        Ok(OriginalText::Snippet(s)) => assert_eq!(s, "kept"),
        other => panic!("unexpected {:?}", other),
    }

    let mut report = FormatReport::new();
    report.add(
        FileName::Stdin,
        FormatResult::new("kept".to_string(), Some("kept".to_string()), NewlineStyle::Unix),
    );
    let (r, out) = run(report);
    assert!(matches!(r, Ok(false)));
    assert_eq!(out[1], "file <stdin> [kept]");
}

#[test]
fn stdin_without_snippet_is_an_invalid_target() {
    let r = select_original_text(NewlineStyle::Auto, &FileName::Stdin, None, None);
    assert!(matches!(r, Err(EmitterError::InvalidInputForFiles)));

    let mut report = FormatReport::new();
    report.add(on_disk("a.rs"), kept("a", "a"));
    report.add(FileName::Stdin, FormatResult::new("b".to_string(), None, NewlineStyle::Auto));
    report.add(on_disk("c.rs"), kept("c", "c"));
    let (r, out) = run(report);
    assert!(matches!(r, Err(EmitterError::InvalidInputForFiles)));
    assert_eq!(out, vec!["header".to_string(), "file a.rs [a]".to_string()]);
}

#[test]
fn snippet_sources_in_order_then_disk() {
    let f = on_disk("m.rs");
    let r = select_original_text(NewlineStyle::Auto, &f, Some("own"), Some("map"));
    assert!(matches!(r, Ok(OriginalText::Snippet(ref s)) if s == "own"));
    let r = select_original_text(NewlineStyle::Auto, &f, None, Some("map"));
    assert!(matches!(r, Ok(OriginalText::Snippet(ref s)) if s == "map"));
    let r = select_original_text(NewlineStyle::Auto, &f, None, None);
    assert!(matches!(r, Ok(OriginalText::OnDisk(ref p)) if p == "m.rs"));
    let r = select_original_text(NewlineStyle::Native, &FileName::Stdin, None, Some("map"));
    assert!(matches!(r, Ok(OriginalText::Snippet(ref s)) if s == "map"));
}

#[test]
fn source_map_snippet_serves_write_file() {
    let mut out = Vec::new();
    let result = FormatResult::new("new".to_string(), None, NewlineStyle::Auto);
    let r = write_file(Some("old"), &on_disk("s.rs"), &result, &mut out, &mut Recorder, &no_disk);
    assert!(matches!(r, Ok(EmitterResult { has_diff: true })));
    assert_eq!(out, vec!["file s.rs [old]".to_string()]);
}

#[test]
fn read_failure_ends_the_run() {
    let mut report = FormatReport::new();
    report.add(on_disk("gone.rs"), FormatResult::new("x".to_string(), None, NewlineStyle::Auto));
    report.add(on_disk("b.rs"), kept("b", "b"));
    let mut out = Vec::new();
    let failing = |_p: &str| -> Result<String, EmitterError> {
        Err(EmitterError::IoError(std::io::Error::new(std::io::ErrorKind::NotFound, "gone")))
    };
    let r = emit_format_report(report, &mut out, EmitterConfig::default(), |_| Recorder, failing);
    assert!(matches!(r, Err(EmitterError::IoError(_))));
    assert_eq!(out, vec!["header".to_string()]);
}

#[test]
fn header_failure_ends_the_run() {
    let mut report = FormatReport::new();
    report.add(on_disk("a.rs"), kept("a", "b"));
    let mut out = Vec::new();
    let r = emit_format_report(report, &mut out, EmitterConfig::default(), |_| BrokenHeader, no_disk);
    assert!(matches!(r, Err(EmitterError::InvalidInputForFiles)));
    assert!(out.is_empty());
}

#[test]
fn mode_tokens_parse() {
    assert!(matches!(EmitMode::parse("files"), Ok(EmitMode::Files)));
    assert!(matches!(EmitMode::parse("stdout"), Ok(EmitMode::Stdout)));
    assert!(matches!(EmitMode::parse("checkstyle"), Ok(EmitMode::Checkstyle)));
    assert!(matches!(EmitMode::parse("json"), Ok(EmitMode::Json)));
    assert!(matches!(EmitMode::from_str("files"), Ok(EmitMode::Files)));
    assert!(matches!(EmitMode::from_str("stdout"), Ok(EmitMode::Stdout)));
    assert!(matches!(EmitMode::from_str("checkstyle"), Ok(EmitMode::Checkstyle)));
    assert!(matches!(EmitMode::from_str("json"), Ok(EmitMode::Json)));
}

#[test]
fn unknown_mode_token_is_carried() {
    match EmitMode::parse("bogus") {
        Err(EmitterError::UnknownMode(t)) => assert_eq!(t, "bogus"),
        other => panic!("unexpected {:?}", other),
    }
    assert!(matches!(EmitMode::from_str("Files"), Err(EmitterError::UnknownMode(ref t)) if t == "Files"));
    assert!(matches!(EmitMode::parse("diff"), Err(EmitterError::UnknownMode(_))));
    assert!(matches!(EmitMode::parse(""), Err(EmitterError::UnknownMode(_))));
    assert!(matches!(EmitMode::from_str("bogus"), Err(EmitterError::UnknownMode(ref t)) if t == "bogus"));
    assert!(matches!(EmitMode::from_str("JSON"), Err(EmitterError::UnknownMode(_))));
    assert!(matches!(EmitMode::from_str("modified_lines"), Err(EmitterError::UnknownMode(_))));
}

#[test]
fn disk_target_refuses_stdin() {
    assert!(matches!(ensure_real_path(&FileName::Stdin), Err(EmitterError::InvalidInputForFiles)));
    assert!(matches!(ensure_real_path(&on_disk("a.rs")), Ok(p) if p == "a.rs"));
}

#[test]
fn report_order_is_kept() {
    let mut report = FormatReport::new();
    report.add(on_disk("a"), kept("1", "1"));
    report.add(on_disk("b"), kept("2", "2"));
    report.add(on_disk("c"), kept("3", "3"));
    assert_eq!(report.len(), 3);
    assert!(!report.is_empty());
    let (r, out) = run(report);
    assert!(matches!(r, Ok(false)));
    assert_eq!(
        out,
        vec![
            "header".to_string(),
            "file a [1]".to_string(),
            "file b [2]".to_string(),
            "file c [3]".to_string(),
            "footer".to_string(),
        ]
    );
}

#[test]
fn colour_preference() {
    assert!(Color::Always.use_colored_tty());
    assert!(Color::Auto.use_colored_tty());
    assert!(!Color::Never.use_colored_tty());
}

#[test]
fn defaults() {
    assert_eq!(Verbosity::default(), Verbosity::Normal);
    let c = EmitterConfig::default();
    assert_eq!(c.emit_mode, EmitMode::Files);
    assert_eq!(c.color, Color::Auto);
    assert_eq!(c.verbosity, Verbosity::Normal);
    assert!(!c.print_filename);
}

#[test]
fn factory_maps_each_mode() {
    let base = EmitterConfig::default();
    let with = |m: EmitMode| EmitterConfig { emit_mode: m, ..base };
    assert_eq!(create_emitter(with(EmitMode::Files)), EmitterKind::Files(with(EmitMode::Files)));
    assert_eq!(create_emitter(with(EmitMode::Stdout)), EmitterKind::Stdout(with(EmitMode::Stdout)));
    assert_eq!(create_emitter(with(EmitMode::Json)), EmitterKind::Json(with(EmitMode::Json)));
    assert_eq!(
        create_emitter(with(EmitMode::ModifiedLines)),
        EmitterKind::ModifiedLines(with(EmitMode::ModifiedLines))
    );
    assert_eq!(
        create_emitter(with(EmitMode::Checkstyle)),
        EmitterKind::Checkstyle(with(EmitMode::Checkstyle))
    );
    assert_eq!(create_emitter(with(EmitMode::Diff)), EmitterKind::Diff(with(EmitMode::Diff)));
}

#[test]
fn factory_runs_once_with_the_configured_kind() {
    let mut calls = Vec::new();
    let config = EmitterConfig {
        emit_mode: EmitMode::Json,
        color: Color::Never,
        verbosity: Verbosity::Quiet,
        print_filename: true,
    };
    let mut report = FormatReport::new();
    report.add(on_disk("a"), kept("1", "1"));
    report.add(on_disk("b"), kept("2", "2"));
    let mut out = Vec::new();
    let r = emit_format_report(
        report,
        &mut out,
        config,
        |k| {
            calls.push(k);
            Recorder
        },
        no_disk,
    );
    assert!(matches!(r, Ok(false)));
    assert_eq!(calls, vec![EmitterKind::Json(config)]);
}

#[test]
fn format_result_accessors() {
    let r = FormatResult::new("f".to_string(), Some("o".to_string()), NewlineStyle::Unix);
    assert_eq!(r.formatted_text(), "f");
    assert_eq!(r.original_text(), Some("o"));
    assert_eq!(r.newline_style(), NewlineStyle::Unix);
    let mut report = FormatReport::new();
    report.add(FileName::Stdin, r);
    let (f, res) = report.get(0);
    assert!(matches!(f, FileName::Stdin));
    assert_eq!(res.formatted_text(), "f");
}
