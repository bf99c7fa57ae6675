use vstd::prelude::*;

use crate::config::{EmitMode, EmitterConfig};
use crate::error::EmitterError;
use crate::report::{FileName, FormatReport, FormatResult};
use crate::resolve::{
    opt_view, original_resolves_to, reads_from_disk, select_original_text, snippet_used, OriginalText,
};

verus! {

/// What a strategy is handed for one file: where it came from, its text
/// before formatting and its text after.
pub struct FormattedFile<'a> {
    pub filename: &'a FileName,
    pub original_text: &'a str,
    pub formatted_text: &'a str,
}

/// What a strategy reports for one file.
#[derive(Clone, Copy, Debug, Default)]
pub struct EmitterResult {
    pub has_diff: bool,
}

/// An output strategy. One instance serves a whole run: its header comes
/// first, then each file once, in report order, then its footer. What each
/// call does to the sink is named by `header_step`, `file_step` and
/// `footer_step`, so that a run's effect can be stated as their composition.
pub trait Emitter<W> {
    /// Whether this strategy counts `original` and `formatted` as different,
    /// by its own comparison rules: by default, whether they are unequal. A
    /// strategy may count fewer pairs as different, never equal ones.
    open spec fn differs(original: Seq<char>, formatted: Seq<char>) -> bool {
        original != formatted
    }

    /// What emitting the header does to the sink; each strategy says.
    open spec fn header_step(out: W) -> W {
        arbitrary()
    }

    /// What emitting one file, by its name and two texts, does to the sink;
    /// each strategy says.
    open spec fn file_step(
        out: W,
        filename: FileName,
        original: Seq<char>,
        formatted: Seq<char>,
    ) -> W {
        arbitrary()
    }

    /// What emitting the footer does to the sink; each strategy says.
    open spec fn footer_step(out: W) -> W {
        arbitrary()
    }

    /// Emits one file and reports whether its two texts differ.
    fn emit_formatted_file(&mut self, output: &mut W, formatted_file: FormattedFile<'_>) -> (r:
        Result<EmitterResult, EmitterError>)
        ensures
            r matches Ok(res) ==> res.has_diff == Self::differs(
                formatted_file.original_text@,
                formatted_file.formatted_text@,
            ),
            formatted_file.original_text@ == formatted_file.formatted_text@ ==> (r matches Ok(
                res,
            ) ==> !res.has_diff),
            r is Ok ==> *final(output) == Self::file_step(
                *old(output),
                *formatted_file.filename,
                formatted_file.original_text@,
                formatted_file.formatted_text@,
            ),
    ;

    /// Emitted once before any file.
    fn emit_header(&self, output: &mut W) -> (r: Result<(), EmitterError>)
        ensures
            r is Ok ==> *final(output) == Self::header_step(*old(output)),
    ;

    /// Emitted once after the last file, also when there were none.
    fn emit_footer(&self, output: &mut W) -> (r: Result<(), EmitterError>)
        ensures
            r is Ok ==> *final(output) == Self::footer_step(*old(output)),
    ;
}

/// Resolves the original text of one file and hands both texts to the
/// strategy. `source_map_snippet` is what the parse session kept for the file,
/// if anything; `read_file` reads a file as it now is on disk.
pub fn write_file<W, E: Emitter<W>, F: Fn(&str) -> Result<String, EmitterError>>(
    source_map_snippet: Option<&str>,
    filename: &FileName,
    formatted_result: &FormatResult,
    out: &mut W,
    emitter: &mut E,
    read_file: &F,
) -> (r: Result<EmitterResult, EmitterError>)
    requires
        forall|p: &str| #[trigger] read_file.requires((p,)),
    ensures
        r matches Ok(res) ==> exists|original: Seq<char>|
            original_resolves_to(
                *read_file,
                formatted_result.spec_newline_style(),
                *filename,
                formatted_result.spec_original_text(),
                opt_view(source_map_snippet),
                original,
            ) && res.has_diff == #[trigger] E::differs(
                original,
                formatted_result.spec_formatted_text(),
            ) && (original == formatted_result.spec_formatted_text() ==> !res.has_diff)
                && *final(out) == E::file_step(
                *old(out),
                *filename,
                original,
                formatted_result.spec_formatted_text(),
            ),
        r matches Err(e) ==> (*final(out) == *old(out) && exists|p: &str|
            #[trigger] read_file.ensures((p,), Err::<String, EmitterError>(e)) && p@
                == filename->Real_0@) || (*final(out) == *old(out) && e is InvalidInputForFiles)
            || exists|original: Seq<char>|
            #[trigger] original_resolves_to(
                *read_file,
                formatted_result.spec_newline_style(),
                *filename,
                formatted_result.spec_original_text(),
                opt_view(source_map_snippet),
                original,
            ),
        snippet_used(
            formatted_result.spec_newline_style(),
            *filename,
            formatted_result.spec_original_text(),
            opt_view(source_map_snippet),
        ) == Some(formatted_result.spec_formatted_text()) ==> (r matches Ok(res) ==> !res.has_diff),
        snippet_used(
            formatted_result.spec_newline_style(),
            *filename,
            formatted_result.spec_original_text(),
            opt_view(source_map_snippet),
        ) is None && !reads_from_disk(
            formatted_result.spec_newline_style(),
            *filename,
            formatted_result.spec_original_text(),
            opt_view(source_map_snippet),
        ) ==> r matches Err(EmitterError::InvalidInputForFiles),
{
    let source = select_original_text(
        formatted_result.newline_style(),
        filename,
        formatted_result.original_text(),
        source_map_snippet,
    );
    let original_text = match source {
        Ok(OriginalText::Snippet(text)) => text,
        Ok(OriginalText::OnDisk(path)) => match read_file(path.as_str()) {
            Ok(text) => text,
            Err(e) => {
                return Err(e);
            },
        },
        Err(e) => {
            return Err(e);
        },
    };
    assert(original_resolves_to(
        *read_file,
        formatted_result.spec_newline_style(),
        *filename,
        formatted_result.spec_original_text(),
        opt_view(source_map_snippet),
        original_text@,
    ));
    let formatted_file = FormattedFile {
        filename,
        original_text: original_text.as_str(),
        formatted_text: formatted_result.formatted_text(),
    };
    emitter.emit_formatted_file(out, formatted_file)
}

/// Which output strategy a run uses, seeded with the run's settings.
#[derive(Clone, Copy, Debug, PartialEq, Eq, Structural)]
pub enum EmitterKind {
    Files(EmitterConfig),
    Stdout(EmitterConfig),
    Json(EmitterConfig),
    ModifiedLines(EmitterConfig),
    Checkstyle(EmitterConfig),
    Diff(EmitterConfig),
}

pub open spec fn emitter_kind_of(config: EmitterConfig) -> EmitterKind {
    match config.emit_mode {
        EmitMode::Files => EmitterKind::Files(config),
        EmitMode::Stdout => EmitterKind::Stdout(config),
        EmitMode::Json => EmitterKind::Json(config),
        EmitMode::ModifiedLines => EmitterKind::ModifiedLines(config),
        EmitMode::Checkstyle => EmitterKind::Checkstyle(config),
        EmitMode::Diff => EmitterKind::Diff(config),
    }
}

/// The strategy that a configuration selects: one per mode, each seeded with
/// the whole configuration.
pub fn create_emitter(emitter_config: EmitterConfig) -> (r: EmitterKind)
    ensures
        r == emitter_kind_of(emitter_config),
{
    match emitter_config.emit_mode {
        EmitMode::Files => EmitterKind::Files(emitter_config),
        EmitMode::Stdout => EmitterKind::Stdout(emitter_config),
        EmitMode::Json => EmitterKind::Json(emitter_config),
        EmitMode::ModifiedLines => EmitterKind::ModifiedLines(emitter_config),
        EmitMode::Checkstyle => EmitterKind::Checkstyle(emitter_config),
        EmitMode::Diff => EmitterKind::Diff(emitter_config),
    }
}

/// The snippet that serves as original text for a report entry in a run
/// without a parse session.
pub open spec fn entry_snippet(entry: (FileName, FormatResult)) -> Option<Seq<char>> {
    snippet_used(entry.1.spec_newline_style(), entry.0, entry.1.spec_original_text(), None)
}

/// The entry's kept snippet serves as its original text and equals the
/// formatted text.
pub open spec fn entry_unchanged(entry: (FileName, FormatResult)) -> bool {
    entry_snippet(entry) == Some(entry.1.spec_formatted_text())
}

/// `original` is a text that resolution may hand on for a report entry in a
/// run without a parse session.
pub open spec fn entry_resolves_to<F: Fn(&str) -> Result<String, EmitterError>>(
    read_file: F,
    entry: (FileName, FormatResult),
    original: Seq<char>,
) -> bool {
    original_resolves_to(
        read_file,
        entry.1.spec_newline_style(),
        entry.0,
        entry.1.spec_original_text(),
        None,
        original,
    )
}

/// `originals` holds, entry by entry, a text that resolution may hand on.
pub open spec fn resolves_all<F: Fn(&str) -> Result<String, EmitterError>>(
    read_file: F,
    entries: Seq<(FileName, FormatResult)>,
    originals: Seq<Seq<char>>,
) -> bool {
    originals.len() == entries.len() && forall|i: int|
        0 <= i < entries.len() ==> entry_resolves_to(read_file, entries[i], #[trigger] originals[i])
}

/// The strategy counts some entry's original as different from its
/// formatted text.
pub open spec fn some_differs<W, E: Emitter<W>>(
    entries: Seq<(FileName, FormatResult)>,
    originals: Seq<Seq<char>>,
) -> bool {
    exists|i: int|
        0 <= i < entries.len() && #[trigger] E::differs(
            originals[i],
            entries[i].1.spec_formatted_text(),
        )
}

/// The sink after the strategy has emitted the entries, in order, each
/// with its resolved original, starting from `out`.
pub open spec fn files_step<W, E: Emitter<W>>(
    out: W,
    entries: Seq<(FileName, FormatResult)>,
    originals: Seq<Seq<char>>,
) -> W
    decreases entries.len(),
{
    if entries.len() == 0 || originals.len() == 0 {
        out
    } else {
        E::file_step(
            files_step::<W, E>(out, entries.drop_last(), originals.drop_last()),
            entries.last().0,
            originals.last(),
            entries.last().1.spec_formatted_text(),
        )
    }
}

/// Every entry's resolved original equals its formatted text.
pub open spec fn all_unchanged(
    entries: Seq<(FileName, FormatResult)>,
    originals: Seq<Seq<char>>,
) -> bool {
    forall|i: int|
        0 <= i < entries.len() ==> #[trigger] originals[i] == entries[i].1.spec_formatted_text()
}

/// No snippet serves the entry and it cannot be read from disk (standard
/// input without a kept snippet).
pub open spec fn entry_unresolvable(entry: (FileName, FormatResult)) -> bool {
    entry_snippet(entry) is None && !reads_from_disk(
        entry.1.spec_newline_style(),
        entry.0,
        entry.1.spec_original_text(),
        None,
    )
}

/// Emits a whole report: builds the strategy once, emits its header, each
/// file in report order and its footer, and returns whether any file
/// differed. The first failure ends the run. On success the flag is the OR,
/// over the entries, of whether the strategy counts the original text that
/// was resolved for the entry as different from its formatted text. A
/// report of unchanged files (none at all included) gives `false`; an input
/// that has neither a kept snippet nor a path gives an error.
pub fn emit_format_report<
    W,
    E: Emitter<W>,
    M: FnOnce(EmitterKind) -> E,
    F: Fn(&str) -> Result<String, EmitterError>,
>(
    format_report: FormatReport,
    out: &mut W,
    config: EmitterConfig,
    make_emitter: M,
    read_file: F,
) -> (r: Result<bool, EmitterError>)
    requires
        make_emitter.requires((emitter_kind_of(config),)),
        forall|p: &str| #[trigger] read_file.requires((p,)),
    ensures
        r matches Ok(has_diff) ==> exists|originals: Seq<Seq<char>>|
            #[trigger] resolves_all(read_file, format_report@, originals) && has_diff
                == some_differs::<W, E>(format_report@, originals) && (all_unchanged(
                format_report@,
                originals,
            ) ==> !has_diff) && *final(out)
                == E::footer_step(
                files_step::<W, E>(E::header_step(*old(out)), format_report@, originals),
            ),
        format_report@.len() == 0 ==> (r matches Ok(has_diff) ==> !has_diff),
        format_report@.len() == 0 ==> (r is Ok ==> *final(out) == E::footer_step(
            E::header_step(*old(out)),
        )),
        (forall|i: int|
            0 <= i < format_report@.len() ==> entry_unchanged(#[trigger] format_report@[i])) ==> (
        r matches Ok(has_diff) ==> !has_diff),
        r matches Ok(true) ==> exists|i: int|
            0 <= i < format_report@.len() && !entry_unchanged(#[trigger] format_report@[i]),
        (exists|i: int|
            0 <= i < format_report@.len() && entry_unresolvable(#[trigger] format_report@[i]))
            ==> r is Err,
{
    let mut emitter = make_emitter(create_emitter(config));
    let mut has_diff = false;
    let ghost start = *out;

    match emitter.emit_header(out) {
        Ok(()) => {},
        Err(e) => {
            return Err(e);
        },
    }
    let n = format_report.len();
    let mut i: usize = 0;
    let ghost mut originals: Seq<Seq<char>> = Seq::empty();
    while i < n
        invariant
            n == format_report@.len(),
            0 <= i <= n,
            originals.len() == i,
            *out == files_step::<W, E>(
                E::header_step(start),
                format_report@.take(i as int),
                originals,
            ),
            forall|j: int|
                0 <= j < i ==> entry_resolves_to(
                    read_file,
                    format_report@[j],
                    #[trigger] originals[j],
                ),
            has_diff <==> exists|j: int|
                0 <= j < i && #[trigger] E::differs(
                    originals[j],
                    format_report@[j].1.spec_formatted_text(),
                ),
            forall|p: &str| #[trigger] read_file.requires((p,)),
            has_diff ==> exists|j: int|
                0 <= j < i && #[trigger] originals[j] != format_report@[j].1.spec_formatted_text(),
            has_diff ==> exists|j: int| 0 <= j < i && !entry_unchanged(#[trigger] format_report@[j]),
            forall|j: int| 0 <= j < i ==> !entry_unresolvable(#[trigger] format_report@[j]),
        decreases n - i,
    {
        let (filename, format_result) = format_report.get(i);
        let ghost before = *out;
        match write_file(None, filename, format_result, out, &mut emitter, &read_file) {
            Ok(result) => {
                if result.has_diff {
                    assert(!entry_unchanged(format_report@[i as int]));
                }
                proof {
                    let entry = format_report@[i as int];
                    let o = choose|o: Seq<char>|
                        original_resolves_to(
                            read_file,
                            entry.1.spec_newline_style(),
                            entry.0,
                            entry.1.spec_original_text(),
                            None,
                            o,
                        ) && result.has_diff == #[trigger] E::differs(
                            o,
                            entry.1.spec_formatted_text(),
                        ) && (o == entry.1.spec_formatted_text() ==> !result.has_diff) && *out
                            == E::file_step(before, entry.0, o, entry.1.spec_formatted_text());
                    let prev = originals;
                    originals = originals.push(o);
                    assert(forall|j: int| 0 <= j < i ==> originals[j] == prev[j]);
                    assert(originals[i as int] == o);
                    assert(originals.drop_last() =~= prev);
                    assert(format_report@.take(i + 1).drop_last() =~= format_report@.take(
                        i as int,
                    ));
                    assert(format_report@.take(i + 1).last() == entry);
                }
                has_diff = has_diff || result.has_diff;
                assert(has_diff <==> exists|j: int|
                    0 <= j < i + 1 && #[trigger] E::differs(
                        originals[j],
                        format_report@[j].1.spec_formatted_text(),
                    ));
            },
            Err(e) => {
                return Err(e);
            },
        }
        i = i + 1;
    }
    assert(format_report@.take(n as int) =~= format_report@);
    assert(resolves_all(read_file, format_report@, originals));
    assert(has_diff == some_differs::<W, E>(format_report@, originals));
    assert(all_unchanged(format_report@, originals) ==> !has_diff);
    match emitter.emit_footer(out) {
        Ok(()) => {},
        Err(e) => {
            return Err(e);
        },
    }
    Ok(has_diff)
}

} // verus!
