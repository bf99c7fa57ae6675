use vstd::prelude::*;

use crate::error::EmitterError;
use crate::report::{FileName, NewlineStyle};

verus! {

/// The text of an optional snippet.
pub open spec fn opt_view(o: Option<&str>) -> Option<Seq<char>> {
    match o {
        Some(s) => Some(s@),
        None => None,
    }
}

/// A newline style other than `Auto` was asked for: the literal bytes on
/// disk are then the only faithful original, since kept snippets have their
/// line endings normalised.
pub open spec fn newline_override(style: NewlineStyle) -> bool {
    style != NewlineStyle::Auto
}

/// Whether the original text of a file is read from disk: when a newline
/// style is forced on a real file, or when no snippet was kept for it.
pub open spec fn reads_from_disk(
    style: NewlineStyle,
    filename: FileName,
    cached: Option<Seq<char>>,
    source_map: Option<Seq<char>>,
) -> bool {
    filename is Real && (newline_override(style) || (cached is None && source_map is None))
}

/// The kept snippet that serves as original text, if one does: the snippet
/// of the format outcome first, then the one of the source map.
pub open spec fn snippet_used(
    style: NewlineStyle,
    filename: FileName,
    cached: Option<Seq<char>>,
    source_map: Option<Seq<char>>,
) -> Option<Seq<char>> {
    if newline_override(style) && filename is Real {
        None
    } else if cached is Some {
        cached
    } else {
        source_map
    }
}

/// `original` is a text that resolution may hand on for the file: the kept
/// snippet where one serves, else the text that `read_file` gave for the
/// file's path.
pub open spec fn original_resolves_to<F: Fn(&str) -> Result<String, EmitterError>>(
    read_file: F,
    style: NewlineStyle,
    filename: FileName,
    cached: Option<Seq<char>>,
    source_map: Option<Seq<char>>,
    original: Seq<char>,
) -> bool {
    match snippet_used(style, filename, cached, source_map) {
        Some(t) => original == t,
        None => reads_from_disk(style, filename, cached, source_map) && exists|
            p: &str,
            d: String,
        |
            p@ == filename->Real_0@ && #[trigger] read_file.ensures(
                (p,),
                Ok::<String, EmitterError>(d),
            ) && d@ == original,
    }
}

/// Where the text of a file before formatting is to be had.
#[derive(Debug)]
pub enum OriginalText {
    /// A snippet kept while parsing.
    Snippet(String),
    /// The file at this path, as it now is on disk.
    OnDisk(String),
}

/// Picks the source of a file's original text: with a newline override on a
/// real file, the disk; else the outcome's own snippet; else the source map's;
/// else the disk. Standard input can only be served by a snippet: where
/// none was kept, `InvalidInputForFiles` is returned.
pub fn select_original_text(
    newline_style: NewlineStyle,
    filename: &FileName,
    cached_snippet: Option<&str>,
    source_map_snippet: Option<&str>,
) -> (r: Result<OriginalText, EmitterError>)
    ensures
        match snippet_used(
            newline_style,
            *filename,
            opt_view(cached_snippet),
            opt_view(source_map_snippet),
        ) {
            Some(t) => r matches Ok(OriginalText::Snippet(s)) && s@ == t,
            None => if reads_from_disk(
                newline_style,
                *filename,
                opt_view(cached_snippet),
                opt_view(source_map_snippet),
            ) {
                r matches Ok(OriginalText::OnDisk(p)) && p@ == filename->Real_0@
            } else {
                r matches Err(EmitterError::InvalidInputForFiles)
            },
        },
        newline_override(newline_style) && filename is Real ==> (r matches Ok(
            OriginalText::OnDisk(p),
        ) && p@ == filename->Real_0@),
        filename is Stdin && cached_snippet is Some ==> (r matches Ok(OriginalText::Snippet(s))
            && s@ == cached_snippet->0@),
{
    if newline_style != NewlineStyle::Auto {
        if let FileName::Real(path) = filename {
            return Ok(OriginalText::OnDisk(path.clone()));
        }
    }
    match cached_snippet {
        Some(snippet) => Ok(OriginalText::Snippet(snippet.to_owned())),
        None => match source_map_snippet {
            Some(snippet) => Ok(OriginalText::Snippet(snippet.to_owned())),
            None => match ensure_real_path(filename) {
                Ok(path) => Ok(OriginalText::OnDisk(path.clone())),
                Err(e) => Err(e),
            },
        },
    }
}

/// The path of a file that is to be read from or written to disk. Standard
/// input has none: it is refused with `InvalidInputForFiles`.
pub fn ensure_real_path(filename: &FileName) -> (r: Result<&String, EmitterError>)
    ensures
        match *filename {
            FileName::Real(p) => r matches Ok(q) && *q == p,
            FileName::Stdin => r matches Err(EmitterError::InvalidInputForFiles),
        },
{
    match filename {
        FileName::Real(path) => Ok(path),
        FileName::Stdin => Err(EmitterError::InvalidInputForFiles),
    }
}

} // verus!
