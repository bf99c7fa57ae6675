use vstd::prelude::*;

use crate::error::EmitterError;

verus! {

/// What is emitted for a formatted report. Mostly corresponds to the `--emit`
/// command line option.
#[derive(Clone, Copy, Debug, PartialEq, Eq, Structural)]
pub enum EmitMode {
    /// Emits to files.
    Files,
    /// Writes the output to stdout.
    Stdout,
    /// Unfancy stdout.
    Checkstyle,
    /// Writes the resulting diffs in a JSON format; an empty array `[]` if
    /// there were no diffs.
    Json,
    /// Outputs the changed lines (internal use only).
    ModifiedLines,
    /// Checks whether a diff can be generated; if so, outputs it and the run
    /// reports a difference. Meant for CI, as `--check`.
    Diff,
}

/// The mode that a textual `--emit` token selects, if it names one. Only four
/// modes can be selected this way; the others are reached internally.
pub open spec fn emit_mode_of(token: Seq<char>) -> Option<EmitMode> {
    if token == "files"@ {
        Some(EmitMode::Files)
    } else if token == "stdout"@ {
        Some(EmitMode::Stdout)
    } else if token == "checkstyle"@ {
        Some(EmitMode::Checkstyle)
    } else if token == "json"@ {
        Some(EmitMode::Json)
    } else {
        None
    }
}

/// Client preference for coloured output.
#[derive(Clone, Copy, Debug, PartialEq, Eq, Structural)]
pub enum Color {
    /// Always use color, whether it is a piped or terminal output.
    Always,
    /// Never use color.
    Never,
    /// Use color if the terminal supports it.
    Auto,
}

impl Color {
    pub open spec fn spec_use_colored_tty(self) -> bool {
        self != Color::Never
    }

    /// Whether a coloured terminal should be used. This is a plain reading of
    /// the preference, not a probe of the terminal.
    pub fn use_colored_tty(self) -> (r: bool)
        ensures
            r == self.spec_use_colored_tty(),
    {
        match self {
            Color::Always | Color::Auto => true,
            Color::Never => false,
        }
    }
}

/// How chatty the emission should be.
#[derive(Clone, Copy, Debug, PartialEq, Eq, Structural)]
pub enum Verbosity {
    /// Default.
    Normal,
    /// Emit more.
    Verbose,
    /// Emit as little as possible.
    Quiet,
}

impl Default for Verbosity {
    fn default() -> (r: Self)
        ensures
            r == Verbosity::Normal,
    {
        Verbosity::Normal
    }
}

impl EmitMode {
    /// Parses a case-sensitive `--emit` token. A token that names no
    /// selectable mode is refused with `UnknownMode`, which carries it.
    pub fn parse(token: &str) -> (r: Result<EmitMode, EmitterError>)
        ensures
            match emit_mode_of(token@) {
                Some(m) => r == Ok::<EmitMode, EmitterError>(m),
                None => r matches Err(EmitterError::UnknownMode(t)) && t@ == token@,
            },
    {
        let t = token.to_owned();
        proof {
            reveal_strlit("files");
            reveal_strlit("stdout");
            reveal_strlit("checkstyle");
            reveal_strlit("json");
        }
        if t == "files".to_owned() {
            Ok(EmitMode::Files)
        } else if t == "stdout".to_owned() {
            Ok(EmitMode::Stdout)
        } else if t == "checkstyle".to_owned() {
            Ok(EmitMode::Checkstyle)
        } else if t == "json".to_owned() {
            Ok(EmitMode::Json)
        } else {
            Err(EmitterError::UnknownMode(t))
        }
    }
}

impl std::str::FromStr for EmitMode {
    type Err = EmitterError;

    fn from_str(s: &str) -> (r: Result<Self, Self::Err>)
        ensures
            match emit_mode_of(s@) {
                Some(m) => r == Ok::<EmitMode, EmitterError>(m),
                None => r matches Err(EmitterError::UnknownMode(t)) && t@ == s@,
            },
    {
        EmitMode::parse(s)
    }
}

/// The settings of one emission run. They do not change during the run.
#[derive(Clone, Copy, Debug, PartialEq, Eq, Structural)]
pub struct EmitterConfig {
    pub emit_mode: EmitMode,
    pub color: Color,
    pub verbosity: Verbosity,
    pub print_filename: bool,
}

impl Default for EmitterConfig {
    fn default() -> (r: Self)
        ensures
            r.emit_mode == EmitMode::Files,
            r.color == Color::Auto,
            r.verbosity == Verbosity::Normal,
            !r.print_filename,
    {
        EmitterConfig {
            emit_mode: EmitMode::Files,
            color: Color::Auto,
            verbosity: Verbosity::Normal,
            print_filename: false,
        }
    }
}

} // verus!
