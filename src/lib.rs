//! The emission layer of a code formatter: for each formatted file it finds
//! the authoritative text from before formatting, hands both texts to the
//! output strategy chosen for the run, and folds the per-file results into
//! one "did anything differ" flag.

pub mod config;
pub mod emitter;
pub mod error;
pub mod report;
pub mod resolve;

pub use config::{Color, EmitMode, EmitterConfig, Verbosity};
pub use emitter::{
    create_emitter, emit_format_report, write_file, Emitter, EmitterKind, EmitterResult,
    FormattedFile,
};
pub use error::EmitterError;
pub use report::{FileName, FormatReport, FormatResult, NewlineStyle};
pub use resolve::{ensure_real_path, select_original_text, OriginalText};
