//! Chapter markers of a media file, read from the report of a probing tool.
//!
//! The tool is `ffprobe`. This library starts no process: it says how the
//! tool is to be asked ([`probe::chapter_arguments`],
//! [`probe::version_arguments`]), and makes sense of how a run ended
//! ([`extract_chapters`], [`check_ffmpeg`]). Between the two stands the
//! caller, who runs the tool and hands back a [`ProbeOutcome`].
//!
//! Every function is verified against its contract, except those of
//! [`json`] and [`bytes`], which state of `serde_json` and of the standard
//! library what the rest relies on.

pub mod bytes;
pub mod chapter;
pub mod error;
pub mod json;
pub mod probe;
pub mod seconds;
pub mod text;

pub use chapter::{map_chapters, parse_chapters, Chapter};
pub use error::{ProbeError, Request};
pub use probe::{check_ffmpeg, extract_chapters, ProbeOutcome};
pub use seconds::Seconds;
