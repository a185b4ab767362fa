//! Asking the probing tool, and making sense of how its run ended.
//!
//! The library starts no process. Its caller runs [`program`] with the
//! arguments given here, and hands back a [`ProbeOutcome`]; what that
//! outcome means is decided here.

use crate::bytes::{decode_lossy, lossy_text};
use crate::chapter::{parse_chapters, reading_of, Chapter, Reading};
use crate::error::{contains_text, install_hint, Failure, ProbeError, Request};
use crate::error::{law_process_message_holds_stderr, law_spawn_message_asks_to_install};
use crate::text::{first_line, take_first_line};
use vstd::prelude::*;
use vstd::string::*;
use vstd::utf8::{decode_utf8, valid_utf8};

verus! {

/// How a run of the tool ended, as its caller saw it.
#[derive(Debug, PartialEq, Eq)]
pub enum ProbeOutcome {
    /// The tool could not be started; `reason` is the launcher's account.
    NotStarted { reason: String },
    /// The tool ran to its end: the code it exited with, if it had one, and
    /// all that it wrote.
    Exited { code: Option<i32>, stdout: Vec<u8>, stderr: Vec<u8> },
}

/// The name by which the tool is found on the search path.
pub fn program() -> (r: &'static str)
    ensures
        r@ == "ffprobe"@,
{
    "ffprobe"
}

/// The arguments that ask for the chapters of `file_path` alone, as JSON
/// and without the tool's own log; the path comes last, as it was given.
pub fn chapter_arguments(file_path: &str) -> (arguments: Vec<String>)
    ensures
        arguments.deep_view() == seq![
            "-v"@,
            "quiet"@,
            "-print_format"@,
            "json"@,
            "-show_chapters"@,
            file_path@,
        ],
{
    let mut arguments: Vec<String> = Vec::new();
    arguments.push("-v".to_owned());
    arguments.push("quiet".to_owned());
    arguments.push("-print_format".to_owned());
    arguments.push("json".to_owned());
    arguments.push("-show_chapters".to_owned());
    arguments.push(file_path.to_owned());
    assert(arguments.deep_view() =~= seq![
        "-v"@,
        "quiet"@,
        "-print_format"@,
        "json"@,
        "-show_chapters"@,
        file_path@,
    ]);
    arguments
}

/// The one argument that asks for the tool's version.
pub fn version_arguments() -> (arguments: Vec<String>)
    ensures
        arguments.deep_view() == seq!["-version"@],
{
    let mut arguments: Vec<String> = Vec::new();
    arguments.push("-version".to_owned());
    arguments
}

/// The failure that an outcome amounts to, whatever the tool wrote to its
/// standard output: none exactly where the tool exited with status zero.
pub open spec fn failure_of(request: Request, outcome: ProbeOutcome) -> Option<Failure> {
    match outcome {
        ProbeOutcome::NotStarted { reason } => Some(Failure::Spawn { request, reason: reason@ }),
        ProbeOutcome::Exited { code, stderr, .. } => if code == Some(0i32) {
            None
        } else {
            Some(Failure::Process { request, code, stderr: lossy_text(stderr@) })
        },
    }
}

/// What the tool wrote to its standard output; nothing where it did not
/// start.
pub open spec fn output_of(outcome: ProbeOutcome) -> Seq<u8> {
    match outcome {
        ProbeOutcome::NotStarted { .. } => Seq::empty(),
        ProbeOutcome::Exited { stdout, .. } => stdout@,
    }
}

/// What the tool wrote to its standard error; nothing where it did not
/// start.
pub open spec fn errors_of(outcome: ProbeOutcome) -> Seq<u8> {
    match outcome {
        ProbeOutcome::NotStarted { .. } => Seq::empty(),
        ProbeOutcome::Exited { stderr, .. } => stderr@,
    }
}

/// The text that a failure quotes from the tool is plain where the tool
/// wrote UTF-8: it is then the very text that the bytes encode.
pub open spec fn quotes_plainly(error: ProbeError, outcome: ProbeOutcome) -> bool {
    match error {
        ProbeError::Process { stderr, .. } => valid_utf8(errors_of(outcome)) ==> stderr@
            == decode_utf8(errors_of(outcome)),
        _ => true,
    }
}

/// The version that the tool's output names: its first line, or a
/// placeholder where the tool wrote nothing.
pub open spec fn version_line(output: Seq<char>) -> Seq<char> {
    match first_line(output) {
        Some(line) => line,
        None => "Unknown version"@,
    }
}

/// The standard output of a run that succeeded, unchanged; the failure of
/// one that did not.
pub fn probe_output(request: Request, outcome: ProbeOutcome) -> (r: Result<Vec<u8>, ProbeError>)
    ensures
        match r {
            Ok(output) => failure_of(request, outcome) is None && output@ == output_of(outcome),
            Err(error) => failure_of(request, outcome) == Some(error@) && quotes_plainly(
                error,
                outcome,
            ),
        },
{
    match outcome {
        ProbeOutcome::NotStarted { reason } => Err(ProbeError::Spawn { request, reason }),
        ProbeOutcome::Exited { code, stdout, stderr } => {
            let succeeded = match code {
                Some(code) => code == 0,
                None => false,
            };
            if succeeded {
                Ok(stdout)
            } else {
                Err(ProbeError::Process { request, code, stderr: decode_lossy(&stderr) })
            }
        },
    }
}

/// The chapters of a media file, from the outcome of a run with
/// [`chapter_arguments`].
///
/// A run that did not succeed gives its failure. The output of one that did
/// is decoded, parsed and mapped; it gives an error where it is not UTF-8,
/// or not JSON, and the chapters of the report otherwise.
pub fn extract_chapters(outcome: ProbeOutcome) -> (r: Result<Vec<Chapter>, ProbeError>)
    ensures
        match r {
            Ok(chapters) => {
                &&& failure_of(Request::Chapters, outcome) is None
                &&& reading_of(output_of(outcome)) == Reading::Chapters(chapters.deep_view())
            },
            Err(error) => match failure_of(Request::Chapters, outcome) {
                Some(failure) => error@ == failure && quotes_plainly(error, outcome),
                None => match error {
                    ProbeError::Encoding { .. } => reading_of(output_of(outcome)) is NotText,
                    ProbeError::Parse { .. } => reading_of(output_of(outcome)) is NotJson,
                    _ => false,
                },
            },
        },
{
    match probe_output(Request::Chapters, outcome) {
        Ok(output) => parse_chapters(output),
        Err(error) => Err(error),
    }
}

/// The version of the tool, from the outcome of a run with
/// [`version_arguments`].
///
/// A run that did not succeed gives its failure; one that did gives the
/// [`version_line`] of what it wrote, read as UTF-8 as far as it is.
pub fn check_ffmpeg(outcome: ProbeOutcome) -> (r: Result<String, ProbeError>)
    ensures
        match r {
            Ok(version) => {
                &&& failure_of(Request::Version, outcome) is None
                &&& version@ == version_line(lossy_text(output_of(outcome)))
                &&& valid_utf8(output_of(outcome)) ==> version@ == version_line(
                    decode_utf8(output_of(outcome)),
                )
            },
            Err(error) => failure_of(Request::Version, outcome) == Some(error@) && quotes_plainly(
                error,
                outcome,
            ),
        },
{
    match probe_output(Request::Version, outcome) {
        Ok(output) => {
            let text = decode_lossy(&output);
            match take_first_line(text.as_str()) {
                Some(line) => Ok(line),
                None => Ok("Unknown version".to_owned()),
            }
        },
        Err(error) => Err(error),
    }
}

/// A tool that did not start is a spawn failure, and its message says
/// that the tool must be installed.
pub proof fn law_unstarted_tool_asks_to_install(request: Request, outcome: ProbeOutcome)
    requires
        outcome is NotStarted,
    ensures
        failure_of(request, outcome) matches Some(failure) && failure is Spawn && contains_text(
            failure.message(),
            install_hint(),
        ),
{
    law_spawn_message_asks_to_install(request, outcome->reason@);
}

/// A run that ended with another status than zero, or with none, is a
/// process failure, and its message holds what the tool wrote to its
/// standard error.
pub proof fn law_failed_run_reports_stderr(request: Request, outcome: ProbeOutcome)
    requires
        outcome matches ProbeOutcome::Exited { code, .. } && code != Some(0i32),
    ensures
        failure_of(request, outcome) matches Some(failure) && failure is Process && contains_text(
            failure.message(),
            lossy_text(errors_of(outcome)),
        ),
{
    law_process_message_holds_stderr(request, outcome->code, lossy_text(errors_of(outcome)));
}

/// A tool that wrote nothing names no version: the placeholder stands
/// in for it.
pub proof fn law_no_output_is_unknown_version()
    ensures
        valid_utf8(Seq::<u8>::empty()),
        version_line(decode_utf8(Seq::<u8>::empty())) == "Unknown version"@,
{
}

/// A run that ended with status zero is no failure, whatever the tool
/// wrote.
pub proof fn law_status_zero_is_success(request: Request, outcome: ProbeOutcome)
    requires
        outcome matches ProbeOutcome::Exited { code, .. } && code == Some(0i32),
    ensures
        failure_of(request, outcome) is None,
{
}

} // verus!
