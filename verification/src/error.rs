//! What can go wrong between starting the probing tool and reading its
//! report: four kinds of failure, and the one message that is shown for each.

use crate::text::{push_signed_decimal, signed_decimal};
use vstd::prelude::*;
use vstd::string::*;

verus! {

/// What the tool was asked for.
#[derive(Clone, Copy, Debug, PartialEq, Eq)]
pub enum Request {
    /// The chapters of a media file.
    Chapters,
    /// The tool's version.
    Version,
}

/// A failed request.
#[derive(Debug, PartialEq, Eq)]
pub enum ProbeError {
    /// The tool could not be started; `reason` is the launcher's account.
    Spawn { request: Request, reason: String },
    /// The tool ran and did not exit with status zero.
    Process { request: Request, code: Option<i32>, stderr: String },
    /// The tool's output is not UTF-8; `detail` is the decoder's account.
    Encoding { detail: String },
    /// The tool's output is not JSON; `detail` is the parser's account.
    Parse { detail: String },
}

/// A [`ProbeError`] with its texts as sequences.
pub enum Failure {
    Spawn { request: Request, reason: Seq<char> },
    Process { request: Request, code: Option<i32>, stderr: Seq<char> },
    Encoding { detail: Seq<char> },
    Parse { detail: Seq<char> },
}

impl View for ProbeError {
    type V = Failure;

    open spec fn view(&self) -> Failure {
        match *self {
            ProbeError::Spawn { request, reason } => Failure::Spawn { request, reason: reason@ },
            ProbeError::Process { request, code, stderr } => Failure::Process {
                request,
                code,
                stderr: stderr@,
            },
            ProbeError::Encoding { detail } => Failure::Encoding { detail: detail@ },
            ProbeError::Parse { detail } => Failure::Parse { detail: detail@ },
        }
    }
}

/// The advice that every message about a tool that did not start holds.
pub open spec fn install_hint() -> Seq<char> {
    "Make sure FFmpeg is installed"@
}

/// How an exit status is written in a message: the code the tool exited
/// with, or that there was none.
pub open spec fn status_text(code: Option<i32>) -> Seq<char> {
    match code {
        Some(code) => "ExitStatus { code: Some("@ + signed_decimal(code as int) + ") }"@,
        None => "ExitStatus { code: None }"@,
    }
}

/// `part` stands somewhere in `text`.
pub open spec fn contains_text(text: Seq<char>, part: Seq<char>) -> bool {
    exists|at: int|
        0 <= at && at + part.len() <= text.len() && #[trigger] text.subrange(
            at,
            at + part.len(),
        ) == part
}

impl Failure {
    /// The message shown for the failure.
    pub open spec fn message(self) -> Seq<char> {
        match self {
            Failure::Spawn { request: Request::Chapters, reason } => {
                "Failed to set up ffprobe command: "@ + reason + ". "@ + install_hint() + "."@
            },
            Failure::Spawn { request: Request::Version, reason } => {
                "ffprobe command not found. "@ + install_hint() + " and in your system's PATH."@
            },
            Failure::Process { request: Request::Chapters, code, stderr } => {
                "FFprobe failed with status "@ + status_text(code) + ": "@ + stderr
            },
            Failure::Process { request: Request::Version, code, stderr } => {
                "FFprobe execution failed: "@ + stderr
            },
            Failure::Encoding { detail } => "Invalid UTF-8 output from ffprobe: "@ + detail,
            Failure::Parse { detail } => "Failed to parse JSON from ffprobe: "@ + detail,
        }
    }
}

fn push_status(out: &mut String, code: Option<i32>)
    ensures
        final(out)@ == old(out)@ + status_text(code),
{
    match code {
        Some(code) => {
            out.append("ExitStatus { code: Some(");
            push_signed_decimal(out, code);
            out.append(") }");
        },
        None => {
            out.append("ExitStatus { code: None }");
        },
    }
}

impl ProbeError {
    /// The message shown for the failure, as one text.
    pub fn message(&self) -> (r: String)
        ensures
            r@ == self@.message(),
    {
        let mut out = String::new();
        match self {
            ProbeError::Spawn { request: Request::Chapters, reason } => {
                out.append("Failed to set up ffprobe command: ");
                out.append(reason.as_str());
                out.append(". ");
                out.append("Make sure FFmpeg is installed");
                out.append(".");
            },
            ProbeError::Spawn { request: Request::Version, .. } => {
                out.append("ffprobe command not found. ");
                out.append("Make sure FFmpeg is installed");
                out.append(" and in your system's PATH.");
            },
            ProbeError::Process { request: Request::Chapters, code, stderr } => {
                out.append("FFprobe failed with status ");
                push_status(&mut out, *code);
                out.append(": ");
                out.append(stderr.as_str());
            },
            ProbeError::Process { request: Request::Version, stderr, .. } => {
                out.append("FFprobe execution failed: ");
                out.append(stderr.as_str());
            },
            ProbeError::Encoding { detail } => {
                out.append("Invalid UTF-8 output from ffprobe: ");
                out.append(detail.as_str());
            },
            ProbeError::Parse { detail } => {
                out.append("Failed to parse JSON from ffprobe: ");
                out.append(detail.as_str());
            },
        }
        out
    }
}

/// A text holds each of the three texts it is joined from.
pub proof fn lemma_contains_middle(before: Seq<char>, part: Seq<char>, after: Seq<char>)
    ensures
        contains_text(before + part + after, part),
{
    let text = before + part + after;
    let at = before.len() as int;
    assert(text.subrange(at, at + part.len()) =~= part);
}

/// The message about a run that failed holds what the tool wrote to its
/// standard error, whatever was asked and whatever the exit status.
pub proof fn law_process_message_holds_stderr(
    request: Request,
    code: Option<i32>,
    stderr: Seq<char>,
)
    ensures
        contains_text(Failure::Process { request, code, stderr }.message(), stderr),
{
    let message = Failure::Process { request, code, stderr }.message();
    let head = message.subrange(0, message.len() - stderr.len());
    assert(message =~= head + stderr + Seq::<char>::empty());
    lemma_contains_middle(head, stderr, Seq::empty());
}

/// The message about a tool that did not start says that the tool must be
/// installed, whatever was asked and whatever the launcher reported.
pub proof fn law_spawn_message_asks_to_install(request: Request, reason: Seq<char>)
    ensures
        contains_text(Failure::Spawn { request, reason }.message(), install_hint()),
{
    match request {
        Request::Chapters => {
            lemma_contains_middle(
                "Failed to set up ffprobe command: "@ + reason + ". "@,
                install_hint(),
                "."@,
            );
        },
        Request::Version => {
            lemma_contains_middle(
                "ffprobe command not found. "@,
                install_hint(),
                " and in your system's PATH."@,
            );
        },
    }
}

} // verus!
