use chapter_probe::probe::{chapter_arguments, probe_output, program, version_arguments};
use chapter_probe::{check_ffmpeg, extract_chapters, ProbeError, ProbeOutcome, Request};

#[derive(Debug)]
struct ExitStatus {
    #[allow(dead_code)]
    code: Option<i32>,
}

fn exited(code: Option<i32>, stdout: &[u8], stderr: &[u8]) -> ProbeOutcome {
    ProbeOutcome::Exited { code, stdout: stdout.to_vec(), stderr: stderr.to_vec() }
}

fn not_started(reason: &str) -> ProbeOutcome {
    ProbeOutcome::NotStarted { reason: String::from(reason) }
}

#[test]
fn the_tool_is_ffprobe() {
    assert_eq!(program(), "ffprobe");
}

#[test]
fn arguments_for_chapters() {
    assert_eq!(
        chapter_arguments("/media/film.mkv"),
        ["-v", "quiet", "-print_format", "json", "-show_chapters", "/media/film.mkv"]
    );
}

#[test]
fn path_is_the_last_argument_as_it_was_given() {
    for path in ["", " ", "a b.mp4", "-version", "it's \"quoted\".mkv", "caf\u{e9}/\u{1f3b5}.m4b", "a\nb"] {
        let arguments = chapter_arguments(path);
        assert_eq!(arguments.len(), 6);
        assert_eq!(arguments[5], path);
        assert_eq!(arguments[..5], ["-v", "quiet", "-print_format", "json", "-show_chapters"]);
    }
}

#[test]
fn arguments_for_the_version() {
    assert_eq!(version_arguments(), ["-version"]);
}

#[test]
fn output_of_a_run_that_succeeded_is_unchanged() {
    let stdout: Vec<u8> = vec![0, 255, b'\n', 0xc3, b'{'];
    assert_eq!(probe_output(Request::Chapters, exited(Some(0), &stdout, b"warning")), Ok(stdout.clone()));
    assert_eq!(probe_output(Request::Version, exited(Some(0), &stdout, b"")), Ok(stdout));
    assert_eq!(probe_output(Request::Version, exited(Some(0), b"", b"")), Ok(Vec::new()));
}

#[test]
fn unlaunchable_tool_is_a_spawn_error() {
    let error = extract_chapters(not_started("No such file or directory (os error 2)")).unwrap_err();
    assert_eq!(
        error,
        ProbeError::Spawn {
            request: Request::Chapters,
            reason: String::from("No such file or directory (os error 2)"),
        }
    );
    assert_eq!(
        error.message(),
        "Failed to set up ffprobe command: No such file or directory (os error 2). Make sure FFmpeg is installed."
    );
    assert!(error.message().contains("installed"));
}

#[test]
fn unlaunchable_tool_is_a_spawn_error_for_the_version() {
    let error = check_ffmpeg(not_started("permission denied")).unwrap_err();
    assert!(matches!(error, ProbeError::Spawn { request: Request::Version, .. }), "{:?}", error);
    assert_eq!(
        error.message(),
        "ffprobe command not found. Make sure FFmpeg is installed and in your system's PATH."
    );
    assert!(error.message().contains("installed"));
    assert!(error.message().contains("PATH"));
}

#[test]
fn nonzero_exit_is_a_process_error() {
    let error = extract_chapters(exited(Some(1), b"{\"chapters\":[]}", b"film.mkv: No such file or directory\n")).unwrap_err();
    assert_eq!(
        error,
        ProbeError::Process {
            request: Request::Chapters,
            code: Some(1),
            stderr: String::from("film.mkv: No such file or directory\n"),
        }
    );
    assert!(error.message().contains("film.mkv: No such file or directory\n"));
    assert_eq!(
        error.message(),
        "FFprobe failed with status ExitStatus { code: Some(1) }: film.mkv: No such file or directory\n"
    );
}

#[test]
fn process_message_writes_the_status_as_its_debug_form() {
    for code in [Some(1), Some(-1), Some(255), Some(i32::MAX), Some(i32::MIN), Some(-1073741819), None] {
        let error = extract_chapters(exited(code, b"", b"boom")).unwrap_err();
        assert_eq!(
            error.message(),
            format!("FFprobe failed with status {:?}: {}", ExitStatus { code }, "boom")
        );
    }
}

#[test]
fn exit_without_a_code_is_a_process_error() {
    let error = extract_chapters(exited(None, b"{}", b"killed")).unwrap_err();
    assert_eq!(
        error,
        ProbeError::Process { request: Request::Chapters, code: None, stderr: String::from("killed") }
    );
    assert_eq!(error.message(), "FFprobe failed with status ExitStatus { code: None }: killed");
}

#[test]
fn nonzero_exit_is_a_process_error_for_the_version() {
    let error = check_ffmpeg(exited(Some(127), b"ffprobe version 6.0\n", b"not found")).unwrap_err();
    assert_eq!(
        error,
        ProbeError::Process { request: Request::Version, code: Some(127), stderr: String::from("not found") }
    );
    assert_eq!(error.message(), "FFprobe execution failed: not found");
}

#[test]
fn standard_error_that_is_not_utf8_is_read_as_far_as_it_is() {
    let error = extract_chapters(exited(Some(2), b"", &[b'a', 0xff, b'b'])).unwrap_err();
    assert_eq!(
        error,
        ProbeError::Process { request: Request::Chapters, code: Some(2), stderr: String::from("a\u{fffd}b") }
    );
    assert_eq!(error.message(), "FFprobe failed with status ExitStatus { code: Some(2) }: a\u{fffd}b");
}

#[test]
fn empty_standard_error_is_an_empty_quote() {
    let error = extract_chapters(exited(Some(1), b"", b"")).unwrap_err();
    assert_eq!(error.message(), "FFprobe failed with status ExitStatus { code: Some(1) }: ");
}

#[test]
fn chapters_of_a_run_that_succeeded() {
    let chapters = extract_chapters(exited(
        Some(0),
        b"{\"chapters\":[{\"start_time\":\"0.000000\",\"end_time\":\"125.000000\",\"tags\":{\"title\":\"Intro\"}},{\"start_time\":\"125.000000\"}]}",
        b"",
    ))
    .expect("chapters");
    assert_eq!(chapters.len(), 2);
    assert_eq!(chapters[0].id, "chapter-0");
    assert_eq!(chapters[0].title, "Intro");
    assert_eq!(chapters[0].start.as_str().parse::<f64>(), Ok(0.0));
    assert_eq!(chapters[0].end.as_ref().map(|end| end.as_str().parse::<f64>()), Some(Ok(125.0)));
    assert_eq!(chapters[1].id, "chapter-1");
    assert_eq!(chapters[1].title, "Chapter 2");
    assert_eq!(chapters[1].start.as_str().parse::<f64>(), Ok(125.0));
    assert_eq!(chapters[1].end, None);
}

#[test]
fn standard_error_of_a_run_that_succeeded_is_ignored() {
    assert_eq!(extract_chapters(exited(Some(0), b"{}", b"deprecated option")), Ok(Vec::new()));
}

#[test]
fn encoding_error_quotes_the_decoder() {
    let error = extract_chapters(exited(Some(0), &[b'{', 0x80, b'}'], b"")).unwrap_err();
    assert!(matches!(error, ProbeError::Encoding { .. }), "{:?}", error);
    let message = error.message();
    assert!(message.starts_with("Invalid UTF-8 output from ffprobe: "), "{}", message);
    let detail = String::from_utf8(vec![b'{', 0x80, b'}']).unwrap_err().to_string();
    assert_eq!(message, format!("Invalid UTF-8 output from ffprobe: {}", detail));
}

#[test]
fn parse_error_quotes_the_parser() {
    let error = extract_chapters(exited(Some(0), b"{\"chapters\": [", b"")).unwrap_err();
    assert!(matches!(error, ProbeError::Parse { .. }), "{:?}", error);
    let detail = serde_json::from_str::<serde_json::Value>("{\"chapters\": [").unwrap_err().to_string();
    assert_eq!(error.message(), format!("Failed to parse JSON from ffprobe: {}", detail));
}

#[test]
fn empty_output_of_a_run_that_succeeded_is_a_parse_error() {
    let error = extract_chapters(exited(Some(0), b"", b"")).unwrap_err();
    assert!(matches!(error, ProbeError::Parse { .. }), "{:?}", error);
}

#[test]
fn failure_of_the_run_comes_before_the_output() {
    let error = extract_chapters(exited(Some(1), &[0xff], b"x")).unwrap_err();
    assert!(matches!(error, ProbeError::Process { .. }), "{:?}", error);
}

#[test]
fn version_is_the_first_line() {
    let stdout = b"ffprobe version 6.1.1 Copyright (c) 2007-2023 the FFmpeg developers\nbuilt with gcc 13\nconfiguration: --prefix=/usr\n";
    assert_eq!(
        check_ffmpeg(exited(Some(0), stdout, b"")),
        Ok(String::from("ffprobe version 6.1.1 Copyright (c) 2007-2023 the FFmpeg developers"))
    );
}

#[test]
fn version_line_without_its_carriage_return() {
    assert_eq!(
        check_ffmpeg(exited(Some(0), b"ffprobe version 7.0\r\nbuilt with msvc\r\n", b"")),
        Ok(String::from("ffprobe version 7.0"))
    );
}

#[test]
fn version_of_a_single_line() {
    assert_eq!(check_ffmpeg(exited(Some(0), b"ffprobe version 7.0", b"")), Ok(String::from("ffprobe version 7.0")));
}

#[test]
fn version_of_empty_output_is_unknown() {
    assert_eq!(check_ffmpeg(exited(Some(0), b"", b"noise")), Ok(String::from("Unknown version")));
}

#[test]
fn version_of_an_empty_first_line_is_empty() {
    assert_eq!(check_ffmpeg(exited(Some(0), b"\nffprobe version 7.0\n", b"")), Ok(String::new()));
}

#[test]
fn version_that_is_not_utf8_is_read_as_far_as_it_is() {
    assert_eq!(
        check_ffmpeg(exited(Some(0), &[b'v', 0xff, b'1', b'\n', b'x'], b"")),
        Ok(String::from("v\u{fffd}1"))
    );
    let stdout: Vec<u8> = vec![0xe2, 0x82, b'\n', b'x'];
    let expected: String = String::from_utf8_lossy(&stdout).lines().next().map(String::from).unwrap();
    assert_eq!(check_ffmpeg(exited(Some(0), &stdout, b"")), Ok(expected));
}

#[test]
fn every_kind_of_error_has_its_message() {
    let errors = [
        ProbeError::Spawn { request: Request::Chapters, reason: String::from("r") },
        ProbeError::Spawn { request: Request::Version, reason: String::from("r") },
        ProbeError::Process { request: Request::Chapters, code: Some(3), stderr: String::from("e") },
        ProbeError::Process { request: Request::Version, code: Some(3), stderr: String::from("e") },
        ProbeError::Encoding { detail: String::from("d") },
        ProbeError::Parse { detail: String::from("d") },
    ];
    let messages: Vec<String> = errors.iter().map(|error| error.message()).collect();
    assert_eq!(
        messages,
        [
            "Failed to set up ffprobe command: r. Make sure FFmpeg is installed.",
            "ffprobe command not found. Make sure FFmpeg is installed and in your system's PATH.",
            "FFprobe failed with status ExitStatus { code: Some(3) }: e",
            "FFprobe execution failed: e",
            "Invalid UTF-8 output from ffprobe: d",
            "Failed to parse JSON from ffprobe: d",
        ]
    );
}
