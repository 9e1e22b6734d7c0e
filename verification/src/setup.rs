//! The setup helper: what its report says, and how a run of it ends.

use crate::checks::push_str;
use crate::supervisor::{code_text, push_code, StreamKind};
use crate::text::{
    chars_of, contains, find, find_line_with, first_line_with, owned, remove_all, string_of, trim,
    trimmed, without_all,
};
use vstd::prelude::*;

verus! {

/// What the setup helper reports of the backend.
#[derive(Clone, Debug, PartialEq, Eq)]
pub struct SetupStatus {
    pub ollama_found: bool,
    pub ollama_path: Option<String>,
    pub output: String,
}

/// One line of the setup helper's output, for the display.
#[derive(Clone, Debug, PartialEq, Eq)]
pub struct SetupLogEvent {
    pub line: String,
    /// `stdout` or `stderr`.
    pub stream: String,
}

/// What a run of the setup helper sends.
#[derive(Debug, PartialEq, Eq)]
pub enum SidecarEvent {
    /// Output on the standard output.
    Stdout(String),
    /// Output on the standard error.
    Stderr(String),
    /// The helper ended, with this code where the system gives one.
    Terminated(Option<i32>),
    /// Anything else.
    Other,
}

/// What follows from an event of the setup helper.
#[derive(Debug, PartialEq, Eq)]
pub enum SidecarStep {
    /// Show this line, and go on.
    Log(SetupLogEvent),
    /// The run is over, with this result.
    Finished(Result<(), String>),
    /// Go on.
    Nothing,
}

/// The name of a stream, as the display knows it.
pub open spec fn stream_name(stream: StreamKind) -> Seq<char> {
    match stream {
        StreamKind::Stdout => "stdout"@,
        StreamKind::Stderr => "stderr"@,
    }
}

/// The name of a stream, as the display knows it.
pub fn stream_label(stream: StreamKind) -> (out: String)
    ensures
        out@ == stream_name(stream),
{
    match stream {
        StreamKind::Stdout => owned("stdout"),
        StreamKind::Stderr => owned("stderr"),
    }
}

/// The words with which the helper reports where it found the backend.
pub open spec fn found_marker() -> Seq<char> {
    "Ollama found:"@
}

/// The path that the helper reports: the first line with the marker,
/// without the marker and the space behind it, trimmed.
pub open spec fn reported_path(stdout: Seq<char>) -> Option<Seq<char>> {
    if contains(stdout, found_marker()) {
        match first_line_with(stdout, found_marker()) {
            Some(line) => Some(trim(remove_all(line, "Ollama found: "@))),
            None => None,
        }
    } else {
        None
    }
}

/// Reads the report of the setup helper's check: whether it found the
/// backend, and where. The output is what it wrote on both streams.
pub fn setup_check(stdout: &str, stderr: &str) -> (status: SetupStatus)
    ensures
        status.ollama_found == contains(stdout@, found_marker()),
        crate::diagnostics::optional_text(status.ollama_path) == reported_path(stdout@),
        status.output@ == stdout@ + stderr@,
{
    let text = chars_of(stdout);
    let marker = chars_of("Ollama found:");
    let ollama_found = find(&text, &marker).is_some();
    let ollama_path = if ollama_found {
        match find_line_with(&text, &marker) {
            Some(line) => {
                let label = chars_of("Ollama found: ");
                let bare = without_all(&line, &label);
                Some(string_of(&trimmed(&bare)))
            },
            None => None,
        }
    } else {
        None
    };
    let output = crate::checks::joined(stdout, stderr);
    SetupStatus { ollama_found, ollama_path, output }
}

/// What follows from an event of a run of the setup helper with the verb
/// `verb`: output is shown, the end with code 0 is success, the end with
/// another code or none is an error that names the verb and the code.
pub fn sidecar_step(verb: &str, event: SidecarEvent) -> (step: SidecarStep)
    ensures
        match event {
            SidecarEvent::Stdout(line) => step matches SidecarStep::Log(shown) && shown.line@
                == line@ && shown.stream@ == "stdout"@,
            SidecarEvent::Stderr(line) => step matches SidecarStep::Log(shown) && shown.line@
                == line@ && shown.stream@ == "stderr"@,
            SidecarEvent::Terminated(code) => if code == Some(0i32) {
                step == SidecarStep::Finished(Ok(()))
            } else {
                step matches SidecarStep::Finished(Err(message)) && message@ == "daemon-setup "@
                    + verb@ + " exited with code "@ + code_text(code)
            },
            SidecarEvent::Other => step == SidecarStep::Nothing,
        },
{
    match event {
        SidecarEvent::Stdout(line) => SidecarStep::Log(
            SetupLogEvent { line, stream: stream_label(StreamKind::Stdout) },
        ),
        SidecarEvent::Stderr(line) => SidecarStep::Log(
            SetupLogEvent { line, stream: stream_label(StreamKind::Stderr) },
        ),
        SidecarEvent::Terminated(code) => {
            let success = match code {
                Some(c) => c == 0,
                None => false,
            };
            if success {
                SidecarStep::Finished(Ok(()))
            } else {
                let mut message: Vec<char> = Vec::new();
                push_str(&mut message, "daemon-setup ");
                push_str(&mut message, verb);
                push_str(&mut message, " exited with code ");
                push_code(&mut message, code);
                proof {
                    let e = Seq::<char>::empty();
                    assert(e + "daemon-setup "@ =~= "daemon-setup "@);
                }
                SidecarStep::Finished(Err(string_of(&message)))
            }
        },
        SidecarEvent::Other => SidecarStep::Nothing,
    }
}

} // verus!
