use daemon_desktop::setup::{setup_check, sidecar_step, stream_label, SetupLogEvent, SidecarEvent, SidecarStep};
use daemon_desktop::supervisor::StreamKind;

#[test]
fn report_names_the_backend() {
    let status = setup_check(
        "Checking system...\nOllama found: /usr/local/bin/ollama  \nDone\n",
        "warning: slow disk\n",
    );
    assert!(status.ollama_found);
    assert_eq!(status.ollama_path.as_deref(), Some("/usr/local/bin/ollama"));
    assert_eq!(
        status.output,
        "Checking system...\nOllama found: /usr/local/bin/ollama  \nDone\nwarning: slow disk\n"
    );
}

#[test]
fn report_without_the_marker_names_nothing() {
    let status = setup_check("Ollama not found\n", "");
    assert!(!status.ollama_found);
    assert_eq!(status.ollama_path, None);
    assert_eq!(status.output, "Ollama not found\n");
    // The marker on the other stream does not count.
    let other = setup_check("", "Ollama found: /x\n");
    assert!(!other.ollama_found);
    assert_eq!(other.ollama_path, None);
    assert_eq!(other.output, "Ollama found: /x\n");
}

#[test]
fn first_line_with_the_marker_counts() {
    let status = setup_check("a\r\n[ok] Ollama found: C:\\ollama.exe\r\nOllama found: /second\n", "");
    assert_eq!(status.ollama_path.as_deref(), Some("[ok] C:\\ollama.exe"));
}

#[test]
fn marker_without_a_space_stays_in_the_path() {
    let status = setup_check("Ollama found:/opt/ollama", "");
    assert!(status.ollama_found);
    assert_eq!(status.ollama_path.as_deref(), Some("Ollama found:/opt/ollama"));
    let twice = setup_check("Ollama found: Ollama found: /x", "");
    assert_eq!(twice.ollama_path.as_deref(), Some("/x"));
    let bare = setup_check("Ollama found: ", "");
    assert_eq!(bare.ollama_path.as_deref(), Some(""));
}

#[test]
fn output_of_the_helper_is_shown() {
    assert_eq!(
        sidecar_step("init", SidecarEvent::Stdout("pulling".to_string())),
        SidecarStep::Log(SetupLogEvent { line: "pulling".to_string(), stream: "stdout".to_string() })
    );
    assert_eq!(
        sidecar_step("init", SidecarEvent::Stderr("oops".to_string())),
        SidecarStep::Log(SetupLogEvent { line: "oops".to_string(), stream: "stderr".to_string() })
    );
    assert_eq!(sidecar_step("init", SidecarEvent::Other), SidecarStep::Nothing);
    assert_eq!(stream_label(StreamKind::Stdout), "stdout");
    assert_eq!(stream_label(StreamKind::Stderr), "stderr");
}

#[test]
fn end_of_the_helper_is_judged_by_its_code() {
    assert_eq!(
        sidecar_step("init", SidecarEvent::Terminated(Some(0))),
        SidecarStep::Finished(Ok(()))
    );
    assert_eq!(
        sidecar_step("init", SidecarEvent::Terminated(Some(1))),
        SidecarStep::Finished(Err("daemon-setup init exited with code Some(1)".to_string()))
    );
    assert_eq!(
        sidecar_step("alias", SidecarEvent::Terminated(None)),
        SidecarStep::Finished(Err("daemon-setup alias exited with code None".to_string()))
    );
}
