use daemon_desktop::checks::{
    check_disk_space, check_inference, check_inference_speed, check_system_ram, InferenceResult,
};
use daemon_desktop::diagnostics::{CheckStatus, OverallStatus};
use daemon_desktop::probes::{
    check_binary_in_path, choose_disk, gateway_running, system_info, DiskFigures,
    InferenceOutcome, Observation, ProbeRequest, ProbeRunner,
};

const GIB: u64 = 1_073_741_824;

fn runner() -> ProbeRunner {
    ProbeRunner::new("http://localhost:11434", "http://127.0.0.1:18789")
}

fn disk(mount: &str, total: u64, available: u64) -> DiskFigures {
    DiskFigures { mount: mount.to_string(), total, available }
}

fn machine(r: &mut ProbeRunner) {
    assert_eq!(r.pending(), Some(ProbeRequest::Memory));
    assert!(r.record(Observation::Memory { total: 16 * GIB, available: 8 * GIB, used: 8 * GIB }));
    assert_eq!(r.pending(), Some(ProbeRequest::Disks));
    assert!(r.record(Observation::Disks(vec![disk("/", 500 * GIB, 100 * GIB)])));
    assert_eq!(r.pending(), Some(ProbeRequest::LocateDaemonCli));
    assert!(r.record(Observation::Located(Some("/usr/local/bin/openclaw".to_string()))));
    assert_eq!(r.pending(), Some(ProbeRequest::GatewayLiveness));
    assert!(r.record(Observation::Gateway(Some(200))));
    assert_eq!(r.pending(), None);
}

#[test]
fn offline_backend_blocks_every_dependent_probe() {
    let mut r = runner();
    assert_eq!(r.pending(), Some(ProbeRequest::LocateBackend));
    assert!(r.record(Observation::Located(Some("/usr/bin/ollama".to_string()))));
    assert_eq!(r.pending(), Some(ProbeRequest::BackendLiveness));
    assert!(r.record(Observation::Liveness(false)));
    // No request to the backend follows: the machine's probes are next.
    assert_eq!(r.pending(), Some(ProbeRequest::Memory));
    {
        let checks = r.checks();
        assert_eq!(checks.len(), 7);
        assert_eq!(checks[1].id, "ollama-api");
        assert_eq!(checks[1].status, CheckStatus::Fail);
        assert_eq!(checks[1].message, "Connection refused");
        assert_eq!(checks[1].action.as_ref().unwrap().command, "start-ollama");
        let ids = ["base-model", "daemon-model", "model-loaded", "inference", "inference-speed"];
        for (k, id) in ids.iter().enumerate() {
            let check = &checks[2 + k];
            assert_eq!(check.id, *id);
            assert_eq!(check.status, CheckStatus::Fail);
            assert_eq!(check.message, "Cannot check — API offline");
            assert_eq!(check.metric, None);
            assert_eq!(check.detail, None);
            assert_eq!(check.action, None);
        }
    }
    machine(&mut r);
    let report = r.finish(42).unwrap();
    assert_eq!(report.checks.len(), 11);
    assert_eq!(report.overall_status, OverallStatus::Unhealthy);
}

#[test]
fn healthy_machine_passes_every_check() {
    let mut r = runner();
    assert!(r.record(Observation::Located(Some("/usr/bin/ollama".to_string()))));
    assert!(r.record(Observation::Liveness(true)));
    assert_eq!(r.pending(), Some(ProbeRequest::ModelInventory));
    let tags = "{\"models\":[{\"name\":\"qwen2.5-coder:7b\",\"size\":1},{\"name\":\"daemon:latest\"}]}";
    assert!(r.record(Observation::Body(Some(tags.to_string()))));
    assert_eq!(r.pending(), Some(ProbeRequest::LoadedModels));
    let ps = "{\"models\":[{\"name\":\"daemon:latest\",\"size\":4000}]}";
    assert!(r.record(Observation::Body(Some(ps.to_string()))));
    assert_eq!(r.pending(), Some(ProbeRequest::InferenceRoundTrip));
    let chat = "{\"message\":{\"role\":\"assistant\",\"content\":\"Hello\"},\"done\":true,\
\"eval_count\":50,\"eval_duration\":10000000000}";
    assert!(r.record(Observation::Inference(InferenceOutcome::Replied {
        body: chat.to_string(),
        latency_ms: 1234,
    })));
    machine(&mut r);
    let report = r.finish(7).unwrap();
    assert_eq!(report.timestamp, 7);
    let ids: Vec<&str> = report.checks.iter().map(|c| c.id.as_str()).collect();
    assert_eq!(
        ids,
        vec![
            "ollama-installed",
            "ollama-api",
            "base-model",
            "daemon-model",
            "model-loaded",
            "inference",
            "inference-speed",
            "system-ram",
            "disk-space",
            "openclaw-installed",
            "openclaw-gateway",
        ]
    );
    for check in report.checks.iter() {
        assert_eq!(check.status, CheckStatus::Pass, "{}", check.id);
    }
    assert_eq!(report.overall_status, OverallStatus::Healthy);
    assert_eq!(report.checks[0].message, "Found at /usr/bin/ollama");
    assert_eq!(report.checks[1].detail.as_deref(), Some("http://localhost:11434"));
    assert_eq!(report.checks[2].detail.as_deref(), Some(tags));
    assert_eq!(report.checks[4].message, "daemon:latest loaded in memory");
    assert_eq!(report.checks[4].metric.as_deref(), Some("daemon:latest"));
    assert_eq!(report.checks[5].message, "Inference working");
    assert_eq!(report.checks[5].detail.as_deref(), Some("Response: Hello\nLatency: 1234ms"));
    assert_eq!(report.checks[5].metric.as_deref(), Some("5.0 tok/s"));
    assert_eq!(report.checks[6].message, "5.0 tokens/sec");
    assert_eq!(report.checks[7].message, "8.0 GB / 16.0 GB used");
    assert_eq!(report.checks[7].metric.as_deref(), Some("8.0 GB free"));
    assert_eq!(
        report.checks[7].detail.as_deref(),
        Some("Total: 16.0 GB, Used: 8.0 GB, Available: 8.0 GB")
    );
    assert_eq!(report.checks[8].message, "100.0 GB free of 500.0 GB");
    assert_eq!(report.checks[10].detail.as_deref(), Some("http://127.0.0.1:18789"));
}

#[test]
fn missing_daemon_model_blocks_the_round_trip() {
    let mut r = runner();
    assert!(r.record(Observation::Located(None)));
    assert!(r.record(Observation::Liveness(true)));
    assert!(r.record(Observation::Body(Some(
        "{\"models\":[{\"name\":\"qwen2.5-coder:7b\"}]}".to_string()
    ))));
    assert!(r.record(Observation::Body(Some("{\"models\":[]}".to_string()))));
    assert_eq!(r.pending(), Some(ProbeRequest::Memory));
    let checks = r.checks();
    assert_eq!(checks.len(), 7);
    assert_eq!(checks[0].status, CheckStatus::Fail);
    assert_eq!(checks[0].message, "Not found in PATH");
    assert_eq!(checks[0].action.as_ref().unwrap().label, "Install Ollama");
    assert_eq!(checks[2].status, CheckStatus::Pass);
    assert_eq!(checks[3].status, CheckStatus::Fail);
    assert_eq!(checks[3].message, "daemon model not found");
    assert_eq!(checks[3].action.as_ref().unwrap().command, "create-daemon-model");
    assert_eq!(checks[4].status, CheckStatus::Warn);
    assert_eq!(checks[4].message, "No model loaded (normal if idle)");
    assert_eq!(checks[5].status, CheckStatus::Fail);
    assert_eq!(checks[5].message, "Cannot check — daemon model missing");
    assert_eq!(checks[6].status, CheckStatus::Fail);
    assert_eq!(checks[6].message, "Cannot check — daemon model missing");
}

#[test]
fn unreadable_inventory_has_no_models() {
    let mut r = runner();
    assert!(r.record(Observation::Located(None)));
    assert!(r.record(Observation::Liveness(true)));
    assert!(r.record(Observation::Body(Some("not json".to_string()))));
    let checks = r.checks();
    assert_eq!(checks[2].status, CheckStatus::Fail);
    assert_eq!(checks[2].message, "Base model not found");
    assert_eq!(checks[2].detail.as_deref(), Some("not json"));
    assert_eq!(checks[2].action.as_ref().unwrap().command, "pull-base-model");
    assert_eq!(checks[3].status, CheckStatus::Fail);
}

#[test]
fn failed_inventory_request_shows_no_detail() {
    let mut r = runner();
    assert!(r.record(Observation::Located(None)));
    assert!(r.record(Observation::Liveness(true)));
    assert!(r.record(Observation::Body(None)));
    assert_eq!(r.checks()[2].detail, None);
}

#[test]
fn daemon_model_counts_as_base_model() {
    let mut r = runner();
    assert!(r.record(Observation::Located(None)));
    assert!(r.record(Observation::Liveness(true)));
    assert!(r.record(Observation::Body(Some("{\"models\":[{\"name\":\"daemon\"}]}".to_string()))));
    assert_eq!(r.checks()[2].status, CheckStatus::Pass);
    assert_eq!(r.checks()[3].status, CheckStatus::Pass);
}

#[test]
fn a_name_that_only_begins_like_the_model_is_another_model() {
    let mut r = runner();
    assert!(r.record(Observation::Located(None)));
    assert!(r.record(Observation::Liveness(true)));
    assert!(r.record(Observation::Body(Some(
        "{\"models\":[{\"name\":\"daemonic\"},{\"name\":\"qwen2.5-coder:7b-instruct\"}]}"
            .to_string()
    ))));
    assert_eq!(r.checks()[2].status, CheckStatus::Fail);
    assert_eq!(r.checks()[3].status, CheckStatus::Fail);
}

#[test]
fn observation_that_is_not_waited_for_changes_nothing() {
    let mut r = runner();
    assert!(!r.record(Observation::Liveness(true)));
    assert!(!r.record(Observation::Gateway(Some(200))));
    assert_eq!(r.pending(), Some(ProbeRequest::LocateBackend));
    assert_eq!(r.checks().len(), 0);
    assert!(r.finish(1).is_none());
}

#[test]
fn failed_round_trip_shows_its_error() {
    let mut r = runner();
    assert!(r.record(Observation::Located(None)));
    assert!(r.record(Observation::Liveness(true)));
    assert!(r.record(Observation::Body(Some("{\"models\":[{\"name\":\"daemon\"}]}".to_string()))));
    assert!(r.record(Observation::Body(None)));
    assert!(r.record(Observation::Inference(InferenceOutcome::Failed("timed out".to_string()))));
    let checks = r.checks();
    assert_eq!(checks[5].status, CheckStatus::Fail);
    assert_eq!(checks[5].message, "Inference failed");
    assert_eq!(checks[5].detail.as_deref(), Some("Error: timed out"));
    assert_eq!(checks[6].status, CheckStatus::Fail);
    assert_eq!(checks[6].message, "Cannot check — inference unavailable");
}

fn result(sample: Option<(u64, u64)>) -> InferenceResult {
    InferenceResult { ok: true, detail: String::new(), sample }
}

#[test]
fn five_tokens_a_second_pass() {
    let r = result(Some((50, 10_000_000_000)));
    let speed = check_inference_speed(&r);
    assert_eq!(speed.status, CheckStatus::Pass);
    assert_eq!(speed.message, "5.0 tokens/sec");
    assert_eq!(speed.metric.as_deref(), Some("5.0 tok/s"));
    assert_eq!(check_inference(&r).metric.as_deref(), Some("5.0 tok/s"));
}

#[test]
fn just_under_five_tokens_a_second_warn() {
    let speed = check_inference_speed(&result(Some((49, 10_000_000_000))));
    assert_eq!(speed.status, CheckStatus::Warn);
    assert_eq!(speed.message, "4.9 tokens/sec (slow)");
    assert_eq!(speed.metric.as_deref(), Some("4.9 tok/s"));
    // Shown as 5.0 after rounding, and still too slow.
    let near = check_inference_speed(&result(Some((4_999, 1_000_000_000_000))));
    assert_eq!(near.status, CheckStatus::Warn);
    assert_eq!(near.message, "5.0 tokens/sec (slow)");
}

#[test]
fn answer_without_figures_has_no_data() {
    let speed = check_inference_speed(&result(None));
    assert_eq!(speed.status, CheckStatus::Fail);
    assert_eq!(speed.message, "No data");
    let zero = check_inference_speed(&result(Some((50, 0))));
    assert_eq!(zero.status, CheckStatus::Fail);
    assert_eq!(zero.message, "No data");
    assert_eq!(check_inference(&result(Some((50, 0)))).metric, None);
}

#[test]
fn fast_generation_is_shown_with_one_decimal() {
    let speed = check_inference_speed(&result(Some((1234, 10_000_000_000))));
    assert_eq!(speed.status, CheckStatus::Pass);
    assert_eq!(speed.message, "123.4 tokens/sec");
}

#[test]
fn memory_warns_below_two_gib() {
    assert_eq!(check_system_ram(16 * GIB, 2 * GIB, 14 * GIB).status, CheckStatus::Pass);
    let low = check_system_ram(16 * GIB, 2 * GIB - 1, 14 * GIB + 1);
    assert_eq!(low.status, CheckStatus::Warn);
    assert_eq!(low.metric.as_deref(), Some("2.0 GB free"));
}

#[test]
fn disk_warns_below_five_gib() {
    assert_eq!(check_disk_space(100 * GIB, 5 * GIB).status, CheckStatus::Pass);
    let low = check_disk_space(100 * GIB, 5 * GIB - 1);
    assert_eq!(low.status, CheckStatus::Warn);
    assert_eq!(low.message, "5.0 GB free of 100.0 GB");
}

#[test]
fn sizes_round_to_the_nearest_tenth_and_a_tie_to_the_even() {
    // A quarter of a GiB lies between 0.2 and 0.3.
    assert_eq!(check_disk_space(0, GIB / 4).metric.as_deref(), Some("0.2 GB free"));
    // Three quarters lie between 0.7 and 0.8.
    assert_eq!(check_disk_space(0, 3 * GIB / 4).metric.as_deref(), Some("0.8 GB free"));
    assert_eq!(check_disk_space(0, 0).message, "0.0 GB free of 0.0 GB");
    assert_eq!(check_disk_space(0, GIB + GIB / 2).metric.as_deref(), Some("1.5 GB free"));
    assert_eq!(
        check_disk_space(0, u64::MAX).metric.as_deref(),
        Some("17179869184.0 GB free")
    );
}

#[test]
fn root_disk_counts_before_the_first() {
    let disks = vec![disk("/boot", 1, 2), disk("/", 30, 40), disk("/", 50, 60)];
    assert_eq!(choose_disk(&disks), (30, 40));
    assert_eq!(choose_disk(&vec![disk("D:\\", 1, 2), disk("C:\\", 3, 4)]), (3, 4));
    assert_eq!(choose_disk(&vec![disk("/data", 7, 8), disk("/home", 9, 10)]), (7, 8));
    assert_eq!(choose_disk(&Vec::new()), (0, 0));
}

#[test]
fn gateway_runs_where_any_code_below_500_comes() {
    assert!(gateway_running(Some(200)));
    assert!(gateway_running(Some(404)));
    assert!(gateway_running(Some(499)));
    assert!(!gateway_running(Some(500)));
    assert!(!gateway_running(Some(503)));
    assert!(!gateway_running(None));
}

#[test]
fn gateway_that_does_not_answer_is_a_warning() {
    let mut r = runner();
    assert!(r.record(Observation::Located(Some("/usr/bin/ollama".to_string()))));
    assert!(r.record(Observation::Liveness(false)));
    assert!(r.record(Observation::Memory { total: 16 * GIB, available: 8 * GIB, used: 8 * GIB }));
    assert!(r.record(Observation::Disks(Vec::new())));
    assert!(r.record(Observation::Located(None)));
    assert!(r.record(Observation::Gateway(Some(502))));
    let checks = r.checks();
    assert_eq!(checks[8].status, CheckStatus::Warn);
    assert_eq!(checks[9].status, CheckStatus::Warn);
    assert_eq!(checks[9].message, "Not found in PATH");
    assert_eq!(checks[10].status, CheckStatus::Warn);
    assert_eq!(checks[10].message, "Gateway not running");
}

#[test]
fn system_info_names_an_unknown_processor() {
    let disks = vec![disk("/", 100, 40)];
    let info = system_info(16, 8, 8, &disks, None, 0);
    assert_eq!(info.cpu_brand, "Unknown");
    assert_eq!((info.total_disk, info.free_disk), (100, 40));
    let named = system_info(16, 8, 7, &disks, Some("Fast CPU".to_string()), 12);
    assert_eq!(named.cpu_brand, "Fast CPU");
    assert_eq!(named.cpu_count, 12);
    assert_eq!((named.total_ram, named.available_ram, named.used_ram), (16, 8, 7));
}

#[test]
fn lookup_gives_the_first_line() {
    assert_eq!(
        check_binary_in_path(true, "/usr/bin/ollama\n/opt/ollama\n").as_deref(),
        Some("/usr/bin/ollama")
    );
    assert_eq!(
        check_binary_in_path(true, "  C:\\bin\\ollama.exe\r\nC:\\other\r\n").as_deref(),
        Some("C:\\bin\\ollama.exe")
    );
    assert_eq!(check_binary_in_path(true, "/usr/bin/ollama").as_deref(), Some("/usr/bin/ollama"));
    assert_eq!(check_binary_in_path(true, "  \n"), None);
    assert_eq!(check_binary_in_path(false, "/usr/bin/ollama\n"), None);
}

#[test]
fn loaded_reply_that_cannot_be_read_shows_no_model() {
    for ps in [
        "{\"models\":[{\"name\":\"daemon\",\"size\":\"large\"}]}",
        "{\"models\":[{\"name\":\"daemon\",\"expires_at\":5}]}",
        "{\"models\":[{\"name\":\"daemon\"},{\"size\":1}]}",
        "not json",
    ] {
        let mut r = runner();
        assert!(r.record(Observation::Located(None)));
        assert!(r.record(Observation::Liveness(true)));
        assert!(r.record(Observation::Body(Some("{\"models\":[]}".to_string()))));
        assert!(r.record(Observation::Body(Some(ps.to_string()))));
        let check = &r.checks()[4];
        assert_eq!(check.status, CheckStatus::Warn, "{}", ps);
        assert_eq!(check.message, "No model loaded (normal if idle)");
        assert_eq!(check.metric, None);
    }
    let mut r = runner();
    assert!(r.record(Observation::Located(None)));
    assert!(r.record(Observation::Liveness(true)));
    assert!(r.record(Observation::Body(Some("{\"models\":[]}".to_string()))));
    assert!(r.record(Observation::Body(Some(
        "{\"models\":[{\"name\":\"first\",\"size\":1,\"expires_at\":null},{\"name\":\"second\"}]}"
            .to_string()
    ))));
    assert_eq!(r.checks()[4].status, CheckStatus::Pass);
    assert_eq!(r.checks()[4].metric.as_deref(), Some("first"));
}
