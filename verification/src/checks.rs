//! The checks of the health battery: what each one says for what was
//! observed.

use crate::diagnostics::{ActionView, CheckStatus, CheckView, DiagnosticAction, DiagnosticCheck};
use crate::text::{
    chars_of, extend_chars, owned, push_tenths, round_div,
    rounded_quotient, string_of, tenths,
};
use vstd::prelude::*;

verus! {

/// The number of bytes in one GiB.
pub const GIB: u64 = 1_073_741_824;

/// Less available memory than this is a warning: 2 GiB.
pub const MEMORY_FLOOR: u64 = 2_147_483_648;

/// Less free disk space than this is a warning: 5 GiB.
pub const DISK_FLOOR: u64 = 5_368_709_120;

/// The number of nanoseconds in one second.
pub const NANOS_PER_SECOND: u64 = 1_000_000_000;

/// The slowest generation that passes, in tokens per second.
pub const SPEED_FLOOR: u64 = 5;

/// A check without metric, detail or action.
pub open spec fn plain_check(
    id: Seq<char>,
    name: Seq<char>,
    status: CheckStatus,
    message: Seq<char>,
) -> CheckView {
    CheckView { id, name, status, message, metric: None, detail: None, action: None }
}

/// The check that stands for a probe that was not made, because what it
/// depends on is not there.
pub open spec fn blocked_check(id: Seq<char>, name: Seq<char>, reason: Seq<char>) -> CheckView {
    plain_check(id, name, CheckStatus::Fail, "Cannot check — "@ + reason)
}

/// Whether a check says that its probe was not made.
pub open spec fn is_blocked(check: CheckView) -> bool {
    check.status == CheckStatus::Fail && crate::text::occurs_at(
        check.message,
        "Cannot check — "@,
        0,
    )
}

/// Whether the backend's program was found.
pub open spec fn backend_installed(path: Option<Seq<char>>) -> CheckView {
    CheckView {
        id: "ollama-installed"@,
        name: "Ollama Installed"@,
        status: if path is Some {
            CheckStatus::Pass
        } else {
            CheckStatus::Fail
        },
        message: match path {
            Some(p) => "Found at "@ + p,
            None => "Not found in PATH"@,
        },
        metric: None,
        detail: path,
        action: if path is Some {
            None
        } else {
            Some(ActionView { label: "Install Ollama"@, command: "install-ollama"@ })
        },
    }
}

/// Whether the backend answers.
pub open spec fn backend_api(up: bool, url: Seq<char>) -> CheckView {
    CheckView {
        id: "ollama-api"@,
        name: "Ollama API"@,
        status: if up {
            CheckStatus::Pass
        } else {
            CheckStatus::Fail
        },
        message: if up {
            "API is running"@
        } else {
            "Connection refused"@
        },
        metric: None,
        detail: Some(url),
        action: if up {
            None
        } else {
            Some(ActionView { label: "Start Ollama"@, command: "start-ollama"@ })
        },
    }
}

/// Whether the backend has the base model. `listing` is the text of the
/// backend's inventory, empty where none came.
pub open spec fn base_model(present: bool, listing: Seq<char>) -> CheckView {
    CheckView {
        id: "base-model"@,
        name: "Base Model"@,
        status: if present {
            CheckStatus::Pass
        } else {
            CheckStatus::Fail
        },
        message: if present {
            "Base model available"@
        } else {
            "Base model not found"@
        },
        metric: None,
        detail: if listing.len() > 0 {
            Some(listing)
        } else {
            None
        },
        action: if present {
            None
        } else {
            Some(ActionView { label: "Pull Model"@, command: "pull-base-model"@ })
        },
    }
}

/// Whether the backend has the daemon's own model.
pub open spec fn daemon_model(present: bool) -> CheckView {
    CheckView {
        id: "daemon-model"@,
        name: "Daemon Model"@,
        status: if present {
            CheckStatus::Pass
        } else {
            CheckStatus::Fail
        },
        message: if present {
            "daemon model available"@
        } else {
            "daemon model not found"@
        },
        metric: None,
        detail: None,
        action: if present {
            None
        } else {
            Some(ActionView { label: "Create Model"@, command: "create-daemon-model"@ })
        },
    }
}

/// Whether a model is loaded; none is a warning, as an idle backend has none.
pub open spec fn model_loaded(loaded: Option<Seq<char>>) -> CheckView {
    CheckView {
        id: "model-loaded"@,
        name: "Model Loaded"@,
        status: if loaded is Some {
            CheckStatus::Pass
        } else {
            CheckStatus::Warn
        },
        message: match loaded {
            Some(m) => m + " loaded in memory"@,
            None => "No model loaded (normal if idle)"@,
        },
        metric: loaded,
        detail: None,
        action: None,
    }
}

/// `bytes` in tenths of a GiB, rounded to the nearest, a tie to the even.
pub open spec fn gib_tenths(bytes: nat) -> nat {
    rounded_quotient(bytes * 10, GIB as nat)
}

/// `bytes` in GiB, with one digit behind the point.
pub open spec fn gib_text(bytes: nat) -> Seq<char> {
    tenths(gib_tenths(bytes))
}

/// Tokens per second in tenths, rounded to the nearest, a tie to the even:
/// `count` tokens in `duration` nanoseconds.
pub open spec fn rate_tenths(count: nat, duration: nat) -> nat
    recommends
        duration > 0,
{
    rounded_quotient(count * 10 * NANOS_PER_SECOND as nat, duration)
}

/// Tokens per second, with one digit behind the point.
pub open spec fn rate_text(count: nat, duration: nat) -> Seq<char> {
    tenths(rate_tenths(count, duration))
}

/// Whether `count` tokens in `duration` nanoseconds are at least the slowest
/// generation that passes. The boundary passes.
pub open spec fn fast_enough(count: nat, duration: nat) -> bool {
    count * NANOS_PER_SECOND as nat >= SPEED_FLOOR as nat * duration
}

/// What the round trip through the model gave.
pub struct InferenceFacts {
    /// Whether a complete answer came.
    pub ok: bool,
    /// What to show of the exchange; empty where there is nothing.
    pub detail: Seq<char>,
    /// Tokens generated and the nanoseconds that it took, where the answer
    /// says both and the time is not zero.
    pub sample: Option<(nat, nat)>,
}

/// What the round trip through the model gave, as plain values.
#[derive(Debug, PartialEq, Eq)]
pub struct InferenceResult {
    /// Whether a complete answer came.
    pub ok: bool,
    /// What to show of the exchange; empty where there is nothing.
    pub detail: String,
    /// Tokens generated and the nanoseconds that it took.
    pub sample: Option<(u64, u64)>,
}

impl View for InferenceResult {
    type V = InferenceFacts;

    open spec fn view(&self) -> InferenceFacts {
        InferenceFacts {
            ok: self.ok,
            detail: self.detail@,
            sample: match self.sample {
                Some((count, duration)) => Some((count as nat, duration as nat)),
                None => None,
            },
        }
    }
}

/// The sample that a speed can be computed from: one whose time is not zero.
pub open spec fn usable_sample(sample: Option<(nat, nat)>) -> Option<(nat, nat)> {
    match sample {
        Some((count, duration)) => if duration > 0 {
            Some((count, duration))
        } else {
            None
        },
        None => None,
    }
}

/// Whether the model answers.
pub open spec fn inference(facts: InferenceFacts) -> CheckView {
    CheckView {
        id: "inference"@,
        name: "Inference"@,
        status: if facts.ok {
            CheckStatus::Pass
        } else {
            CheckStatus::Fail
        },
        message: if facts.ok {
            "Inference working"@
        } else {
            "Inference failed"@
        },
        metric: match usable_sample(facts.sample) {
            Some((count, duration)) => Some(rate_text(count, duration) + " tok/s"@),
            None => None,
        },
        detail: if facts.detail.len() > 0 {
            Some(facts.detail)
        } else {
            None
        },
        action: None,
    }
}

/// How fast the model answers. Without a complete answer there is nothing to
/// measure; with one that gives no figures there is no data.
pub open spec fn inference_speed(facts: InferenceFacts) -> CheckView {
    if !facts.ok {
        blocked_check("inference-speed"@, "Inference Speed"@, "inference unavailable"@)
    } else {
        match usable_sample(facts.sample) {
            Some((count, duration)) => CheckView {
                id: "inference-speed"@,
                name: "Inference Speed"@,
                status: if fast_enough(count, duration) {
                    CheckStatus::Pass
                } else {
                    CheckStatus::Warn
                },
                message: if fast_enough(count, duration) {
                    rate_text(count, duration) + " tokens/sec"@
                } else {
                    rate_text(count, duration) + " tokens/sec (slow)"@
                },
                metric: Some(rate_text(count, duration) + " tok/s"@),
                detail: None,
                action: None,
            },
            None => plain_check(
                "inference-speed"@,
                "Inference Speed"@,
                CheckStatus::Fail,
                "No data"@,
            ),
        }
    }
}

/// How much memory is available.
pub open spec fn system_ram(total: nat, available: nat, used: nat) -> CheckView {
    CheckView {
        id: "system-ram"@,
        name: "System RAM"@,
        status: if available < MEMORY_FLOOR {
            CheckStatus::Warn
        } else {
            CheckStatus::Pass
        },
        message: gib_text(used) + " GB / "@ + gib_text(total) + " GB used"@,
        metric: Some(gib_text(available) + " GB free"@),
        detail: Some(
            "Total: "@ + gib_text(total) + " GB, Used: "@ + gib_text(used) + " GB, Available: "@
                + gib_text(available) + " GB"@,
        ),
        action: None,
    }
}

/// How much disk space is free.
pub open spec fn disk_space(total: nat, free: nat) -> CheckView {
    CheckView {
        id: "disk-space"@,
        name: "Disk Space"@,
        status: if free < DISK_FLOOR {
            CheckStatus::Warn
        } else {
            CheckStatus::Pass
        },
        message: gib_text(free) + " GB free of "@ + gib_text(total) + " GB"@,
        metric: Some(gib_text(free) + " GB free"@),
        detail: None,
        action: None,
    }
}

/// Whether the daemon's command-line program was found; without it the
/// toolchain still works, so its absence is a warning.
pub open spec fn daemon_cli_installed(path: Option<Seq<char>>) -> CheckView {
    CheckView {
        id: "openclaw-installed"@,
        name: "OpenClaw Installed"@,
        status: if path is Some {
            CheckStatus::Pass
        } else {
            CheckStatus::Warn
        },
        message: match path {
            Some(p) => "Found at "@ + p,
            None => "Not found in PATH"@,
        },
        metric: None,
        detail: path,
        action: None,
    }
}

/// Whether the gateway answers.
pub open spec fn gateway(running: bool, url: Seq<char>) -> CheckView {
    CheckView {
        id: "openclaw-gateway"@,
        name: "OpenClaw Gateway"@,
        status: if running {
            CheckStatus::Pass
        } else {
            CheckStatus::Warn
        },
        message: if running {
            "Gateway running"@
        } else {
            "Gateway not running"@
        },
        metric: None,
        detail: Some(url),
        action: None,
    }
}

/// Appends the characters of `s` to `buf`.
pub fn push_str(buf: &mut Vec<char>, s: &str)
    ensures
        final(buf)@ == old(buf)@ + s@,
{
    let tail = chars_of(s);
    extend_chars(buf, &tail);
}

/// Appends `bytes` in GiB, with one digit behind the point.
pub fn push_gib(buf: &mut Vec<char>, bytes: u64)
    ensures
        final(buf)@ == old(buf)@ + gib_text(bytes as nat),
{
    let scaled: u128 = (bytes as u128) * 10;
    push_tenths(buf, round_div(scaled, GIB));
}

/// Appends tokens per second, with one digit behind the point.
pub fn push_rate(buf: &mut Vec<char>, count: u64, duration: u64)
    requires
        duration > 0,
    ensures
        final(buf)@ == old(buf)@ + rate_text(count as nat, duration as nat),
{
    let scaled: u128 = (count as u128) * 10_000_000_000;
    assert(scaled == count as nat * 10 * NANOS_PER_SECOND as nat);
    push_tenths(buf, round_div(scaled, duration));
}

/// Whether `count` tokens in `duration` nanoseconds pass.
pub fn is_fast_enough(count: u64, duration: u64) -> (b: bool)
    ensures
        b == fast_enough(count as nat, duration as nat),
{
    let reached: u128 = (count as u128) * 1_000_000_000;
    let wanted: u128 = (duration as u128) * 5;
    reached >= wanted
}

/// Two texts, one after the other.
pub fn joined(a: &str, b: &str) -> (out: String)
    ensures
        out@ == a@ + b@,
{
    let mut out = owned(a);
    out.append(b);
    out
}

/// A check with the given texts.
pub fn make_check(
    id: &str,
    name: &str,
    status: CheckStatus,
    message: String,
    metric: Option<String>,
    detail: Option<String>,
    action: Option<DiagnosticAction>,
) -> (out: DiagnosticCheck)
    ensures
        out@ == (CheckView {
            id: id@,
            name: name@,
            status,
            message: message@,
            metric: crate::diagnostics::optional_text(metric),
            detail: crate::diagnostics::optional_text(detail),
            action: match action {
                Some(a) => Some(a@),
                None => None,
            },
        }),
{
    DiagnosticCheck { id: owned(id), name: owned(name), status, message, metric, detail, action }
}

/// An action with the given texts.
pub fn make_action(label: &str, command: &str) -> (out: DiagnosticAction)
    ensures
        out@ == (ActionView { label: label@, command: command@ }),
{
    DiagnosticAction { label: owned(label), command: owned(command) }
}

/// The check for a probe that was not made.
pub fn blocked(id: &str, name: &str, reason: &str) -> (out: DiagnosticCheck)
    ensures
        out@ == blocked_check(id@, name@, reason@),
        is_blocked(out@),
{
    let message = joined("Cannot check — ", reason);
    proof {
        let prefix = "Cannot check — "@;
        assert(message@.subrange(0, 0 + prefix.len() as int) =~= prefix);
    }
    make_check(id, name, CheckStatus::Fail, message, None, None, None)
}

/// The check on the backend's program.
pub fn check_backend_installed(path: Option<String>) -> (out: DiagnosticCheck)
    ensures
        out@ == backend_installed(crate::diagnostics::optional_text(path)),
{
    match path {
        Some(p) => {
            let message = joined("Found at ", p.as_str());
            make_check(
                "ollama-installed",
                "Ollama Installed",
                CheckStatus::Pass,
                message,
                None,
                Some(p),
                None,
            )
        },
        None => make_check(
            "ollama-installed",
            "Ollama Installed",
            CheckStatus::Fail,
            owned("Not found in PATH"),
            None,
            None,
            Some(make_action("Install Ollama", "install-ollama")),
        ),
    }
}

/// The check on the backend's liveness.
pub fn check_backend_api(up: bool, url: &str) -> (out: DiagnosticCheck)
    ensures
        out@ == backend_api(up, url@),
{
    if up {
        make_check(
            "ollama-api",
            "Ollama API",
            CheckStatus::Pass,
            owned("API is running"),
            None,
            Some(owned(url)),
            None,
        )
    } else {
        make_check(
            "ollama-api",
            "Ollama API",
            CheckStatus::Fail,
            owned("Connection refused"),
            None,
            Some(owned(url)),
            Some(make_action("Start Ollama", "start-ollama")),
        )
    }
}

/// The check on the base model.
pub fn check_base_model(present: bool, listing: &str) -> (out: DiagnosticCheck)
    ensures
        out@ == base_model(present, listing@),
{
    let shown = owned(listing);
    let detail = if shown.as_str().unicode_len() > 0 {
        Some(shown)
    } else {
        None
    };
    if present {
        make_check(
            "base-model",
            "Base Model",
            CheckStatus::Pass,
            owned("Base model available"),
            None,
            detail,
            None,
        )
    } else {
        make_check(
            "base-model",
            "Base Model",
            CheckStatus::Fail,
            owned("Base model not found"),
            None,
            detail,
            Some(make_action("Pull Model", "pull-base-model")),
        )
    }
}

/// The check on the daemon's own model.
pub fn check_daemon_model(present: bool) -> (out: DiagnosticCheck)
    ensures
        out@ == daemon_model(present),
{
    if present {
        make_check(
            "daemon-model",
            "Daemon Model",
            CheckStatus::Pass,
            owned("daemon model available"),
            None,
            None,
            None,
        )
    } else {
        make_check(
            "daemon-model",
            "Daemon Model",
            CheckStatus::Fail,
            owned("daemon model not found"),
            None,
            None,
            Some(make_action("Create Model", "create-daemon-model")),
        )
    }
}

/// The check on the loaded model.
pub fn check_model_loaded(loaded: Option<String>) -> (out: DiagnosticCheck)
    ensures
        out@ == model_loaded(crate::diagnostics::optional_text(loaded)),
{
    match loaded {
        Some(m) => {
            let message = joined(m.as_str(), " loaded in memory");
            make_check(
                "model-loaded",
                "Model Loaded",
                CheckStatus::Pass,
                message,
                Some(m),
                None,
                None,
            )
        },
        None => make_check(
            "model-loaded",
            "Model Loaded",
            CheckStatus::Warn,
            owned("No model loaded (normal if idle)"),
            None,
            None,
            None,
        ),
    }
}

/// The sample that a speed can be computed from: one whose time is not zero.
pub fn usable(sample: Option<(u64, u64)>) -> (out: Option<(u64, u64)>)
    ensures
        out matches Some((_, duration)) ==> duration > 0,
        match usable_sample(
            match sample {
                Some((count, duration)) => Some((count as nat, duration as nat)),
                None => None,
            },
        ) {
            Some((count, duration)) => out == Some((count as u64, duration as u64)),
            None => out is None,
        },
{
    match sample {
        Some((count, duration)) => if duration > 0 {
            Some((count, duration))
        } else {
            None
        },
        None => None,
    }
}

/// The metric of a measured generation: tokens per second.
pub fn rate_metric(count: u64, duration: u64) -> (out: String)
    requires
        duration > 0,
    ensures
        out@ == rate_text(count as nat, duration as nat) + " tok/s"@,
{
    let mut metric: Vec<char> = Vec::new();
    push_rate(&mut metric, count, duration);
    push_str(&mut metric, " tok/s");
    proof {
        let e = Seq::<char>::empty();
        assert(e + rate_text(count as nat, duration as nat) =~= rate_text(
            count as nat,
            duration as nat,
        ));
    }
    string_of(&metric)
}

/// The check on the round trip through the model.
pub fn check_inference(result: &InferenceResult) -> (out: DiagnosticCheck)
    ensures
        out@ == inference(result@),
{
    let metric = match usable(result.sample) {
        Some((count, duration)) => Some(rate_metric(count, duration)),
        None => None,
    };
    let shown = result.detail.clone();
    let detail = if shown.as_str().unicode_len() > 0 {
        Some(shown)
    } else {
        None
    };
    if result.ok {
        make_check(
            "inference",
            "Inference",
            CheckStatus::Pass,
            owned("Inference working"),
            metric,
            detail,
            None,
        )
    } else {
        make_check(
            "inference",
            "Inference",
            CheckStatus::Fail,
            owned("Inference failed"),
            metric,
            detail,
            None,
        )
    }
}

/// The check on the speed of generation.
pub fn check_inference_speed(result: &InferenceResult) -> (out: DiagnosticCheck)
    ensures
        out@ == inference_speed(result@),
{
    if !result.ok {
        return blocked("inference-speed", "Inference Speed", "inference unavailable");
    }
    match usable(result.sample) {
        Some((count, duration)) => {
            let mut message: Vec<char> = Vec::new();
            push_rate(&mut message, count, duration);
            proof {
                let e = Seq::<char>::empty();
                assert(e + rate_text(count as nat, duration as nat) =~= rate_text(
                    count as nat,
                    duration as nat,
                ));
            }
            if is_fast_enough(count, duration) {
                push_str(&mut message, " tokens/sec");
                make_check(
                    "inference-speed",
                    "Inference Speed",
                    CheckStatus::Pass,
                    string_of(&message),
                    Some(rate_metric(count, duration)),
                    None,
                    None,
                )
            } else {
                push_str(&mut message, " tokens/sec (slow)");
                make_check(
                    "inference-speed",
                    "Inference Speed",
                    CheckStatus::Warn,
                    string_of(&message),
                    Some(rate_metric(count, duration)),
                    None,
                    None,
                )
            }
        },
        None => make_check(
            "inference-speed",
            "Inference Speed",
            CheckStatus::Fail,
            owned("No data"),
            None,
            None,
            None,
        ),
    }
}

/// The check on memory.
pub fn check_system_ram(total: u64, available: u64, used: u64) -> (out: DiagnosticCheck)
    ensures
        out@ == system_ram(total as nat, available as nat, used as nat),
{
    let status = if available < MEMORY_FLOOR {
        CheckStatus::Warn
    } else {
        CheckStatus::Pass
    };
    let mut message: Vec<char> = Vec::new();
    push_gib(&mut message, used);
    push_str(&mut message, " GB / ");
    push_gib(&mut message, total);
    push_str(&mut message, " GB used");
    let mut metric: Vec<char> = Vec::new();
    push_gib(&mut metric, available);
    push_str(&mut metric, " GB free");
    let mut detail: Vec<char> = Vec::new();
    push_str(&mut detail, "Total: ");
    push_gib(&mut detail, total);
    push_str(&mut detail, " GB, Used: ");
    push_gib(&mut detail, used);
    push_str(&mut detail, " GB, Available: ");
    push_gib(&mut detail, available);
    push_str(&mut detail, " GB");
    proof {
        let e = Seq::<char>::empty();
        assert(e + gib_text(used as nat) =~= gib_text(used as nat));
        assert(e + gib_text(available as nat) =~= gib_text(available as nat));
        assert(e + "Total: "@ =~= "Total: "@);
    }
    make_check(
        "system-ram",
        "System RAM",
        status,
        string_of(&message),
        Some(string_of(&metric)),
        Some(string_of(&detail)),
        None,
    )
}

/// The check on disk space.
pub fn check_disk_space(total: u64, free: u64) -> (out: DiagnosticCheck)
    ensures
        out@ == disk_space(total as nat, free as nat),
{
    let status = if free < DISK_FLOOR {
        CheckStatus::Warn
    } else {
        CheckStatus::Pass
    };
    let mut message: Vec<char> = Vec::new();
    push_gib(&mut message, free);
    push_str(&mut message, " GB free of ");
    push_gib(&mut message, total);
    push_str(&mut message, " GB");
    let mut metric: Vec<char> = Vec::new();
    push_gib(&mut metric, free);
    push_str(&mut metric, " GB free");
    proof {
        let e = Seq::<char>::empty();
        assert(e + gib_text(free as nat) =~= gib_text(free as nat));
    }
    make_check(
        "disk-space",
        "Disk Space",
        status,
        string_of(&message),
        Some(string_of(&metric)),
        None,
        None,
    )
}

/// The check on the daemon's command-line program.
pub fn check_daemon_cli_installed(path: Option<String>) -> (out: DiagnosticCheck)
    ensures
        out@ == daemon_cli_installed(crate::diagnostics::optional_text(path)),
{
    match path {
        Some(p) => {
            let message = joined("Found at ", p.as_str());
            make_check(
                "openclaw-installed",
                "OpenClaw Installed",
                CheckStatus::Pass,
                message,
                None,
                Some(p),
                None,
            )
        },
        None => make_check(
            "openclaw-installed",
            "OpenClaw Installed",
            CheckStatus::Warn,
            owned("Not found in PATH"),
            None,
            None,
            None,
        ),
    }
}

/// The check on the gateway's liveness.
pub fn check_gateway(running: bool, url: &str) -> (out: DiagnosticCheck)
    ensures
        out@ == gateway(running, url@),
{
    if running {
        make_check(
            "openclaw-gateway",
            "OpenClaw Gateway",
            CheckStatus::Pass,
            owned("Gateway running"),
            None,
            Some(owned(url)),
            None,
        )
    } else {
        make_check(
            "openclaw-gateway",
            "OpenClaw Gateway",
            CheckStatus::Warn,
            owned("Gateway not running"),
            None,
            Some(owned(url)),
            None,
        )
    }
}

} // verus!
