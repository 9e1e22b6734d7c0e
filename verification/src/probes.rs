//! The health battery as a state machine.
//!
//! The runner says which observation it needs next; the caller makes it and
//! hands it back. A probe whose prerequisite is not met is never asked for:
//! the runner writes its check itself and moves on.

use crate::checks::{
    backend_api, backend_installed, base_model, blocked, blocked_check, check_backend_api,
    check_backend_installed, check_base_model, check_daemon_cli_installed, check_daemon_model,
    check_disk_space, check_gateway, check_inference, check_inference_speed, check_model_loaded,
    check_system_ram, daemon_cli_installed, daemon_model, disk_space, gateway, inference,
    inference_speed, is_blocked, joined, model_loaded, push_str, system_ram, InferenceFacts,
    InferenceResult,
};
use crate::diagnostics::{
    checks_view, optional_text, CheckView, DiagnosticCheck, DiagnosticsReport, SystemInfo,
};
use crate::json::{parse_text, parsed_text};
use crate::ollama::{read_running_models, running_models, running_views};
use crate::replies::{chat_reply, model_names, read_chat_reply, read_model_names, texts};
use crate::text::{
    chars_of, decimal, first_line, line_at, line_end, occurs_at, owned, push_decimal, starts_at,
    string_of, trim, trimmed,
};
use vstd::prelude::*;

verus! {

/// An observation that the runner can ask for.
#[derive(Clone, Copy, Debug, PartialEq, Eq, Structural)]
pub enum ProbeRequest {
    /// Look for the backend's program.
    LocateBackend,
    /// Ask the backend whether it is there.
    BackendLiveness,
    /// Ask the backend for its models.
    ModelInventory,
    /// Ask the backend for the models that it has loaded.
    LoadedModels,
    /// Send the daemon's model one message and wait for the answer.
    InferenceRoundTrip,
    /// Read the machine's memory figures.
    Memory,
    /// Read the machine's disks.
    Disks,
    /// Look for the daemon's command-line program.
    LocateDaemonCli,
    /// Ask the gateway whether it is there.
    GatewayLiveness,
}

/// How the round trip through the model ended.
#[derive(Debug, PartialEq, Eq)]
pub enum InferenceOutcome {
    /// The request failed; the text says how.
    Failed(String),
    /// An answer came, after so many milliseconds.
    Replied { body: String, latency_ms: u64 },
}

/// One disk of the machine.
#[derive(Debug, PartialEq, Eq)]
pub struct DiskFigures {
    pub mount: String,
    pub total: u64,
    pub available: u64,
}

/// What the caller observed for a request.
#[derive(Debug, PartialEq, Eq)]
pub enum Observation {
    /// Where a program was found, if it was.
    Located(Option<String>),
    /// Whether the backend gave a success response.
    Liveness(bool),
    /// The body of the backend's reply, `None` where the request failed.
    Body(Option<String>),
    /// How the round trip ended.
    Inference(InferenceOutcome),
    /// The memory figures, in bytes.
    Memory { total: u64, available: u64, used: u64 },
    /// The disks.
    Disks(Vec<DiskFigures>),
    /// The status code of the gateway's response, `None` where none came.
    Gateway(Option<u16>),
}

/// The model of a [`ProbeRunner`].
pub struct ProbeState {
    /// What the runner asks for next; `None` once the battery is through.
    pub pending: Option<ProbeRequest>,
    /// Where the backend is.
    pub backend_url: Seq<char>,
    /// Where the gateway is.
    pub gateway_url: Seq<char>,
    /// Whether the backend has the daemon's model.
    pub has_daemon_model: bool,
    /// The checks made so far, in order.
    pub checks: Seq<CheckView>,
}

/// Whether `name` names the model `model`: it is `model` itself, or `model`
/// followed by a colon and a tag.
pub open spec fn names_model(name: Seq<char>, model: Seq<char>) -> bool {
    name == model || occurs_at(name, model + ":"@, 0)
}

/// Whether one of the names names the model.
pub open spec fn has_model(names: Seq<Seq<char>>, model: Seq<char>) -> bool {
    exists|i: int| 0 <= i < names.len() && names_model(#[trigger] names[i], model)
}

/// Whether the names hold the daemon's own model.
pub open spec fn has_daemon(names: Seq<Seq<char>>) -> bool {
    has_model(names, "daemon"@)
}

/// Whether the names hold a base model: the one that the daemon's model is
/// built from, or the daemon's model itself.
pub open spec fn has_base(names: Seq<Seq<char>>) -> bool {
    has_model(names, "qwen2.5-coder:7b"@) || has_model(names, "daemon"@)
}

/// The models that a reply's body lists; none where there is no body or it
/// cannot be read.
pub open spec fn listed_names(body: Option<Seq<char>>) -> Seq<Seq<char>> {
    match body {
        Some(text) => match parsed_text(text) {
            Some(tree) => match model_names(tree) {
                Some(names) => names,
                None => Seq::empty(),
            },
            None => Seq::empty(),
        },
        None => Seq::empty(),
    }
}

/// The name of the first model that the reply on loaded models lists; none
/// where there is no body, or the body cannot be read as such a reply, or it
/// lists no model.
pub open spec fn first_loaded(body: Option<Seq<char>>) -> Option<Seq<char>> {
    match body {
        Some(text) => match parsed_text(text) {
            Some(tree) => match running_models(tree) {
                Some(list) => if list.len() > 0 {
                    Some(list[0].name)
                } else {
                    None
                },
                None => None,
            },
            None => None,
        },
        None => None,
    }
}

/// The text of a body, empty where there is none.
pub open spec fn body_text(body: Option<Seq<char>>) -> Seq<char> {
    match body {
        Some(text) => text,
        None => Seq::empty(),
    }
}

/// Nothing came of the round trip, and nothing is to be shown.
pub open spec fn no_answer() -> InferenceFacts {
    InferenceFacts { ok: false, detail: Seq::empty(), sample: None }
}

/// What a round trip gave: a complete answer counts, with its text and the
/// time that it took; a failed request leaves its error to show.
pub open spec fn inference_facts(outcome: InferenceOutcome) -> InferenceFacts {
    match outcome {
        InferenceOutcome::Failed(error) => InferenceFacts {
            ok: false,
            detail: "Error: "@ + error@,
            sample: None,
        },
        InferenceOutcome::Replied { body, latency_ms } => match parsed_text(body@) {
            Some(tree) => match chat_reply(tree) {
                Some(reply) => if reply.done == Some(true) {
                    InferenceFacts {
                        ok: true,
                        detail: "Response: "@ + body_text(reply.content) + "\nLatency: "@
                            + decimal(latency_ms as nat) + "ms"@,
                        sample: match (reply.eval_count, reply.eval_duration) {
                            (Some(count), Some(duration)) => Some((count, duration)),
                            _ => None,
                        },
                    }
                } else {
                    no_answer()
                },
                None => no_answer(),
            },
            None => no_answer(),
        },
    }
}

/// The path that a lookup of a program gives: the first line of what the
/// lookup wrote, trimmed, where the lookup succeeded and wrote anything.
pub open spec fn located(succeeded: bool, stdout: Seq<char>) -> Option<Seq<char>> {
    if succeeded && trim(stdout).len() > 0 {
        Some(first_line(trim(stdout)))
    } else {
        None
    }
}

/// Whether a mount point is the root of the system's disk.
pub open spec fn is_root_mount(mount: Seq<char>) -> bool {
    mount == "/"@ || mount == "C:\\"@
}

/// The first disk that is mounted at the root, if there is one.
pub open spec fn root_disk(disks: Seq<DiskFigures>) -> Option<DiskFigures>
    decreases disks.len(),
{
    if disks.len() == 0 {
        None
    } else if is_root_mount(disks.first().mount@) {
        Some(disks.first())
    } else {
        root_disk(disks.drop_first())
    }
}

/// Size and free space of the disk that counts: the one at the root, else
/// the first, else nothing.
pub open spec fn disk_figures(disks: Seq<DiskFigures>) -> (nat, nat) {
    match root_disk(disks) {
        Some(disk) => (disk.total as nat, disk.available as nat),
        None => if disks.len() > 0 {
            (disks.first().total as nat, disks.first().available as nat)
        } else {
            (0, 0)
        },
    }
}

/// Whether a response with this status code shows a running gateway: any
/// code below 500 does, a client error too.
pub open spec fn gateway_answers(code: Option<u16>) -> bool {
    code matches Some(c) && c < 500
}

/// The checks that stand for the probes that an unreachable backend blocks.
pub open spec fn offline_checks() -> Seq<CheckView> {
    seq![
        blocked_check("base-model"@, "Base Model"@, "API offline"@),
        blocked_check("daemon-model"@, "Daemon Model"@, "API offline"@),
        blocked_check("model-loaded"@, "Model Loaded"@, "API offline"@),
        blocked_check("inference"@, "Inference"@, "API offline"@),
        blocked_check("inference-speed"@, "Inference Speed"@, "API offline"@),
    ]
}

/// The checks that stand for the probes that a missing daemon model blocks.
pub open spec fn modelless_checks() -> Seq<CheckView> {
    seq![
        blocked_check("inference"@, "Inference"@, "daemon model missing"@),
        blocked_check("inference-speed"@, "Inference Speed"@, "daemon model missing"@),
    ]
}

/// Whether the observation is the one that the runner waits for.
pub open spec fn fits(pending: Option<ProbeRequest>, obs: Observation) -> bool {
    match pending {
        Some(ProbeRequest::LocateBackend) => obs is Located,
        Some(ProbeRequest::BackendLiveness) => obs is Liveness,
        Some(ProbeRequest::ModelInventory) => obs is Body,
        Some(ProbeRequest::LoadedModels) => obs is Body,
        Some(ProbeRequest::InferenceRoundTrip) => obs is Inference,
        Some(ProbeRequest::Memory) => obs is Memory,
        Some(ProbeRequest::Disks) => obs is Disks,
        Some(ProbeRequest::LocateDaemonCli) => obs is Located,
        Some(ProbeRequest::GatewayLiveness) => obs is Gateway,
        None => false,
    }
}

/// The state after an observation. One that the runner does not wait for
/// changes nothing.
pub open spec fn step(s: ProbeState, obs: Observation) -> ProbeState {
    if !fits(s.pending, obs) {
        s
    } else {
        match obs {
            Observation::Located(path) => if s.pending == Some(ProbeRequest::LocateBackend) {
                ProbeState {
                    pending: Some(ProbeRequest::BackendLiveness),
                    checks: s.checks.push(backend_installed(optional_text(path))),
                    ..s
                }
            } else {
                ProbeState {
                    pending: Some(ProbeRequest::GatewayLiveness),
                    checks: s.checks.push(daemon_cli_installed(optional_text(path))),
                    ..s
                }
            },
            Observation::Liveness(up) => if up {
                ProbeState {
                    pending: Some(ProbeRequest::ModelInventory),
                    checks: s.checks.push(backend_api(true, s.backend_url)),
                    ..s
                }
            } else {
                ProbeState {
                    pending: Some(ProbeRequest::Memory),
                    checks: s.checks.push(backend_api(false, s.backend_url)) + offline_checks(),
                    ..s
                }
            },
            Observation::Body(body) => if s.pending == Some(ProbeRequest::ModelInventory) {
                let names = listed_names(optional_text(body));
                ProbeState {
                    pending: Some(ProbeRequest::LoadedModels),
                    has_daemon_model: has_daemon(names),
                    checks: s.checks.push(
                        base_model(has_base(names), body_text(optional_text(body))),
                    ).push(daemon_model(has_daemon(names))),
                    ..s
                }
            } else if s.has_daemon_model {
                ProbeState {
                    pending: Some(ProbeRequest::InferenceRoundTrip),
                    checks: s.checks.push(model_loaded(first_loaded(optional_text(body)))),
                    ..s
                }
            } else {
                ProbeState {
                    pending: Some(ProbeRequest::Memory),
                    checks: s.checks.push(model_loaded(first_loaded(optional_text(body))))
                        + modelless_checks(),
                    ..s
                }
            },
            Observation::Inference(outcome) => ProbeState {
                pending: Some(ProbeRequest::Memory),
                checks: s.checks.push(inference(inference_facts(outcome))).push(
                    inference_speed(inference_facts(outcome)),
                ),
                ..s
            },
            Observation::Memory { total, available, used } => ProbeState {
                pending: Some(ProbeRequest::Disks),
                checks: s.checks.push(system_ram(total as nat, available as nat, used as nat)),
                ..s
            },
            Observation::Disks(disks) => ProbeState {
                pending: Some(ProbeRequest::LocateDaemonCli),
                checks: s.checks.push(
                    disk_space(disk_figures(disks@).0, disk_figures(disks@).1),
                ),
                ..s
            },
            Observation::Gateway(code) => ProbeState {
                pending: None,
                checks: s.checks.push(gateway(gateway_answers(code), s.gateway_url)),
                ..s
            },
        }
    }
}

/// The state after a row of observations, taken one after the other.
pub open spec fn run(s: ProbeState, observations: Seq<Observation>) -> ProbeState
    decreases observations.len(),
{
    if observations.len() == 0 {
        s
    } else {
        step(run(s, observations.drop_last()), observations.last())
    }
}

/// Whether the request goes to the backend.
pub open spec fn asks_backend(pending: Option<ProbeRequest>) -> bool {
    pending == Some(ProbeRequest::BackendLiveness) || pending == Some(ProbeRequest::ModelInventory)
        || pending == Some(ProbeRequest::LoadedModels) || pending == Some(
        ProbeRequest::InferenceRoundTrip,
    )
}

/// Whether the battery has left the backend's probes behind.
pub open spec fn past_backend(pending: Option<ProbeRequest>) -> bool {
    pending != Some(ProbeRequest::LocateBackend) && !asks_backend(pending)
}

/// Whether `name` names the model `model`.
pub fn name_is_model(name: &String, model: &str) -> (b: bool)
    ensures
        b == names_model(name@, model@),
{
    let wanted = owned(model);
    if *name == wanted {
        return true;
    }
    let tagged = joined(model, ":");
    let hay = chars_of(name.as_str());
    let needle = chars_of(tagged.as_str());
    starts_at(&hay, &needle, 0)
}

/// Whether one of the names names the model.
pub fn names_hold_model(names: &Vec<String>, model: &str) -> (b: bool)
    ensures
        b == has_model(texts(names@), model@),
{
    let mut i: usize = 0;
    while i < names.len()
        invariant
            i <= names.len(),
            forall|j: int| 0 <= j < i ==> !names_model(#[trigger] texts(names@)[j], model@),
        decreases names.len() - i,
    {
        if name_is_model(&names[i], model) {
            assert(names_model(texts(names@)[i as int], model@));
            return true;
        }
        i += 1;
    }
    false
}

/// Reads the models that a reply's body lists.
pub fn read_listed_names(body: &Option<String>) -> (names: Vec<String>)
    ensures
        texts(names@) == listed_names(optional_text(*body)),
{
    let ghost none = Seq::<String>::empty();
    assert(texts(none) =~= Seq::<Seq<char>>::empty());
    match body {
        Some(text) => match parse_text(text.as_str()) {
            Ok(tree) => match read_model_names(&tree) {
                Some(names) => names,
                None => Vec::new(),
            },
            Err(_) => Vec::new(),
        },
        None => Vec::new(),
    }
}

/// Reads the name of the first model that the reply on loaded models lists.
pub fn read_first_loaded(body: &Option<String>) -> (loaded: Option<String>)
    ensures
        optional_text(loaded) == first_loaded(optional_text(*body)),
{
    let text = match body {
        Some(text) => text,
        None => {
            return None;
        },
    };
    let tree = match parse_text(text.as_str()) {
        Ok(tree) => tree,
        Err(_) => {
            return None;
        },
    };
    match read_running_models(&tree) {
        Some(list) => {
            let mut list = list;
            let ghost listed = running_views(list@);
            if list.len() > 0 {
                let first = list.swap_remove(0);
                assert(first@ == listed[0]);
                Some(first.name)
            } else {
                None
            }
        },
        None => None,
    }
}

/// Reads what a round trip gave.
pub fn read_inference(outcome: &InferenceOutcome) -> (out: InferenceResult)
    ensures
        out@ == inference_facts(*outcome),
{
    match outcome {
        InferenceOutcome::Failed(error) => InferenceResult {
            ok: false,
            detail: joined("Error: ", error.as_str()),
            sample: None,
        },
        InferenceOutcome::Replied { body, latency_ms } => {
            let reply = match parse_text(body.as_str()) {
                Ok(tree) => read_chat_reply(&tree),
                Err(_) => None,
            };
            match reply {
                Some(reply) => {
                    let complete = match reply.done {
                        Some(done) => done,
                        None => false,
                    };
                    if !complete {
                        return InferenceResult { ok: false, detail: String::new(), sample: None };
                    }
                    let mut detail: Vec<char> = Vec::new();
                    push_str(&mut detail, "Response: ");
                    match &reply.content {
                        Some(content) => {
                            push_str(&mut detail, content.as_str());
                        },
                        None => {},
                    }
                    push_str(&mut detail, "\nLatency: ");
                    push_decimal(&mut detail, *latency_ms as u128);
                    push_str(&mut detail, "ms");
                    let sample = match (reply.eval_count, reply.eval_duration) {
                        (Some(count), Some(duration)) => Some((count, duration)),
                        _ => None,
                    };
                    proof {
                        let e = Seq::<char>::empty();
                        assert(e + "Response: "@ =~= "Response: "@);
                        assert("Response: "@ + e =~= "Response: "@);
                    }
                    InferenceResult { ok: true, detail: string_of(&detail), sample }
                },
                None => InferenceResult { ok: false, detail: String::new(), sample: None },
            }
        },
    }
}

/// The check that stands for a probe that was not made says so: it fails,
/// and its message begins with the words for that.
pub proof fn lemma_blocked_check_is_blocked(id: Seq<char>, name: Seq<char>, reason: Seq<char>)
    ensures
        is_blocked(blocked_check(id, name, reason)),
{
    let prefix = "Cannot check — "@;
    assert((prefix + reason).subrange(0, 0 + prefix.len() as int) =~= prefix);
}

/// Once the battery has left the backend's probes behind, no observation
/// brings it back to them, and none changes a check that was made.
pub proof fn lemma_step_past_backend(s: ProbeState, obs: Observation)
    requires
        past_backend(s.pending),
    ensures
        past_backend(step(s, obs).pending),
        step(s, obs).checks.len() >= s.checks.len(),
        step(s, obs).checks.subrange(0, s.checks.len() as int) == s.checks,
{
    let after = step(s, obs);
    assert(after.checks.subrange(0, s.checks.len() as int) =~= s.checks);
}

/// Where the backend does not answer the liveness probe, the runner asks it
/// nothing more, whatever is observed afterwards: each of the five probes
/// that depend on the backend gets a check that fails and says that it
/// could not be made, and the battery goes on with the probes of the
/// machine.
pub proof fn law_offline_backend_blocks_dependents(s: ProbeState, later: Seq<Observation>)
    requires
        s.pending == Some(ProbeRequest::BackendLiveness),
    ensures
        ({
            let start = step(s, Observation::Liveness(false));
            let end = run(start, later);
            let n = s.checks.len() as int;
            &&& start.pending == Some(ProbeRequest::Memory)
            &&& past_backend(end.pending)
            &&& !asks_backend(end.pending)
            &&& end.checks.len() >= n + 6
            &&& end.checks.subrange(0, n) == s.checks
            &&& end.checks[n] == backend_api(false, s.backend_url)
            &&& end.checks.subrange(n + 1, n + 6) == offline_checks()
            &&& forall|i: int| n + 1 <= i < n + 6 ==> is_blocked(#[trigger] end.checks[i])
        }),
    decreases later.len(),
{
    let start = step(s, Observation::Liveness(false));
    let n = s.checks.len() as int;
    assert(start.checks.len() == n + 6);
    assert(start.checks.subrange(0, n) =~= s.checks);
    assert(start.checks.subrange(n + 1, n + 6) =~= offline_checks());
    lemma_blocked_check_is_blocked("base-model"@, "Base Model"@, "API offline"@);
    lemma_blocked_check_is_blocked("daemon-model"@, "Daemon Model"@, "API offline"@);
    lemma_blocked_check_is_blocked("model-loaded"@, "Model Loaded"@, "API offline"@);
    lemma_blocked_check_is_blocked("inference"@, "Inference"@, "API offline"@);
    lemma_blocked_check_is_blocked("inference-speed"@, "Inference Speed"@, "API offline"@);
    if later.len() == 0 {
        assert forall|i: int| n + 1 <= i < n + 6 implies is_blocked(
            #[trigger] start.checks[i],
        ) by {
            assert(start.checks[i] == offline_checks()[i - n - 1]);
        }
    } else {
        law_offline_backend_blocks_dependents(s, later.drop_last());
        let mid = run(start, later.drop_last());
        let end = run(start, later);
        lemma_step_past_backend(mid, later.last());
        assert(end.checks.subrange(0, mid.checks.len() as int) == mid.checks);
        assert forall|i: int| 0 <= i < n + 6 implies end.checks[i] == mid.checks[i] by {
            assert(end.checks.subrange(0, mid.checks.len() as int)[i] == end.checks[i]);
        }
        assert(end.checks.subrange(0, n) =~= mid.checks.subrange(0, n));
        assert(end.checks.subrange(n + 1, n + 6) =~= mid.checks.subrange(n + 1, n + 6));
    }
}

/// Where the backend has no daemon model, the runner does not try the round
/// trip: the two probes that depend on the model get a check that fails and
/// says that it could not be made.
pub proof fn law_missing_model_blocks_inference(s: ProbeState, body: Option<String>)
    requires
        s.pending == Some(ProbeRequest::LoadedModels),
        !s.has_daemon_model,
    ensures
        ({
            let end = step(s, Observation::Body(body));
            let n = s.checks.len() as int;
            &&& end.pending == Some(ProbeRequest::Memory)
            &&& end.checks.len() == n + 3
            &&& is_blocked(end.checks[n + 1])
            &&& is_blocked(end.checks[n + 2])
        }),
{
    lemma_blocked_check_is_blocked("inference"@, "Inference"@, "daemon model missing"@);
    lemma_blocked_check_is_blocked("inference-speed"@, "Inference Speed"@, "daemon model missing"@);
}

/// The number of checks that are made before a request is pending.
pub open spec fn checks_before(pending: Option<ProbeRequest>) -> nat {
    match pending {
        Some(ProbeRequest::LocateBackend) => 0,
        Some(ProbeRequest::BackendLiveness) => 1,
        Some(ProbeRequest::ModelInventory) => 2,
        Some(ProbeRequest::LoadedModels) => 4,
        Some(ProbeRequest::InferenceRoundTrip) => 5,
        Some(ProbeRequest::Memory) => 7,
        Some(ProbeRequest::Disks) => 8,
        Some(ProbeRequest::LocateDaemonCli) => 9,
        Some(ProbeRequest::GatewayLiveness) => 10,
        None => 11,
    }
}

/// The identifiers of the checks of a battery, in the order in which they
/// are made.
pub open spec fn check_ids() -> Seq<Seq<char>> {
    seq![
        "ollama-installed"@,
        "ollama-api"@,
        "base-model"@,
        "daemon-model"@,
        "model-loaded"@,
        "inference"@,
        "inference-speed"@,
        "system-ram"@,
        "disk-space"@,
        "openclaw-installed"@,
        "openclaw-gateway"@,
    ]
}

/// Whether the checks made so far are the ones that belong before the
/// pending request, each in its place.
pub open spec fn in_order(s: ProbeState) -> bool {
    &&& s.checks.len() == checks_before(s.pending)
    &&& forall|i: int| 0 <= i < s.checks.len() ==> (#[trigger] s.checks[i]).id == check_ids()[i]
}

/// A battery starts in order, and every observation keeps it so: a battery
/// that is through has made its eleven checks, each in its place.
pub proof fn law_checks_in_order(s: ProbeState, obs: Observation)
    requires
        in_order(s),
    ensures
        in_order(initial_state(s.backend_url, s.gateway_url)),
        in_order(step(s, obs)),
{
}

/// Reads the path of a program from the outcome of looking it up: whether
/// the lookup succeeded, and what it wrote.
pub fn check_binary_in_path(succeeded: bool, stdout: &str) -> (path: Option<String>)
    ensures
        optional_text(path) == located(succeeded, stdout@),
{
    if !succeeded {
        return None;
    }
    let text = trimmed(&chars_of(stdout));
    if text.len() == 0 {
        return None;
    }
    assert(text@.subrange(0, text.len() as int) =~= text@);
    let end = line_end(&text, 0);
    let line = line_at(&text, 0, end);
    Some(string_of(&line))
}

/// Whether a disk is mounted at the root.
pub fn mounted_at_root(disk: &DiskFigures) -> (b: bool)
    ensures
        b == is_root_mount(disk.mount@),
{
    disk.mount == owned("/") || disk.mount == owned("C:\\")
}

/// Size and free space of the disk that counts.
pub fn choose_disk(disks: &Vec<DiskFigures>) -> (out: (u64, u64))
    ensures
        (out.0 as nat, out.1 as nat) == disk_figures(disks@),
{
    let mut i: usize = 0;
    assert(disks@.subrange(0, disks.len() as int) =~= disks@);
    while i < disks.len()
        invariant
            i <= disks.len(),
            root_disk(disks@) == root_disk(disks@.subrange(i as int, disks.len() as int)),
        decreases disks.len() - i,
    {
        proof {
            let rest = disks@.subrange(i as int, disks.len() as int);
            assert(rest.first() == disks@[i as int]);
            assert(rest.drop_first() =~= disks@.subrange(i + 1, disks.len() as int));
        }
        if mounted_at_root(&disks[i]) {
            return (disks[i].total, disks[i].available);
        }
        i += 1;
    }
    if disks.len() > 0 {
        (disks[0].total, disks[0].available)
    } else {
        (0, 0)
    }
}

/// Whether a response with this status code shows a running gateway.
pub fn gateway_running(code: Option<u16>) -> (b: bool)
    ensures
        b == gateway_answers(code),
{
    match code {
        Some(c) => c < 500,
        None => false,
    }
}

/// The figures of the machine, with the disk that counts. A processor
/// without a name is shown as `Unknown`.
pub fn system_info(
    total_ram: u64,
    available_ram: u64,
    used_ram: u64,
    disks: &Vec<DiskFigures>,
    cpu_brand: Option<String>,
    cpu_count: usize,
) -> (info: SystemInfo)
    ensures
        info.total_ram == total_ram,
        info.available_ram == available_ram,
        info.used_ram == used_ram,
        (info.total_disk as nat, info.free_disk as nat) == disk_figures(disks@),
        info.cpu_brand@ == (match cpu_brand {
            Some(brand) => brand@,
            None => "Unknown"@,
        }),
        info.cpu_count == cpu_count,
{
    let (total_disk, free_disk) = choose_disk(disks);
    let cpu_brand = match cpu_brand {
        Some(brand) => brand,
        None => owned("Unknown"),
    };
    SystemInfo { total_ram, available_ram, used_ram, total_disk, free_disk, cpu_brand, cpu_count }
}

/// Runs the health battery: asks for one observation after the other and
/// writes the checks.
pub struct ProbeRunner {
    pending: Option<ProbeRequest>,
    backend_url: String,
    gateway_url: String,
    has_daemon_model: bool,
    checks: Vec<DiagnosticCheck>,
}

impl View for ProbeRunner {
    type V = ProbeState;

    closed spec fn view(&self) -> ProbeState {
        ProbeState {
            pending: self.pending,
            backend_url: self.backend_url@,
            gateway_url: self.gateway_url@,
            has_daemon_model: self.has_daemon_model,
            checks: checks_view(self.checks@),
        }
    }
}

/// The state in which a battery starts.
pub open spec fn initial_state(backend_url: Seq<char>, gateway_url: Seq<char>) -> ProbeState {
    ProbeState {
        pending: Some(ProbeRequest::LocateBackend),
        backend_url,
        gateway_url,
        has_daemon_model: false,
        checks: Seq::empty(),
    }
}

impl ProbeRunner {
    /// A runner at the start of the battery, for a backend and a gateway at
    /// the given addresses.
    pub fn new(backend_url: &str, gateway_url: &str) -> (runner: ProbeRunner)
        ensures
            runner@ == initial_state(backend_url@, gateway_url@),
    {
        let runner = ProbeRunner {
            pending: Some(ProbeRequest::LocateBackend),
            backend_url: owned(backend_url),
            gateway_url: owned(gateway_url),
            has_daemon_model: false,
            checks: Vec::new(),
        };
        assert(checks_view(runner.checks@) =~= Seq::<CheckView>::empty());
        runner
    }

    /// What the runner asks for next; `None` once the battery is through.
    pub fn pending(&self) -> (out: Option<ProbeRequest>)
        ensures
            out == self@.pending,
    {
        self.pending
    }

    /// The checks made so far.
    pub fn checks(&self) -> (out: &Vec<DiagnosticCheck>)
        ensures
            checks_view(out@) == self@.checks,
    {
        &self.checks
    }

    /// Writes down one check.
    fn note(&mut self, check: DiagnosticCheck)
        ensures
            final(self)@ == (ProbeState { checks: old(self)@.checks.push(check@), ..old(self)@ }),
    {
        let ghost before = self.checks@;
        self.checks.push(check);
        assert(checks_view(self.checks@) =~= checks_view(before).push(check@));
    }

    /// Writes down the checks of the probes that an unreachable backend
    /// blocks.
    fn note_offline(&mut self)
        ensures
            final(self)@ == (ProbeState {
                checks: old(self)@.checks + offline_checks(),
                ..old(self)@
            }),
    {
        self.note(blocked("base-model", "Base Model", "API offline"));
        self.note(blocked("daemon-model", "Daemon Model", "API offline"));
        self.note(blocked("model-loaded", "Model Loaded", "API offline"));
        self.note(blocked("inference", "Inference", "API offline"));
        self.note(blocked("inference-speed", "Inference Speed", "API offline"));
        assert(self@.checks =~= old(self)@.checks + offline_checks());
    }

    /// Writes down the checks of the probes that a missing daemon model
    /// blocks.
    fn note_modelless(&mut self)
        ensures
            final(self)@ == (ProbeState {
                checks: old(self)@.checks + modelless_checks(),
                ..old(self)@
            }),
    {
        self.note(blocked("inference", "Inference", "daemon model missing"));
        self.note(blocked("inference-speed", "Inference Speed", "daemon model missing"));
        assert(self@.checks =~= old(self)@.checks + modelless_checks());
    }

    /// Takes an observation. Where it is the one that the runner waits for,
    /// the runner writes the checks that follow from it and moves on, past
    /// every probe that the observation blocks; the result is `true`.
    /// Otherwise nothing changes, and the result is `false`.
    pub fn record(&mut self, obs: Observation) -> (accepted: bool)
        ensures
            accepted == fits(old(self)@.pending, obs),
            final(self)@ == step(old(self)@, obs),
    {
        let pending = match self.pending {
            Some(pending) => pending,
            None => {
                return false;
            },
        };
        match obs {
            Observation::Located(path) => match pending {
                ProbeRequest::LocateBackend => {
                    self.note(check_backend_installed(path));
                    self.pending = Some(ProbeRequest::BackendLiveness);
                    true
                },
                ProbeRequest::LocateDaemonCli => {
                    self.note(check_daemon_cli_installed(path));
                    self.pending = Some(ProbeRequest::GatewayLiveness);
                    true
                },
                _ => false,
            },
            Observation::Liveness(up) => match pending {
                ProbeRequest::BackendLiveness => {
                    let check = check_backend_api(up, self.backend_url.as_str());
                    self.note(check);
                    if up {
                        self.pending = Some(ProbeRequest::ModelInventory);
                    } else {
                        self.note_offline();
                        self.pending = Some(ProbeRequest::Memory);
                    }
                    true
                },
                _ => false,
            },
            Observation::Body(body) => match pending {
                ProbeRequest::ModelInventory => {
                    let names = read_listed_names(&body);
                    let daemon = names_hold_model(&names, "daemon");
                    let base = names_hold_model(&names, "qwen2.5-coder:7b") || daemon;
                    let listing = match &body {
                        Some(text) => text.as_str(),
                        None => "",
                    };
                    proof {
                        reveal_strlit("");
                        assert(""@ =~= Seq::<char>::empty());
                    }
                    self.note(check_base_model(base, listing));
                    self.note(check_daemon_model(daemon));
                    self.has_daemon_model = daemon;
                    self.pending = Some(ProbeRequest::LoadedModels);
                    true
                },
                ProbeRequest::LoadedModels => {
                    let loaded = read_first_loaded(&body);
                    self.note(check_model_loaded(loaded));
                    if self.has_daemon_model {
                        self.pending = Some(ProbeRequest::InferenceRoundTrip);
                    } else {
                        self.note_modelless();
                        self.pending = Some(ProbeRequest::Memory);
                    }
                    true
                },
                _ => false,
            },
            Observation::Inference(outcome) => match pending {
                ProbeRequest::InferenceRoundTrip => {
                    let result = read_inference(&outcome);
                    self.note(check_inference(&result));
                    self.note(check_inference_speed(&result));
                    self.pending = Some(ProbeRequest::Memory);
                    true
                },
                _ => false,
            },
            Observation::Memory { total, available, used } => match pending {
                ProbeRequest::Memory => {
                    self.note(check_system_ram(total, available, used));
                    self.pending = Some(ProbeRequest::Disks);
                    true
                },
                _ => false,
            },
            Observation::Disks(disks) => match pending {
                ProbeRequest::Disks => {
                    let (total, free) = choose_disk(&disks);
                    self.note(check_disk_space(total, free));
                    self.pending = Some(ProbeRequest::LocateDaemonCli);
                    true
                },
                _ => false,
            },
            Observation::Gateway(code) => match pending {
                ProbeRequest::GatewayLiveness => {
                    let check = check_gateway(gateway_running(code), self.gateway_url.as_str());
                    self.note(check);
                    self.pending = None;
                    true
                },
                _ => false,
            },
        }
    }

    /// The report of a battery that is through, taken at `timestamp`; `None`
    /// while an observation is still waited for.
    pub fn finish(self, timestamp: u64) -> (out: Option<DiagnosticsReport>)
        ensures
            match self@.pending {
                None => out matches Some(report) && report.well_formed() && report.timestamp
                    == timestamp && checks_view(report.checks@) == self@.checks,
                Some(_) => out is None,
            },
    {
        match self.pending {
            None => Some(DiagnosticsReport::new(timestamp, self.checks)),
            Some(_) => None,
        }
    }
}

} // verus!
