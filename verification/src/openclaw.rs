//! The messaging daemon: its status, its events for the display, and the
//! steps that pair a channel with it.

use crate::checks::joined;
use crate::classifier::PairingBlock;
use crate::config::{
    configure_self_chat_guard, loaded, text_of, with_self_chat_guard, ConfigError,
};
use crate::diagnostics::optional_text;
use crate::json::{
    get_entry, lemma_items_view, parse_text, parsed_text,
    rendered_text, Json, JsonView,
};
use crate::probes::{check_binary_in_path, gateway_answers, gateway_running, located};
use crate::replies::texts;
use crate::setup::{stream_label, stream_name};
use crate::supervisor::{code_text, push_code, ProcessEvent};
use crate::text::{chars_of, owned, string_of, trim, trimmed};
use vstd::prelude::*;

verus! {

/// Whether the daemon is installed and its gateway answers.
#[derive(Clone, Debug, PartialEq, Eq)]
pub struct OpenClawStatus {
    pub installed: bool,
    pub path: Option<String>,
    pub gateway_running: bool,
}

/// One line of a daemon command's output, for the display.
#[derive(Clone, Debug, PartialEq, Eq)]
pub struct OpenClawLogEvent {
    pub line: String,
    /// `stdout` or `stderr`.
    pub stream: String,
}

/// A pairing code, for the display.
#[derive(Clone, Debug, PartialEq, Eq)]
pub struct OpenClawQrEvent {
    pub data: String,
}

/// Reads the path of the daemon's program from the outcome of looking it up:
/// whether the lookup succeeded, and what it wrote.
pub fn find_openclaw(succeeded: bool, stdout: &str) -> (path: Option<String>)
    ensures
        optional_text(path) == located(succeeded, stdout@),
{
    check_binary_in_path(succeeded, stdout)
}

/// The status of the daemon, from where its program was found and from the
/// status code of the gateway's response.
pub fn openclaw_check(path: Option<String>, gateway_code: Option<u16>) -> (status: OpenClawStatus)
    ensures
        status.installed == path is Some,
        status.path == path,
        status.gateway_running == gateway_answers(gateway_code),
{
    OpenClawStatus {
        installed: path.is_some(),
        path,
        gateway_running: gateway_running(gateway_code),
    }
}

/// Whether the gateway can be reached, from the status code of its response.
pub fn gateway_reachable(gateway_code: Option<u16>) -> (b: bool)
    ensures
        b == gateway_answers(gateway_code),
{
    gateway_running(gateway_code)
}

/// The event that shows a line of output.
pub fn log_event(event: ProcessEvent) -> (shown: OpenClawLogEvent)
    ensures
        shown.line == event.line,
        shown.stream@ == stream_name(event.stream),
{
    OpenClawLogEvent { line: event.line, stream: stream_label(event.stream) }
}

/// The event that shows a pairing code.
pub fn qr_event(block: PairingBlock) -> (shown: OpenClawQrEvent)
    ensures
        shown.data == block.data,
{
    OpenClawQrEvent { data: block.data }
}

/// What became of removing the gateway's token from the service definition.
#[derive(Debug, PartialEq, Eq)]
pub enum LaunchdCleanup {
    /// There is no service definition on this system.
    NotNeeded,
    /// The editing tool could not be run; the text says why.
    NotRun(String),
    /// The editing tool ran and exited, with this code where the system
    /// gives one.
    Exited(Option<i32>),
}

/// Whether the cleanup did what it was for: there was nothing to do, or the
/// tool exited with 0, or with 1, which it does where the token was not
/// there.
pub open spec fn cleanup_succeeded(cleanup: LaunchdCleanup) -> bool {
    match cleanup {
        LaunchdCleanup::NotNeeded => true,
        LaunchdCleanup::NotRun(_) => false,
        LaunchdCleanup::Exited(code) => code == Some(0i32) || code == Some(1i32),
    }
}

/// The error of a cleanup that did not succeed.
pub open spec fn cleanup_error(cleanup: LaunchdCleanup) -> Seq<char> {
    match cleanup {
        LaunchdCleanup::NotRun(reason) => "Failed to run PlistBuddy: "@ + reason@,
        LaunchdCleanup::Exited(code) => "PlistBuddy failed with code "@ + code_text(code),
        LaunchdCleanup::NotNeeded => Seq::empty(),
    }
}

/// Judges the removal of the gateway's token from the service definition.
/// A token that stays there is refused by a gateway that runs without
/// credentials.
pub fn remove_gateway_token_from_launchd(cleanup: LaunchdCleanup) -> (out: Result<(), String>)
    ensures
        out is Ok <==> cleanup_succeeded(cleanup),
        out matches Err(message) ==> message@ == cleanup_error(cleanup),
{
    match cleanup {
        LaunchdCleanup::NotNeeded => Ok(()),
        LaunchdCleanup::NotRun(reason) => Err(joined("Failed to run PlistBuddy: ", reason.as_str())),
        LaunchdCleanup::Exited(code) => {
            let fine = match code {
                Some(c) => c == 0 || c == 1,
                None => false,
            };
            if fine {
                Ok(())
            } else {
                let mut message = chars_of("PlistBuddy failed with code ");
                push_code(&mut message, code);
                Err(string_of(&message))
            }
        },
    }
}

/// The value that names an entry: the one under `id`, else the one under
/// `phone`.
pub open spec fn naming_field(entry: JsonView) -> Option<JsonView> {
    match entry {
        JsonView::Object(fields) => if fields.contains_key("id"@) {
            Some(fields["id"@])
        } else if fields.contains_key("phone"@) {
            Some(fields["phone"@])
        } else {
            None
        },
        _ => None,
    }
}

/// The identity that the daemon reports as its own: the naming field of the
/// first entry of a list, else that of the reply itself, where it is a text.
pub open spec fn identity_of(reply: JsonView) -> Option<Seq<char>> {
    let listed = match reply {
        JsonView::Array(items) => if items.len() > 0 {
            naming_field(items.first())
        } else {
            None
        },
        _ => None,
    };
    let found = match listed {
        Some(value) => Some(value),
        None => naming_field(reply),
    };
    match found {
        Some(JsonView::Text(text)) => Some(text),
        _ => None,
    }
}

/// The value that names an entry.
pub fn read_naming_field(entry: &Json) -> (out: Option<&Json>)
    ensures
        match naming_field(entry@) {
            Some(value) => out matches Some(found) && found@ == value,
            None => out is None,
        },
{
    match entry {
        Json::Object(fields) => match get_entry(fields, "id") {
            Some(value) => Some(value),
            None => get_entry(fields, "phone"),
        },
        _ => None,
    }
}

/// Reads the identity that the daemon reports as its own.
pub fn self_identity(reply: &Json) -> (out: Option<String>)
    ensures
        optional_text(out) == identity_of(reply@),
{
    let listed = match reply {
        Json::Array(items) => {
            proof {
                lemma_items_view(items@);
            }
            if items.len() > 0 {
                read_naming_field(&items[0])
            } else {
                None
            }
        },
        _ => None,
    };
    let found = match listed {
        Some(value) => Some(value),
        None => read_naming_field(reply),
    };
    match found {
        Some(Json::Text(text)) => Some(text.clone()),
        _ => None,
    }
}

/// Why the self-chat guard could not be set.
#[derive(Debug, PartialEq, Eq)]
pub enum SelfChatError {
    /// The daemon did not answer the question for its identity.
    QueryFailed,
    /// The daemon's answer is no JSON; the message says why.
    Unparsable(String),
    /// The answer names no identity.
    IdentityMissing,
    /// The answer names an empty identity.
    IdentityEmpty,
    /// The configuration could not be reconciled.
    Config(ConfigError),
}

/// Why the daemon's answer gives no identity.
#[derive(Clone, Copy, Debug, PartialEq, Eq, Structural)]
pub enum IdentityFault {
    QueryFailed,
    Unparsable,
    Missing,
    Empty,
}

impl SelfChatError {
    /// The fault in the daemon's answer that the error stands for, if it
    /// stands for one.
    pub open spec fn fault(&self) -> Option<IdentityFault> {
        match self {
            SelfChatError::QueryFailed => Some(IdentityFault::QueryFailed),
            SelfChatError::Unparsable(_) => Some(IdentityFault::Unparsable),
            SelfChatError::IdentityMissing => Some(IdentityFault::Missing),
            SelfChatError::IdentityEmpty => Some(IdentityFault::Empty),
            SelfChatError::Config(_) => None,
        }
    }
}

/// What an error of setting the self-chat guard is shown as.
pub open spec fn self_chat_error_text(error: SelfChatError) -> Seq<char> {
    match error {
        SelfChatError::QueryFailed => "Failed to get self number"@,
        SelfChatError::Unparsable(reason) => "Failed to parse directory self output: "@ + reason@,
        SelfChatError::IdentityMissing => "Could not find phone number in directory self output"@,
        SelfChatError::IdentityEmpty => "Self phone number is empty"@,
        SelfChatError::Config(inner) => crate::config::error_text(inner),
    }
}

impl SelfChatError {
    /// What the error is shown as.
    pub fn describe(&self) -> (out: String)
        ensures
            out@ == self_chat_error_text(*self),
    {
        match self {
            SelfChatError::QueryFailed => owned("Failed to get self number"),
            SelfChatError::Unparsable(reason) => joined(
                "Failed to parse directory self output: ",
                reason.as_str(),
            ),
            SelfChatError::IdentityMissing => owned(
                "Could not find phone number in directory self output",
            ),
            SelfChatError::IdentityEmpty => owned("Self phone number is empty"),
            SelfChatError::Config(inner) => inner.describe(),
        }
    }
}

/// The identity in the daemon's answer, or why there is none. The answer is
/// trimmed before it is read.
pub open spec fn answered_identity(succeeded: bool, stdout: Seq<char>) -> Result<
    Seq<char>,
    IdentityFault,
> {
    if !succeeded {
        Err(IdentityFault::QueryFailed)
    } else {
        match parsed_text(trim(stdout)) {
            None => Err(IdentityFault::Unparsable),
            Some(reply) => match identity_of(reply) {
                None => Err(IdentityFault::Missing),
                Some(identity) => if identity.len() == 0 {
                    Err(IdentityFault::Empty)
                } else {
                    Ok(identity)
                },
            },
        }
    }
}

/// Reads the daemon's own identity from its answer: whether the question
/// succeeded, and what the daemon wrote.
pub fn read_self_identity(succeeded: bool, stdout: &str) -> (out: Result<String, SelfChatError>)
    ensures
        match answered_identity(succeeded, stdout@) {
            Ok(identity) => out matches Ok(found) && found@ == identity,
            Err(why) => out matches Err(error) && error.fault() == Some(why),
        },
{
    if !succeeded {
        return Err(SelfChatError::QueryFailed);
    }
    let text = string_of(&trimmed(&chars_of(stdout)));
    let reply = match parse_text(text.as_str()) {
        Ok(reply) => reply,
        Err(message) => {
            return Err(SelfChatError::Unparsable(message));
        },
    };
    match self_identity(&reply) {
        None => Err(SelfChatError::IdentityMissing),
        Some(identity) => if identity.as_str().unicode_len() == 0 {
            Err(SelfChatError::IdentityEmpty)
        } else {
            Ok(identity)
        },
    }
}

/// Sets the self-chat guard of a channel after a pairing: reads the
/// daemon's own identity from its answer and restricts the channel to it.
///
/// `existing` is the text of the configuration on disk, `None` where there is
/// no file; the result is the text to write.
pub fn configure_whatsapp_self_chat(
    succeeded: bool,
    stdout: &str,
    existing: Option<&str>,
    channel: &str,
) -> (out: Result<String, SelfChatError>)
    ensures
        match answered_identity(succeeded, stdout@) {
            Ok(identity) => match with_self_chat_guard(
                loaded(text_of(existing)),
                channel@,
                identity,
            ) {
                Ok(tree) => match out {
                    Ok(text) => rendered_text(tree) == Some(text@),
                    Err(error) => error matches SelfChatError::Config(inner) && inner is Serialize
                        && rendered_text(tree) is None,
                },
                Err(fault) => out == Err::<String, SelfChatError>(
                    SelfChatError::Config(ConfigError::Fault(fault)),
                ),
            },
            Err(why) => out matches Err(error) && error.fault() == Some(why),
        },
{
    let identity = match read_self_identity(succeeded, stdout) {
        Ok(identity) => identity,
        Err(error) => {
            return Err(error);
        },
    };
    match configure_self_chat_guard(existing, channel, identity.as_str()) {
        Ok(text) => Ok(text),
        Err(error) => Err(SelfChatError::Config(error)),
    }
}

/// A command that is run on its own, outside a pairing.
#[derive(Clone, Copy, Debug, PartialEq, Eq, Structural)]
pub enum DaemonCommand {
    /// Fetch the daemon's installer and run it.
    Install,
    /// Let the daemon set itself up and install its service.
    Onboard,
    /// Restart the gateway.
    GatewayRestart,
}

/// The program of a command.
pub open spec fn command_program(command: DaemonCommand) -> Seq<char> {
    match command {
        DaemonCommand::Install => "sh"@,
        _ => "openclaw"@,
    }
}

/// The arguments of a command.
pub open spec fn command_arguments(command: DaemonCommand) -> Seq<Seq<char>> {
    match command {
        DaemonCommand::Install => seq![
            "-c"@,
            "curl -fsSL https://openclaw.ai/install.sh | bash"@,
        ],
        DaemonCommand::Onboard => seq!["onboard"@, "--install-daemon"@],
        DaemonCommand::GatewayRestart => seq!["gateway"@, "restart"@],
    }
}

/// The program and the arguments of a command.
pub fn command_words(command: DaemonCommand) -> (out: (String, Vec<String>))
    ensures
        out.0@ == command_program(command),
        texts(out.1@) == command_arguments(command),
{
    let mut args: Vec<String> = Vec::new();
    let program = match command {
        DaemonCommand::Install => {
            args.push(owned("-c"));
            args.push(owned("curl -fsSL https://openclaw.ai/install.sh | bash"));
            owned("sh")
        },
        DaemonCommand::Onboard => {
            args.push(owned("onboard"));
            args.push(owned("--install-daemon"));
            owned("openclaw")
        },
        DaemonCommand::GatewayRestart => {
            args.push(owned("gateway"));
            args.push(owned("restart"));
            owned("openclaw")
        },
    };
    assert(texts(args@) =~= command_arguments(command));
    (program, args)
}

/// One step of pairing a channel with the daemon.
#[derive(Clone, Copy, Debug, PartialEq, Eq, Structural)]
pub enum PairingStep {
    /// Put the configuration into local mode.
    EnsureLocalMode,
    /// Let the daemon repair its configuration.
    Doctor,
    /// Take out the credential that the repair may have put in.
    RemoveStaleAuth,
    /// Take the gateway's token out of the service definition.
    RemoveLaunchdToken,
    /// Stop the gateway.
    GatewayStop,
    /// Start the gateway.
    GatewayStart,
    /// Give the gateway time to come up.
    Settle,
    /// Enable the channel's plugin.
    EnablePlugin,
    /// See whether the gateway answers.
    CheckGateway,
    /// Run the login, which shows the pairing code.
    Login,
    /// Restrict the channel to the daemon's own identity.
    ConfigureSelfChat,
}

/// Whether a step may fail without ending the pairing: its failure is
/// reported as a warning, and the pairing goes on.
pub open spec fn is_best_effort(step: PairingStep) -> bool {
    step == PairingStep::Doctor || step == PairingStep::GatewayStop || step
        == PairingStep::GatewayStart || step == PairingStep::Settle || step
        == PairingStep::EnablePlugin || step == PairingStep::ConfigureSelfChat
}

/// The step that follows a step; none follows the last.
pub open spec fn step_after(step: PairingStep) -> Option<PairingStep> {
    match step {
        PairingStep::EnsureLocalMode => Some(PairingStep::Doctor),
        PairingStep::Doctor => Some(PairingStep::RemoveStaleAuth),
        PairingStep::RemoveStaleAuth => Some(PairingStep::RemoveLaunchdToken),
        PairingStep::RemoveLaunchdToken => Some(PairingStep::GatewayStop),
        PairingStep::GatewayStop => Some(PairingStep::GatewayStart),
        PairingStep::GatewayStart => Some(PairingStep::Settle),
        PairingStep::Settle => Some(PairingStep::EnablePlugin),
        PairingStep::EnablePlugin => Some(PairingStep::CheckGateway),
        PairingStep::CheckGateway => Some(PairingStep::Login),
        PairingStep::Login => Some(PairingStep::ConfigureSelfChat),
        PairingStep::ConfigureSelfChat => None,
    }
}

/// The number of steps that are still to be made when `current` is the next.
pub open spec fn steps_left(current: Option<PairingStep>) -> nat {
    match current {
        Some(PairingStep::EnsureLocalMode) => 11,
        Some(PairingStep::Doctor) => 10,
        Some(PairingStep::RemoveStaleAuth) => 9,
        Some(PairingStep::RemoveLaunchdToken) => 8,
        Some(PairingStep::GatewayStop) => 7,
        Some(PairingStep::GatewayStart) => 6,
        Some(PairingStep::Settle) => 5,
        Some(PairingStep::EnablePlugin) => 4,
        Some(PairingStep::CheckGateway) => 3,
        Some(PairingStep::Login) => 2,
        Some(PairingStep::ConfigureSelfChat) => 1,
        None => 0,
    }
}

/// What to tell the user where the gateway does not answer before the
/// login: the login cannot work without it, and this is how to bring it up.
pub open spec fn gateway_remedy() -> Seq<char> {
    "OpenClaw gateway is not reachable. The gateway must be running for WhatsApp login. Try: openclaw gateway stop (to clear any stuck process), then openclaw gateway start. Or open http://127.0.0.1:18789/ in a browser to use the Control UI."@
}

/// The error with which the pairing ends where a step that it cannot do
/// without has failed with `reason`.
pub open spec fn abort_message(step: PairingStep, reason: Seq<char>) -> Seq<char> {
    if step == PairingStep::CheckGateway {
        gateway_remedy()
    } else {
        reason
    }
}

/// The arguments with which the daemon's program is run for a step; `None`
/// for a step that runs no program.
pub open spec fn step_arguments(step: PairingStep, channel: Seq<char>) -> Option<Seq<Seq<char>>> {
    match step {
        PairingStep::Doctor => Some(seq!["doctor"@, "--fix"@, "--yes"@]),
        PairingStep::GatewayStop => Some(seq!["gateway"@, "stop"@]),
        PairingStep::GatewayStart => Some(seq!["gateway"@, "start"@]),
        PairingStep::EnablePlugin => Some(seq!["plugins"@, "enable"@, channel]),
        PairingStep::Login => Some(seq!["channels"@, "login"@, "--channel"@, channel]),
        PairingStep::ConfigureSelfChat => Some(
            seq!["directory"@, "self"@, "--channel"@, channel, "--json"@],
        ),
        _ => None,
    }
}

/// A warning of the pairing: the step that failed, and how.
#[derive(Debug, PartialEq, Eq)]
pub struct PairingWarning {
    pub step: PairingStep,
    pub reason: String,
}

/// The model of a [`PairingWorkflow`].
pub struct WorkflowState {
    /// The step to make next; `None` once the pairing is over.
    pub current: Option<PairingStep>,
    /// The error with which the pairing ended, where it ended with one.
    pub failure: Option<Seq<char>>,
    /// The failures that did not end the pairing, in order.
    pub warnings: Seq<(PairingStep, Seq<char>)>,
}

/// The models of a list of warnings.
pub open spec fn warning_views(warnings: Seq<PairingWarning>) -> Seq<(PairingStep, Seq<char>)> {
    warnings.map_values(|w: PairingWarning| (w.step, w.reason@))
}

/// The pairing before its first step.
pub open spec fn pairing_start() -> WorkflowState {
    WorkflowState {
        current: Some(PairingStep::EnsureLocalMode),
        failure: None,
        warnings: Seq::empty(),
    }
}

/// The pairing after the current step has succeeded or failed. A step that
/// succeeded is followed by the next. A best-effort step that failed leaves
/// a warning and is followed by the next too. Any other failure ends the
/// pairing at once.
pub open spec fn after_report(s: WorkflowState, result: Result<(), String>) -> WorkflowState {
    match s.current {
        None => s,
        Some(step) => match result {
            Ok(_) => WorkflowState { current: step_after(step), ..s },
            Err(reason) => if is_best_effort(step) {
                WorkflowState {
                    current: step_after(step),
                    warnings: s.warnings.push((step, reason@)),
                    ..s
                }
            } else {
                WorkflowState {
                    current: None,
                    failure: Some(abort_message(step, reason@)),
                    ..s
                }
            },
        },
    }
}

/// Every report brings the pairing nearer to its end: a pairing is over
/// after eleven reports at most.
pub proof fn law_pairing_ends(s: WorkflowState, result: Result<(), String>)
    ensures
        s.current is Some ==> steps_left(after_report(s, result).current) < steps_left(s.current),
        s.current is None ==> after_report(s, result) == s,
        steps_left(pairing_start().current) == 11,
{
}

/// A failure of a best-effort step never ends the pairing, and a failure of
/// any other step ends it at once, with an error.
pub proof fn law_failure_policy(s: WorkflowState, reason: String)
    requires
        s.current is Some,
        s.failure is None,
    ensures
        is_best_effort(s.current->Some_0) ==> after_report(s, Err(reason)).failure is None
            && after_report(s, Err(reason)).current == step_after(s.current->Some_0),
        !is_best_effort(s.current->Some_0) ==> after_report(s, Err(reason)).failure is Some
            && after_report(s, Err(reason)).current is None,
{
}

/// The arguments with which the daemon's program is run for a step.
pub fn arguments_of(step: PairingStep, channel: &str) -> (out: Option<Vec<String>>)
    ensures
        match step_arguments(step, channel@) {
            Some(args) => out matches Some(found) && texts(found@) == args,
            None => out is None,
        },
{
    let mut args: Vec<String> = Vec::new();
    match step {
        PairingStep::Doctor => {
            args.push(owned("doctor"));
            args.push(owned("--fix"));
            args.push(owned("--yes"));
        },
        PairingStep::GatewayStop => {
            args.push(owned("gateway"));
            args.push(owned("stop"));
        },
        PairingStep::GatewayStart => {
            args.push(owned("gateway"));
            args.push(owned("start"));
        },
        PairingStep::EnablePlugin => {
            args.push(owned("plugins"));
            args.push(owned("enable"));
            args.push(owned(channel));
        },
        PairingStep::Login => {
            args.push(owned("channels"));
            args.push(owned("login"));
            args.push(owned("--channel"));
            args.push(owned(channel));
        },
        PairingStep::ConfigureSelfChat => {
            args.push(owned("directory"));
            args.push(owned("self"));
            args.push(owned("--channel"));
            args.push(owned(channel));
            args.push(owned("--json"));
        },
        _ => {
            return None;
        },
    }
    assert(texts(args@) =~= step_arguments(step, channel@)->Some_0);
    Some(args)
}

/// The steps that pair a channel with the daemon, one after the other.
pub struct PairingWorkflow {
    current: Option<PairingStep>,
    failure: Option<String>,
    warnings: Vec<PairingWarning>,
}

impl View for PairingWorkflow {
    type V = WorkflowState;

    closed spec fn view(&self) -> WorkflowState {
        WorkflowState {
            current: self.current,
            failure: optional_text(self.failure),
            warnings: warning_views(self.warnings@),
        }
    }
}

impl PairingWorkflow {
    /// A pairing before its first step.
    pub fn new() -> (out: PairingWorkflow)
        ensures
            out@ == pairing_start(),
    {
        let out = PairingWorkflow {
            current: Some(PairingStep::EnsureLocalMode),
            failure: None,
            warnings: Vec::new(),
        };
        assert(warning_views(out.warnings@) =~= Seq::<(PairingStep, Seq<char>)>::empty());
        out
    }

    /// The step to make next; `None` once the pairing is over.
    pub fn current(&self) -> (out: Option<PairingStep>)
        ensures
            out == self@.current,
    {
        self.current
    }

    /// The failures that did not end the pairing, in order.
    pub fn warnings(&self) -> (out: &Vec<PairingWarning>)
        ensures
            warning_views(out@) == self@.warnings,
    {
        &self.warnings
    }

    /// Takes the result of the current step.
    pub fn report(&mut self, result: Result<(), String>)
        ensures
            final(self)@ == after_report(old(self)@, result),
    {
        let step = match self.current {
            Some(step) => step,
            None => {
                return ;
            },
        };
        let next = match step {
            PairingStep::EnsureLocalMode => Some(PairingStep::Doctor),
            PairingStep::Doctor => Some(PairingStep::RemoveStaleAuth),
            PairingStep::RemoveStaleAuth => Some(PairingStep::RemoveLaunchdToken),
            PairingStep::RemoveLaunchdToken => Some(PairingStep::GatewayStop),
            PairingStep::GatewayStop => Some(PairingStep::GatewayStart),
            PairingStep::GatewayStart => Some(PairingStep::Settle),
            PairingStep::Settle => Some(PairingStep::EnablePlugin),
            PairingStep::EnablePlugin => Some(PairingStep::CheckGateway),
            PairingStep::CheckGateway => Some(PairingStep::Login),
            PairingStep::Login => Some(PairingStep::ConfigureSelfChat),
            PairingStep::ConfigureSelfChat => None,
        };
        let best_effort = match step {
            PairingStep::Doctor => true,
            PairingStep::GatewayStop => true,
            PairingStep::GatewayStart => true,
            PairingStep::Settle => true,
            PairingStep::EnablePlugin => true,
            PairingStep::ConfigureSelfChat => true,
            _ => false,
        };
        match result {
            Ok(_) => {
                self.current = next;
            },
            Err(reason) => {
                if best_effort {
                    let ghost before = self.warnings@;
                    self.warnings.push(PairingWarning { step, reason });
                    assert(warning_views(self.warnings@) =~= warning_views(before).push(
                        (step, reason@),
                    ));
                    self.current = next;
                } else {
                    let message = match step {
                        PairingStep::CheckGateway => owned(
                            "OpenClaw gateway is not reachable. The gateway must be running for WhatsApp login. Try: openclaw gateway stop (to clear any stuck process), then openclaw gateway start. Or open http://127.0.0.1:18789/ in a browser to use the Control UI.",
                        ),
                        _ => reason,
                    };
                    self.failure = Some(message);
                    self.current = None;
                }
            },
        }
    }

    /// The result of a pairing that is over: an error where a step that it
    /// cannot do without has failed. `None` while steps are left.
    pub fn outcome(&self) -> (out: Option<Result<(), String>>)
        ensures
            self@.current is Some ==> out is None,
            self@.current is None ==> (match self@.failure {
                Some(message) => out matches Some(Err(found)) && found@ == message,
                None => out == Some(Ok::<(), String>(())),
            }),
    {
        match self.current {
            Some(_) => None,
            None => match &self.failure {
                Some(message) => Some(Err(message.clone())),
                None => Some(Ok(())),
            },
        }
    }
}

} // verus!
