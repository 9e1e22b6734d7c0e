//! Supervision of one external process.
//!
//! The caller starts the process and reports what happens: a line on one of
//! the two output streams, the end of a stream, the exit. The supervision
//! turns each line into an event at once, looks for pairing codes where it
//! is told to, and gives the outcome when the process has exited and both
//! streams have ended, not before.

use crate::checks::push_str;
use crate::classifier::{
    after_line, emitted_at_end, emitted_by, scanning, ClassifierState, PairingBlock,
    PairingBlockView, StreamClassifier, Thresholds,
};
use crate::diagnostics::optional_text;
use crate::replies::texts;
use crate::text::{decimal, owned, push_decimal, string_of};
use vstd::prelude::*;

verus! {

/// One of the two output streams of a process.
#[derive(Clone, Copy, Debug, PartialEq, Eq, Structural)]
pub enum StreamKind {
    Stdout,
    Stderr,
}

/// One line of output.
#[derive(Debug, PartialEq, Eq)]
pub struct ProcessEvent {
    pub line: String,
    pub stream: StreamKind,
}

/// How a supervised process ended.
#[derive(Debug, PartialEq, Eq)]
pub struct ProcessOutcome {
    pub succeeded: bool,
    pub exit_code: Option<i32>,
    pub error: Option<String>,
}

/// The model of a [`ProcessOutcome`].
pub struct OutcomeView {
    pub succeeded: bool,
    pub exit_code: Option<i32>,
    pub error: Option<Seq<char>>,
}

impl View for ProcessOutcome {
    type V = OutcomeView;

    open spec fn view(&self) -> OutcomeView {
        OutcomeView {
            succeeded: self.succeeded,
            exit_code: self.exit_code,
            error: optional_text(self.error),
        }
    }
}

/// What the caller reports of the process.
#[derive(Debug, PartialEq, Eq)]
pub enum ProcessSignal {
    /// A line came on a stream.
    Line(StreamKind, String),
    /// A stream ended.
    Closed(StreamKind),
    /// The process exited, with this code where the system gives one.
    Exited(Option<i32>),
    /// Waiting for the exit failed; the text says how.
    WaitFailed(String),
}

/// What a signal brings out.
#[derive(Debug, PartialEq, Eq)]
pub struct Delivery {
    /// The event of the line, where the signal was a line.
    pub event: Option<ProcessEvent>,
    /// The pairing code that the signal completed.
    pub block: Option<PairingBlock>,
}

/// The numeral of a whole number, with a minus sign where it is negative.
pub open spec fn signed_decimal(n: int) -> Seq<char> {
    if n < 0 {
        "-"@ + decimal((-n) as nat)
    } else {
        decimal(n as nat)
    }
}

/// An exit code as it is shown: `Some(2)`, or `None` where the system gave
/// no code.
pub open spec fn code_text(code: Option<i32>) -> Seq<char> {
    match code {
        Some(c) => "Some("@ + signed_decimal(c as int) + ")"@,
        None => "None"@,
    }
}

/// The program and its arguments, with a space between each two.
pub open spec fn command_line(program: Seq<char>, args: Seq<Seq<char>>) -> Seq<char>
    decreases args.len(),
{
    if args.len() == 0 {
        program
    } else {
        command_line(program, args.drop_last()) + " "@ + args.last()
    }
}

/// The outcome of a process that exited: code 0 is success, any other code
/// and no code are a failure that names the program, its arguments and the
/// code.
pub open spec fn exit_outcome(
    program: Seq<char>,
    args: Seq<Seq<char>>,
    code: Option<i32>,
) -> OutcomeView {
    if code == Some(0i32) {
        OutcomeView { succeeded: true, exit_code: code, error: None }
    } else {
        OutcomeView {
            succeeded: false,
            exit_code: code,
            error: Some(command_line(program, args) + " exited with code "@ + code_text(code)),
        }
    }
}

/// The outcome of a process that could not be started.
pub open spec fn spawn_failure(
    program: Seq<char>,
    args: Seq<Seq<char>>,
    reason: Seq<char>,
) -> OutcomeView {
    OutcomeView {
        succeeded: false,
        exit_code: None,
        error: Some("Failed to spawn "@ + command_line(program, args) + ": "@ + reason),
    }
}

/// The outcome of a process whose exit could not be waited for.
pub open spec fn wait_failure(reason: Seq<char>) -> OutcomeView {
    OutcomeView {
        succeeded: false,
        exit_code: None,
        error: Some("Failed to wait for process: "@ + reason),
    }
}

/// The model of a [`Supervision`].
pub struct SupervisionState {
    pub program: Seq<char>,
    pub args: Seq<Seq<char>>,
    /// Whether the standard output has not ended yet.
    pub stdout_open: bool,
    /// Whether the standard error has not ended yet.
    pub stderr_open: bool,
    /// How the process ended, once it has.
    pub ended: Option<OutcomeView>,
    /// The classifier that watches the standard output, where one does.
    pub classifier: Option<ClassifierState>,
}

/// Whether a stream has not ended yet.
pub open spec fn is_open(s: SupervisionState, stream: StreamKind) -> bool {
    match stream {
        StreamKind::Stdout => s.stdout_open,
        StreamKind::Stderr => s.stderr_open,
    }
}

/// The supervision of a process that was just started.
pub open spec fn started(
    program: Seq<char>,
    args: Seq<Seq<char>>,
    classifier: Option<ClassifierState>,
) -> SupervisionState {
    SupervisionState {
        program,
        args,
        stdout_open: true,
        stderr_open: true,
        ended: None,
        classifier,
    }
}

/// Whether the lines of this stream go through the classifier.
pub open spec fn watched(s: SupervisionState, stream: StreamKind) -> bool {
    stream == StreamKind::Stdout && s.stdout_open && s.classifier is Some
}

/// The state after a signal. A line on a stream that has ended, and an exit
/// after the first, change nothing.
pub open spec fn after_signal(s: SupervisionState, signal: ProcessSignal) -> SupervisionState {
    match signal {
        ProcessSignal::Line(stream, line) => if watched(s, stream) {
            SupervisionState {
                classifier: Some(after_line(s.classifier->Some_0, line@)),
                ..s
            }
        } else {
            s
        },
        ProcessSignal::Closed(stream) => match stream {
            StreamKind::Stdout => SupervisionState {
                stdout_open: false,
                classifier: if watched(s, stream) {
                    Some(scanning(s.classifier->Some_0.thresholds))
                } else {
                    s.classifier
                },
                ..s
            },
            StreamKind::Stderr => SupervisionState { stderr_open: false, ..s },
        },
        ProcessSignal::Exited(code) => if s.ended is Some {
            s
        } else {
            SupervisionState { ended: Some(exit_outcome(s.program, s.args, code)), ..s }
        },
        ProcessSignal::WaitFailed(reason) => if s.ended is Some {
            s
        } else {
            SupervisionState { ended: Some(wait_failure(reason@)), ..s }
        },
    }
}

/// The event that a signal brings out: the line itself, on its stream, for
/// every line on a stream that has not ended.
pub open spec fn event_of(s: SupervisionState, signal: ProcessSignal) -> Option<
    (Seq<char>, StreamKind),
> {
    match signal {
        ProcessSignal::Line(stream, line) => if is_open(s, stream) {
            Some((line@, stream))
        } else {
            None
        },
        _ => None,
    }
}

/// The pairing code that a signal brings out: the one that a line of the
/// watched stream completes, or the one that is left when that stream ends.
pub open spec fn block_by(s: SupervisionState, signal: ProcessSignal) -> Option<
    PairingBlockView,
> {
    match signal {
        ProcessSignal::Line(stream, line) => if watched(s, stream) {
            emitted_by(s.classifier->Some_0, line@)
        } else {
            None
        },
        ProcessSignal::Closed(stream) => if watched(s, stream) {
            emitted_at_end(s.classifier->Some_0)
        } else {
            None
        },
        _ => None,
    }
}

/// The outcome of the supervision: that of the process, once the process has
/// ended and both streams have ended too.
pub open spec fn outcome_of(s: SupervisionState) -> Option<OutcomeView> {
    if !s.stdout_open && !s.stderr_open {
        s.ended
    } else {
        None
    }
}

/// The state after a row of signals.
pub open spec fn after_signals(s: SupervisionState, signals: Seq<ProcessSignal>) -> SupervisionState
    decreases signals.len(),
{
    if signals.len() == 0 {
        s
    } else {
        after_signal(after_signals(s, signals.drop_last()), signals.last())
    }
}

/// The lines that a row of signals reports on a stream, in order.
pub open spec fn lines_on(signals: Seq<ProcessSignal>, stream: StreamKind) -> Seq<Seq<char>>
    decreases signals.len(),
{
    if signals.len() == 0 {
        Seq::empty()
    } else {
        match signals.last() {
            ProcessSignal::Line(on, line) => if on == stream {
                lines_on(signals.drop_last(), stream).push(line@)
            } else {
                lines_on(signals.drop_last(), stream)
            },
            _ => lines_on(signals.drop_last(), stream),
        }
    }
}

/// The lines of the events that a row of signals brings out on a stream, in
/// order.
pub open spec fn delivered_on(
    s: SupervisionState,
    signals: Seq<ProcessSignal>,
    stream: StreamKind,
) -> Seq<Seq<char>>
    decreases signals.len(),
{
    if signals.len() == 0 {
        Seq::empty()
    } else {
        match event_of(after_signals(s, signals.drop_last()), signals.last()) {
            Some((line, on)) => if on == stream {
                delivered_on(s, signals.drop_last(), stream).push(line)
            } else {
                delivered_on(s, signals.drop_last(), stream)
            },
            None => delivered_on(s, signals.drop_last(), stream),
        }
    }
}

/// Whether a row of signals reports the end of a stream.
pub open spec fn closes(signals: Seq<ProcessSignal>, stream: StreamKind) -> bool {
    exists|i: int| 0 <= i < signals.len() && #[trigger] signals[i] == ProcessSignal::Closed(stream)
}

/// Whether a row of signals reports the end of the process.
pub open spec fn ends(signals: Seq<ProcessSignal>) -> bool {
    exists|i: int|
        0 <= i < signals.len() && ((#[trigger] signals[i]) is Exited || signals[i] is WaitFailed)
}

/// Until the end of a stream is reported, every line that is reported on it
/// is brought out as an event, with no line lost, none added, and in the
/// order in which they came.
pub proof fn law_lines_are_delivered_in_order(
    s: SupervisionState,
    signals: Seq<ProcessSignal>,
    stream: StreamKind,
)
    requires
        is_open(s, stream),
        !closes(signals, stream),
    ensures
        is_open(after_signals(s, signals), stream),
        delivered_on(s, signals, stream) == lines_on(signals, stream),
    decreases signals.len(),
{
    if signals.len() > 0 {
        let front = signals.drop_last();
        assert forall|i: int| 0 <= i < front.len() implies #[trigger] front[i]
            != ProcessSignal::Closed(stream) by {
            assert(front[i] == signals[i]);
        }
        law_lines_are_delivered_in_order(s, front, stream);
        assert(signals[signals.len() - 1] != ProcessSignal::Closed(stream));
    }
}

/// There is an outcome only after the end of both streams and the end of
/// the process have been reported: none comes early.
pub proof fn law_outcome_waits_for_all(
    program: Seq<char>,
    args: Seq<Seq<char>>,
    classifier: Option<ClassifierState>,
    signals: Seq<ProcessSignal>,
)
    ensures
        ({
            let end = after_signals(started(program, args, classifier), signals);
            &&& !end.stdout_open ==> closes(signals, StreamKind::Stdout)
            &&& !end.stderr_open ==> closes(signals, StreamKind::Stderr)
            &&& end.ended is Some ==> ends(signals)
            &&& outcome_of(end) is Some ==> closes(signals, StreamKind::Stdout) && closes(
                signals,
                StreamKind::Stderr,
            ) && ends(signals)
        }),
    decreases signals.len(),
{
    if signals.len() > 0 {
        let front = signals.drop_last();
        let last = signals.len() - 1;
        law_outcome_waits_for_all(program, args, classifier, front);
        if closes(front, StreamKind::Stdout) {
            let i = choose|i: int|
                0 <= i < front.len() && #[trigger] front[i] == ProcessSignal::Closed(
                    StreamKind::Stdout,
                );
            assert(signals[i] == ProcessSignal::Closed(StreamKind::Stdout));
        }
        if closes(front, StreamKind::Stderr) {
            let i = choose|i: int|
                0 <= i < front.len() && #[trigger] front[i] == ProcessSignal::Closed(
                    StreamKind::Stderr,
                );
            assert(signals[i] == ProcessSignal::Closed(StreamKind::Stderr));
        }
        if ends(front) {
            let i = choose|i: int|
                0 <= i < front.len() && ((#[trigger] front[i]) is Exited || front[i] is WaitFailed);
            assert(signals[i] is Exited || signals[i] is WaitFailed);
        }
        match signals[last] {
            ProcessSignal::Closed(stream) => {
                assert(signals[last] == ProcessSignal::Closed(stream));
            },
            _ => {
                assert(signals[last] is Exited || signals[last] is WaitFailed || signals[last] is Line);
            },
        }
    }
}

/// Appends the numeral of `n`, with a minus sign where it is negative.
pub fn push_signed(buf: &mut Vec<char>, n: i32)
    ensures
        final(buf)@ == old(buf)@ + signed_decimal(n as int),
{
    let wide: i64 = n as i64;
    if wide < 0 {
        push_str(buf, "-");
        let positive: i64 = -wide;
        push_decimal(buf, positive as u128);
        assert(final(buf)@ =~= old(buf)@ + ("-"@ + decimal((-n) as nat)));
    } else {
        push_decimal(buf, wide as u128);
    }
}

/// Appends an exit code as it is shown.
pub fn push_code(buf: &mut Vec<char>, code: Option<i32>)
    ensures
        final(buf)@ == old(buf)@ + code_text(code),
{
    match code {
        Some(c) => {
            push_str(buf, "Some(");
            push_signed(buf, c);
            push_str(buf, ")");
            assert(final(buf)@ =~= old(buf)@ + ("Some("@ + signed_decimal(c as int) + ")"@));
        },
        None => {
            push_str(buf, "None");
        },
    }
}

/// Appends the program and its arguments, with a space between each two.
pub fn push_command_line(buf: &mut Vec<char>, program: &str, args: &Vec<String>)
    ensures
        final(buf)@ == old(buf)@ + command_line(program@, texts(args@)),
{
    push_str(buf, program);
    let mut i: usize = 0;
    assert(texts(args@).subrange(0, 0) =~= Seq::<Seq<char>>::empty());
    while i < args.len()
        invariant
            i <= args.len(),
            buf@ == old(buf)@ + command_line(program@, texts(args@).subrange(0, i as int)),
        decreases args.len() - i,
    {
        proof {
            let longer = texts(args@).subrange(0, i + 1);
            assert(longer.drop_last() =~= texts(args@).subrange(0, i as int));
            assert(longer.last() == args@[i as int]@);
        }
        let ghost before = buf@;
        push_str(buf, " ");
        push_str(buf, args[i].as_str());
        assert(buf@ =~= old(buf)@ + (command_line(program@, texts(args@).subrange(0, i as int))
            + " "@ + args@[i as int]@));
        i += 1;
    }
    assert(texts(args@).subrange(0, args.len() as int) =~= texts(args@));
}

/// The outcome of a process that exited with `code`.
pub fn outcome_of_exit(program: &str, args: &Vec<String>, code: Option<i32>) -> (out:
    ProcessOutcome)
    ensures
        out@ == exit_outcome(program@, texts(args@), code),
        out.succeeded <==> code == Some(0i32),
        out.exit_code == code,
{
    let success = match code {
        Some(c) => c == 0,
        None => false,
    };
    if success {
        ProcessOutcome { succeeded: true, exit_code: code, error: None }
    } else {
        let mut message: Vec<char> = Vec::new();
        push_command_line(&mut message, program, args);
        push_str(&mut message, " exited with code ");
        push_code(&mut message, code);
        proof {
            let e = Seq::<char>::empty();
            assert(e + command_line(program@, texts(args@)) =~= command_line(
                program@,
                texts(args@),
            ));
        }
        ProcessOutcome { succeeded: false, exit_code: code, error: Some(string_of(&message)) }
    }
}

/// The outcome of a process that could not be started.
pub fn outcome_of_spawn_failure(program: &str, args: &Vec<String>, reason: &str) -> (out:
    ProcessOutcome)
    ensures
        out@ == spawn_failure(program@, texts(args@), reason@),
{
    let mut message: Vec<char> = Vec::new();
    push_str(&mut message, "Failed to spawn ");
    push_command_line(&mut message, program, args);
    push_str(&mut message, ": ");
    push_str(&mut message, reason);
    proof {
        let e = Seq::<char>::empty();
        assert(e + "Failed to spawn "@ =~= "Failed to spawn "@);
    }
    ProcessOutcome { succeeded: false, exit_code: None, error: Some(string_of(&message)) }
}

/// The supervision of one process.
pub struct Supervision {
    program: String,
    args: Vec<String>,
    stdout_open: bool,
    stderr_open: bool,
    ended: Option<ProcessOutcome>,
    classifier: Option<StreamClassifier>,
}

impl View for Supervision {
    type V = SupervisionState;

    closed spec fn view(&self) -> SupervisionState {
        SupervisionState {
            program: self.program@,
            args: texts(self.args@),
            stdout_open: self.stdout_open,
            stderr_open: self.stderr_open,
            ended: match self.ended {
                Some(outcome) => Some(outcome@),
                None => None,
            },
            classifier: match self.classifier {
                Some(classifier) => Some(classifier@),
                None => None,
            },
        }
    }
}

impl Supervision {
    /// The supervision of a process that was just started.
    pub fn start(program: &str, args: Vec<String>) -> (out: Supervision)
        ensures
            out@ == started(program@, texts(args@), None),
    {
        Supervision {
            program: owned(program),
            args,
            stdout_open: true,
            stderr_open: true,
            ended: None,
            classifier: None,
        }
    }

    /// The supervision of a process that was just started and whose standard
    /// output is watched for pairing codes.
    pub fn start_watched(program: &str, args: Vec<String>, thresholds: Thresholds) -> (out:
        Supervision)
        ensures
            out@ == started(program@, texts(args@), Some(scanning(thresholds))),
    {
        Supervision {
            program: owned(program),
            args,
            stdout_open: true,
            stderr_open: true,
            ended: None,
            classifier: Some(StreamClassifier::with_thresholds(thresholds)),
        }
    }

    /// Takes a signal, and hands out at once what it brings: the event of a
    /// line, and the pairing code that it completes.
    pub fn on_signal(&mut self, signal: ProcessSignal) -> (out: Delivery)
        ensures
            final(self)@ == after_signal(old(self)@, signal),
            match event_of(old(self)@, signal) {
                Some((line, stream)) => out.event matches Some(event) && event.line@ == line
                    && event.stream == stream,
                None => out.event is None,
            },
            match block_by(old(self)@, signal) {
                Some(block) => out.block matches Some(made) && made@ == block,
                None => out.block is None,
            },
    {
        match signal {
            ProcessSignal::Line(stream, line) => {
                let open = match stream {
                    StreamKind::Stdout => self.stdout_open,
                    StreamKind::Stderr => self.stderr_open,
                };
                if !open {
                    return Delivery { event: None, block: None };
                }
                let block = match stream {
                    StreamKind::Stdout => match &mut self.classifier {
                        Some(classifier) => classifier.feed(line.as_str()),
                        None => None,
                    },
                    StreamKind::Stderr => None,
                };
                Delivery { event: Some(ProcessEvent { line, stream }), block }
            },
            ProcessSignal::Closed(stream) => match stream {
                StreamKind::Stdout => {
                    let block = if self.stdout_open {
                        match &mut self.classifier {
                            Some(classifier) => classifier.finish(),
                            None => None,
                        }
                    } else {
                        None
                    };
                    self.stdout_open = false;
                    Delivery { event: None, block }
                },
                StreamKind::Stderr => {
                    self.stderr_open = false;
                    Delivery { event: None, block: None }
                },
            },
            ProcessSignal::Exited(code) => {
                if self.ended.is_none() {
                    let outcome = outcome_of_exit(self.program.as_str(), &self.args, code);
                    self.ended = Some(outcome);
                }
                Delivery { event: None, block: None }
            },
            ProcessSignal::WaitFailed(reason) => {
                if self.ended.is_none() {
                    let message = crate::checks::joined(
                        "Failed to wait for process: ",
                        reason.as_str(),
                    );
                    self.ended = Some(
                        ProcessOutcome { succeeded: false, exit_code: None, error: Some(message) },
                    );
                }
                Delivery { event: None, block: None }
            },
        }
    }

    /// Whether the supervision is over: the process has ended and both
    /// streams have ended.
    pub fn is_finished(&self) -> (b: bool)
        ensures
            b == outcome_of(self@) is Some,
    {
        !self.stdout_open && !self.stderr_open && self.ended.is_some()
    }

    /// The outcome, once the supervision is over.
    pub fn into_outcome(self) -> (out: Option<ProcessOutcome>)
        ensures
            match outcome_of(self@) {
                Some(outcome) => out matches Some(found) && found@ == outcome,
                None => out is None,
            },
    {
        if !self.stdout_open && !self.stderr_open {
            self.ended
        } else {
            None
        }
    }
}

} // verus!
