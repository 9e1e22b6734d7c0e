//! The inference backend: its status, its models, and its streamed replies.

use crate::checks::usable;
use crate::diagnostics::optional_text;
use crate::json::{get_entry, items_view, lemma_items_view, Json, JsonView};
use crate::replies::{
    chat_reply, optional_nat, read_chat_reply, read_text, read_unsigned, required_text,
    text_field, unsigned_field, ChatReply, ChatReplyView,
};
use crate::stream::{
    complete_lines, decode_line, decoded_line, law_pieces_give_the_lines_of_the_whole, line_views,
    remainder, LineFramer,
};
use crate::text::{chars_of, contains, find, owned, string_of, trim, trimmed};
use vstd::prelude::*;

verus! {

/// Whether the backend answers, and what it says it is.
#[derive(Debug, PartialEq, Eq)]
pub struct OllamaStatus {
    pub installed: bool,
    pub api_reachable: bool,
    pub version: Option<String>,
}

/// A model that the backend has.
#[derive(Debug, PartialEq, Eq)]
pub struct ModelInfo {
    pub name: String,
    pub size: u64,
    pub modified_at: String,
}

/// One message of a conversation.
#[derive(Debug, PartialEq, Eq)]
pub struct Message {
    pub role: String,
    pub content: String,
}

/// A piece of an answer, as it comes in.
#[derive(Clone, Debug, PartialEq, Eq)]
pub struct ChatTokenEvent {
    pub content: String,
    pub done: bool,
}

/// How far the download of a model is.
#[derive(Clone, Debug, PartialEq, Eq)]
pub struct PullProgressEvent {
    pub status: String,
    pub completed: Option<u64>,
    pub total: Option<u64>,
}

/// A model that the backend has loaded.
#[derive(Debug, PartialEq, Eq)]
pub struct RunningModel {
    pub name: String,
    pub size: Option<u64>,
    pub expires_at: Option<String>,
}

/// What the backend says it is: its greeting, trimmed, where the greeting
/// names it; `unknown` otherwise.
pub open spec fn greeting_version(body: Seq<char>) -> Seq<char> {
    if contains(body, "Ollama"@) {
        trim(body)
    } else {
        "unknown"@
    }
}

/// The status of the backend, from the body of its success response; `None`
/// where no success response came. A backend that answers is installed.
pub fn ollama_check(greeting: Option<&str>) -> (status: OllamaStatus)
    ensures
        status.api_reachable == greeting is Some,
        status.installed == greeting is Some,
        optional_text(status.version) == (match greeting {
            Some(body) => Some(greeting_version(body@)),
            None => None,
        }),
{
    let version = match greeting {
        Some(body) => {
            let text = chars_of(body);
            let name = chars_of("Ollama");
            if find(&text, &name).is_some() {
                Some(string_of(&trimmed(&text)))
            } else {
                Some(owned("unknown"))
            }
        },
        None => None,
    };
    let api_reachable = version.is_some();
    OllamaStatus { installed: api_reachable, api_reachable, version }
}

/// The model of a [`RunningModel`].
pub struct RunningView {
    pub name: Seq<char>,
    pub size: Option<nat>,
    pub expires_at: Option<Seq<char>>,
}

impl View for RunningModel {
    type V = RunningView;

    open spec fn view(&self) -> RunningView {
        RunningView {
            name: self.name@,
            size: optional_nat(self.size),
            expires_at: optional_text(self.expires_at),
        }
    }
}

/// The models of a list of loaded models.
pub open spec fn running_views(list: Seq<RunningModel>) -> Seq<RunningView> {
    list.map_values(|m: RunningModel| m@)
}

/// What an entry says of a loaded model: it has a name, and may say how
/// large the model is and when it leaves memory.
pub open spec fn running_model(item: JsonView) -> Option<RunningView> {
    match item {
        JsonView::Object(fields) => match (
            required_text(fields, "name"@),
            unsigned_field(fields, "size"@),
            text_field(fields, "expires_at"@),
        ) {
            (Some(name), Some(size), Some(expires_at)) => Some(
                RunningView { name, size, expires_at },
            ),
            _ => None,
        },
        _ => None,
    }
}

/// What all entries say, or `None` where one of them cannot be read.
pub open spec fn running_models_of(items: Seq<JsonView>) -> Option<Seq<RunningView>>
    decreases items.len(),
{
    if items.len() == 0 {
        Some(Seq::empty())
    } else {
        match (running_models_of(items.drop_last()), running_model(items.last())) {
            (Some(front), Some(last)) => Some(front.push(last)),
            _ => None,
        }
    }
}

/// The loaded models that a reply lists under `models`: none where the field
/// is absent, and `None` where the reply cannot be read.
pub open spec fn running_models(tree: JsonView) -> Option<Seq<RunningView>> {
    match tree {
        JsonView::Object(fields) => if !fields.contains_key("models"@) {
            Some(Seq::empty())
        } else {
            match fields["models"@] {
                JsonView::Null => Some(Seq::empty()),
                JsonView::Array(items) => running_models_of(items),
                _ => None,
            }
        },
        _ => None,
    }
}

/// Where a prefix of the entries has one that cannot be read, so has the
/// whole.
pub proof fn lemma_running_prefix(items: Seq<JsonView>, n: int)
    requires
        0 <= n <= items.len(),
        running_models_of(items.subrange(0, n)) is None,
    ensures
        running_models_of(items) is None,
    decreases items.len() - n,
{
    if n == items.len() {
        assert(items.subrange(0, n) =~= items);
    } else {
        let longer = items.subrange(0, n + 1);
        assert(longer.drop_last() =~= items.subrange(0, n));
        lemma_running_prefix(items, n + 1);
    }
}

/// Reads what an entry says of a loaded model.
pub fn read_running_model(item: &Json) -> (out: Option<RunningModel>)
    ensures
        match running_model(item@) {
            Some(said) => out matches Some(found) && found@ == said,
            None => out is None,
        },
{
    let fields = match item {
        Json::Object(fields) => fields,
        _ => {
            return None;
        },
    };
    let name = match read_text(fields, "name") {
        Some(Some(name)) => name,
        _ => {
            return None;
        },
    };
    let size = match read_unsigned(fields, "size") {
        Some(found) => found,
        None => {
            return None;
        },
    };
    let expires_at = match read_text(fields, "expires_at") {
        Some(found) => found,
        None => {
            return None;
        },
    };
    Some(RunningModel { name, size, expires_at })
}

/// Reads the loaded models that a reply lists.
pub fn read_running_models(reply: &Json) -> (out: Option<Vec<RunningModel>>)
    ensures
        match running_models(reply@) {
            Some(list) => out matches Some(found) && running_views(found@) == list,
            None => out is None,
        },
{
    let fields = match reply {
        Json::Object(fields) => fields,
        _ => {
            return None;
        },
    };
    let ghost nothing = Seq::<RunningModel>::empty();
    assert(running_views(nothing) =~= Seq::<RunningView>::empty());
    let items = match get_entry(fields, "models") {
        None => {
            return Some(Vec::new());
        },
        Some(Json::Null) => {
            return Some(Vec::new());
        },
        Some(Json::Array(items)) => items,
        Some(_) => {
            return None;
        },
    };
    let mut list: Vec<RunningModel> = Vec::new();
    let mut i: usize = 0;
    proof {
        lemma_items_view(items@);
        assert(items_view(items@).subrange(0, 0) =~= Seq::<JsonView>::empty());
    }
    while i < items.len()
        invariant
            i <= items.len(),
            running_models(reply@) == running_models_of(items_view(items@)),
            items_view(items@).len() == items.len(),
            forall|j: int|
                0 <= j < items.len() ==> (#[trigger] items_view(items@)[j]) == items@[j]@,
            running_models_of(items_view(items@).subrange(0, i as int)) == Some(
                running_views(list@),
            ),
        decreases items.len() - i,
    {
        proof {
            let longer = items_view(items@).subrange(0, i + 1);
            assert(longer.drop_last() =~= items_view(items@).subrange(0, i as int));
            assert(longer.last() == items@[i as int]@);
        }
        match read_running_model(&items[i]) {
            Some(found) => {
                let ghost before = list@;
                list.push(found);
                assert(running_views(list@) =~= running_views(before).push(found@));
            },
            None => {
                proof {
                    lemma_running_prefix(items_view(items@), i + 1);
                }
                return None;
            },
        }
        i += 1;
    }
    assert(items_view(items@).subrange(0, items.len() as int) =~= items_view(items@));
    Some(list)
}

/// The model of a [`PullProgressEvent`].
pub struct PullView {
    pub status: Seq<char>,
    pub completed: Option<nat>,
    pub total: Option<nat>,
}

impl View for PullProgressEvent {
    type V = PullView;

    open spec fn view(&self) -> PullView {
        PullView {
            status: self.status@,
            completed: optional_nat(self.completed),
            total: optional_nat(self.total),
        }
    }
}

/// The models of a list of progress events.
pub open spec fn pull_views(events: Seq<PullProgressEvent>) -> Seq<PullView> {
    events.map_values(|e: PullProgressEvent| e@)
}

/// The progress that a document reports: it has a status, and may say how
/// much is done and how much there is.
pub open spec fn pull_event(tree: JsonView) -> Option<PullView> {
    match tree {
        JsonView::Object(fields) => match (
            required_text(fields, "status"@),
            unsigned_field(fields, "completed"@),
            unsigned_field(fields, "total"@),
        ) {
            (Some(status), Some(completed), Some(total)) => Some(
                PullView { status, completed, total },
            ),
            _ => None,
        },
        _ => None,
    }
}

/// The progress that a line reports; a line that cannot be read reports
/// none and is passed over.
pub open spec fn line_pull_event(line: Seq<u8>) -> Option<PullView> {
    match decoded_line(line) {
        Some(tree) => pull_event(tree),
        None => None,
    }
}

/// The progress that a row of lines reports, in order.
pub open spec fn pull_events(lines: Seq<Seq<u8>>) -> Seq<PullView>
    decreases lines.len(),
{
    if lines.len() == 0 {
        Seq::empty()
    } else {
        match line_pull_event(lines.last()) {
            Some(event) => pull_events(lines.drop_last()).push(event),
            None => pull_events(lines.drop_last()),
        }
    }
}

/// The progress of two rows of lines is the progress of the first, then that
/// of the second.
pub proof fn lemma_pull_events_of_rows(x: Seq<Seq<u8>>, y: Seq<Seq<u8>>)
    ensures
        pull_events(x + y) == pull_events(x) + pull_events(y),
    decreases y.len(),
{
    if y.len() == 0 {
        assert(x + y =~= x);
        assert(pull_events(x) + pull_events(y) =~= pull_events(x));
    } else {
        assert((x + y).drop_last() =~= x + y.drop_last());
        assert((x + y).last() == y.last());
        lemma_pull_events_of_rows(x, y.drop_last());
        match line_pull_event(y.last()) {
            Some(event) => {
                assert((pull_events(x) + pull_events(y.drop_last())).push(event) =~= pull_events(x)
                    + pull_events(y.drop_last()).push(event));
            },
            None => {},
        }
    }
}

/// A reply on a download that comes in two pieces reports the progress that
/// the whole reply reports, in the same order, wherever it is cut.
pub proof fn law_pull_in_pieces(a: Seq<u8>, b: Seq<u8>)
    ensures
        pull_events(complete_lines(a + b)) == pull_events(complete_lines(a)) + pull_events(
            complete_lines(remainder(a) + b),
        ),
        remainder(a + b) == remainder(remainder(a) + b),
{
    law_pieces_give_the_lines_of_the_whole(a, b);
    lemma_pull_events_of_rows(complete_lines(a), complete_lines(remainder(a) + b));
}

/// Reads the progress that a document reports.
pub fn read_pull_event(tree: &Json) -> (out: Option<PullProgressEvent>)
    ensures
        match pull_event(tree@) {
            Some(event) => out matches Some(found) && found@ == event,
            None => out is None,
        },
{
    let fields = match tree {
        Json::Object(fields) => fields,
        _ => {
            return None;
        },
    };
    let status = match read_text(fields, "status") {
        Some(Some(status)) => status,
        _ => {
            return None;
        },
    };
    let completed = match read_unsigned(fields, "completed") {
        Some(found) => found,
        None => {
            return None;
        },
    };
    let total = match read_unsigned(fields, "total") {
        Some(found) => found,
        None => {
            return None;
        },
    };
    Some(PullProgressEvent { status, completed, total })
}

/// Reads the progress of a download from the backend's streamed reply.
pub struct PullDecoder {
    framer: LineFramer,
}

impl View for PullDecoder {
    type V = Seq<u8>;

    closed spec fn view(&self) -> Seq<u8> {
        self.framer@
    }
}

impl PullDecoder {
    /// A decoder at the start of a reply.
    pub fn new() -> (out: PullDecoder)
        ensures
            out@ == Seq::<u8>::empty(),
    {
        PullDecoder { framer: LineFramer::new() }
    }

    /// Takes the next piece of the reply and hands out the progress that
    /// the lines completed by it report, in order.
    pub fn feed(&mut self, chunk: &[u8]) -> (events: Vec<PullProgressEvent>)
        ensures
            pull_views(events@) == pull_events(complete_lines(old(self)@ + chunk@)),
            final(self)@ == remainder(old(self)@ + chunk@),
    {
        let lines = self.framer.push(chunk);
        let mut events: Vec<PullProgressEvent> = Vec::new();
        let mut i: usize = 0;
        assert(line_views(lines@).subrange(0, 0) =~= Seq::<Seq<u8>>::empty());
        assert(pull_views(events@) =~= Seq::<PullView>::empty());
        while i < lines.len()
            invariant
                i <= lines.len(),
                pull_views(events@) == pull_events(line_views(lines@).subrange(0, i as int)),
            decreases lines.len() - i,
        {
            proof {
                let longer = line_views(lines@).subrange(0, i + 1);
                assert(longer.drop_last() =~= line_views(lines@).subrange(0, i as int));
                assert(longer.last() == lines@[i as int]@);
            }
            let found = match decode_line(&lines[i]) {
                Some(tree) => read_pull_event(&tree),
                None => None,
            };
            match found {
                Some(event) => {
                    let ghost before = events@;
                    events.push(event);
                    assert(pull_views(events@) =~= pull_views(before).push(event@));
                },
                None => {},
            }
            i += 1;
        }
        assert(line_views(lines@).subrange(0, lines.len() as int) =~= line_views(lines@));
        events
    }
}

/// The answer of the backend to a conversation.
#[derive(Debug, PartialEq, Eq)]
pub struct ChatResponse {
    pub message: Message,
    pub done: bool,
    pub total_duration: Option<u64>,
    pub eval_count: Option<u64>,
    pub eval_duration: Option<u64>,
}

/// The model of a [`ChatTokenEvent`].
pub struct TokenView {
    pub content: Seq<char>,
    pub done: bool,
}

impl View for ChatTokenEvent {
    type V = TokenView;

    open spec fn view(&self) -> TokenView {
        TokenView { content: self.content@, done: self.done }
    }
}

/// The models of a list of token events.
pub open spec fn token_views(events: Seq<ChatTokenEvent>) -> Seq<TokenView> {
    events.map_values(|e: ChatTokenEvent| e@)
}

/// What a streamed answer has come to.
pub struct ChatTotals {
    /// The text of all pieces so far.
    pub content: Seq<char>,
    /// Whether the last piece has come.
    pub done: bool,
    pub total_duration: Option<nat>,
    pub eval_count: Option<nat>,
    pub eval_duration: Option<nat>,
}

/// The answer before its first piece.
pub open spec fn no_totals() -> ChatTotals {
    ChatTotals {
        content: Seq::empty(),
        done: false,
        total_duration: None,
        eval_count: None,
        eval_duration: None,
    }
}

/// The piece of the answer on a line. A piece says whether it is the last;
/// a line that does not is no piece and is passed over.
pub open spec fn stream_chunk(line: Seq<u8>) -> Option<ChatReplyView> {
    match decoded_line(line) {
        Some(tree) => match chat_reply(tree) {
            Some(reply) => if reply.done is Some {
                Some(reply)
            } else {
                None
            },
            None => None,
        },
        None => None,
    }
}

/// The answer after a piece: its text is added, and the last piece brings
/// the figures.
pub open spec fn after_chunk(totals: ChatTotals, reply: ChatReplyView) -> ChatTotals {
    let content = match reply.content {
        Some(text) => totals.content + text,
        None => totals.content,
    };
    if reply.done == Some(true) {
        ChatTotals {
            content,
            done: true,
            total_duration: reply.total_duration,
            eval_count: reply.eval_count,
            eval_duration: reply.eval_duration,
        }
    } else {
        ChatTotals { content, ..totals }
    }
}

/// The event that a piece brings out: its text, where it has one.
pub open spec fn token_of(reply: ChatReplyView) -> Option<TokenView> {
    match reply.content {
        Some(text) => Some(TokenView { content: text, done: reply.done == Some(true) }),
        None => None,
    }
}

/// The answer after a row of lines.
pub open spec fn totals_after(totals: ChatTotals, lines: Seq<Seq<u8>>) -> ChatTotals
    decreases lines.len(),
{
    if lines.len() == 0 {
        totals
    } else {
        match stream_chunk(lines.last()) {
            Some(reply) => after_chunk(totals_after(totals, lines.drop_last()), reply),
            None => totals_after(totals, lines.drop_last()),
        }
    }
}

/// The events that a row of lines brings out, in order.
pub open spec fn tokens_of(lines: Seq<Seq<u8>>) -> Seq<TokenView>
    decreases lines.len(),
{
    if lines.len() == 0 {
        Seq::empty()
    } else {
        match stream_chunk(lines.last()) {
            Some(reply) => match token_of(reply) {
                Some(token) => tokens_of(lines.drop_last()).push(token),
                None => tokens_of(lines.drop_last()),
            },
            None => tokens_of(lines.drop_last()),
        }
    }
}

/// The events of two rows of lines are the events of the first, then those
/// of the second, and the answer after both is the answer after the second,
/// begun where the first left it.
pub proof fn lemma_chat_of_rows(totals: ChatTotals, x: Seq<Seq<u8>>, y: Seq<Seq<u8>>)
    ensures
        tokens_of(x + y) == tokens_of(x) + tokens_of(y),
        totals_after(totals, x + y) == totals_after(totals_after(totals, x), y),
    decreases y.len(),
{
    if y.len() == 0 {
        assert(x + y =~= x);
        assert(tokens_of(x) + tokens_of(y) =~= tokens_of(x));
    } else {
        assert((x + y).drop_last() =~= x + y.drop_last());
        assert((x + y).last() == y.last());
        lemma_chat_of_rows(totals, x, y.drop_last());
        match stream_chunk(y.last()) {
            Some(reply) => match token_of(reply) {
                Some(token) => {
                    assert((tokens_of(x) + tokens_of(y.drop_last())).push(token) =~= tokens_of(x)
                        + tokens_of(y.drop_last()).push(token));
                },
                None => {},
            },
            None => {},
        }
    }
}

/// An answer that comes in two pieces brings out the events that the whole
/// answer brings out, in the same order, and comes to the same text and
/// figures, wherever it is cut.
pub proof fn law_chat_in_pieces(totals: ChatTotals, a: Seq<u8>, b: Seq<u8>)
    ensures
        tokens_of(complete_lines(a + b)) == tokens_of(complete_lines(a)) + tokens_of(
            complete_lines(remainder(a) + b),
        ),
        totals_after(totals, complete_lines(a + b)) == totals_after(
            totals_after(totals, complete_lines(a)),
            complete_lines(remainder(a) + b),
        ),
        remainder(a + b) == remainder(remainder(a) + b),
{
    law_pieces_give_the_lines_of_the_whole(a, b);
    lemma_chat_of_rows(totals, complete_lines(a), complete_lines(remainder(a) + b));
}

/// The model of a [`ChatStream`].
pub struct ChatStreamState {
    /// The bytes that wait for their newline.
    pub pending: Seq<u8>,
    pub totals: ChatTotals,
}

/// Collects a streamed answer.
pub struct ChatStream {
    framer: LineFramer,
    content: String,
    done: bool,
    total_duration: Option<u64>,
    eval_count: Option<u64>,
    eval_duration: Option<u64>,
}

impl View for ChatStream {
    type V = ChatStreamState;

    closed spec fn view(&self) -> ChatStreamState {
        ChatStreamState {
            pending: self.framer@,
            totals: ChatTotals {
                content: self.content@,
                done: self.done,
                total_duration: optional_nat(self.total_duration),
                eval_count: optional_nat(self.eval_count),
                eval_duration: optional_nat(self.eval_duration),
            },
        }
    }
}

impl ChatStream {
    /// A stream at the start of an answer.
    pub fn new() -> (out: ChatStream)
        ensures
            out@ == (ChatStreamState { pending: Seq::empty(), totals: no_totals() }),
    {
        ChatStream {
            framer: LineFramer::new(),
            content: String::new(),
            done: false,
            total_duration: None,
            eval_count: None,
            eval_duration: None,
        }
    }

    /// Takes one piece of the answer.
    fn take(&mut self, reply: ChatReply) -> (event: Option<ChatTokenEvent>)
        requires
            reply.done is Some,
        ensures
            final(self)@ == (ChatStreamState {
                totals: after_chunk(old(self)@.totals, reply@),
                ..old(self)@
            }),
            match token_of(reply@) {
                Some(token) => event matches Some(found) && found@ == token,
                None => event is None,
            },
    {
        let last = match reply.done {
            Some(done) => done,
            None => false,
        };
        if last {
            self.done = true;
            self.total_duration = reply.total_duration;
            self.eval_count = reply.eval_count;
            self.eval_duration = reply.eval_duration;
        }
        match reply.content {
            Some(text) => {
                self.content.append(text.as_str());
                Some(ChatTokenEvent { content: text, done: last })
            },
            None => None,
        }
    }

    /// Takes the next piece of the reply and hands out the events of the
    /// lines completed by it, in order.
    pub fn feed(&mut self, chunk: &[u8]) -> (events: Vec<ChatTokenEvent>)
        ensures
            token_views(events@) == tokens_of(complete_lines(old(self)@.pending + chunk@)),
            final(self)@.pending == remainder(old(self)@.pending + chunk@),
            final(self)@.totals == totals_after(
                old(self)@.totals,
                complete_lines(old(self)@.pending + chunk@),
            ),
    {
        let lines = self.framer.push(chunk);
        let mut events: Vec<ChatTokenEvent> = Vec::new();
        let mut i: usize = 0;
        assert(line_views(lines@).subrange(0, 0) =~= Seq::<Seq<u8>>::empty());
        assert(token_views(events@) =~= Seq::<TokenView>::empty());
        while i < lines.len()
            invariant
                i <= lines.len(),
                self@.pending == remainder(old(self)@.pending + chunk@),
                token_views(events@) == tokens_of(line_views(lines@).subrange(0, i as int)),
                self@.totals == totals_after(
                    old(self)@.totals,
                    line_views(lines@).subrange(0, i as int),
                ),
            decreases lines.len() - i,
        {
            proof {
                let longer = line_views(lines@).subrange(0, i + 1);
                assert(longer.drop_last() =~= line_views(lines@).subrange(0, i as int));
                assert(longer.last() == lines@[i as int]@);
            }
            let found = match decode_line(&lines[i]) {
                Some(tree) => read_chat_reply(&tree),
                None => None,
            };
            match found {
                Some(reply) => {
                    if reply.done.is_some() {
                        match self.take(reply) {
                            Some(event) => {
                                let ghost before = events@;
                                events.push(event);
                                assert(token_views(events@) =~= token_views(before).push(event@));
                            },
                            None => {},
                        }
                    }
                },
                None => {},
            }
            i += 1;
        }
        assert(line_views(lines@).subrange(0, lines.len() as int) =~= line_views(lines@));
        events
    }

    /// The answer as it stands when the reply has ended: the text of all
    /// pieces, from the assistant, with the figures of the last piece.
    pub fn finish(self) -> (response: ChatResponse)
        ensures
            response.message.role@ == "assistant"@,
            response.message.content@ == self@.totals.content,
            response.done == self@.totals.done,
            optional_nat(response.total_duration) == self@.totals.total_duration,
            optional_nat(response.eval_count) == self@.totals.eval_count,
            optional_nat(response.eval_duration) == self@.totals.eval_duration,
    {
        ChatResponse {
            message: Message { role: owned("assistant"), content: self.content },
            done: self.done,
            total_duration: self.total_duration,
            eval_count: self.eval_count,
            eval_duration: self.eval_duration,
        }
    }
}

impl ChatResponse {
    /// Tokens generated and the nanoseconds that it took, where the answer
    /// says both and the time is not zero: what a speed is computed from.
    pub fn speed_sample(&self) -> (out: Option<(u64, u64)>)
        ensures
            out == (match (self.eval_count, self.eval_duration) {
                (Some(count), Some(duration)) => if duration > 0 {
                    Some((count, duration))
                } else {
                    None
                },
                _ => None,
            }),
    {
        match (self.eval_count, self.eval_duration) {
            (Some(count), Some(duration)) => usable(Some((count, duration))),
            _ => None,
        }
    }
}

} // verus!
