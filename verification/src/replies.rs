//! Reading the backend's JSON replies into plain values.
//!
//! A reply is read strictly: a field that is there with a value of the wrong
//! kind makes the whole reply unreadable. A field that is missing or `null`
//! counts as absent.

use crate::json::{
    entries_view, get_entry, items_view, lemma_items_view, shown_number, Json, JsonView,
};
use crate::text::{chars_of, parse_unsigned, unsigned_of};
use vstd::prelude::*;

verus! {

/// An optional text under `key`: `None` where the field has another kind.
pub open spec fn text_field(fields: Map<Seq<char>, JsonView>, key: Seq<char>) -> Option<
    Option<Seq<char>>,
> {
    if !fields.contains_key(key) {
        Some(None)
    } else {
        match fields[key] {
            JsonView::Null => Some(None),
            JsonView::Text(t) => Some(Some(t)),
            _ => None,
        }
    }
}

/// An optional unsigned number under `key`: `None` where the field has
/// another kind, or is a number that is no unsigned integer of 64 bits.
pub open spec fn unsigned_field(fields: Map<Seq<char>, JsonView>, key: Seq<char>) -> Option<
    Option<nat>,
> {
    if !fields.contains_key(key) {
        Some(None)
    } else {
        match fields[key] {
            JsonView::Null => Some(None),
            JsonView::Number(t) => match unsigned_of(t) {
                Some(n) => Some(Some(n)),
                None => None,
            },
            _ => None,
        }
    }
}

/// An optional truth value under `key`: `None` where the field has another
/// kind.
pub open spec fn flag_field(fields: Map<Seq<char>, JsonView>, key: Seq<char>) -> Option<
    Option<bool>,
> {
    if !fields.contains_key(key) {
        Some(None)
    } else {
        match fields[key] {
            JsonView::Null => Some(None),
            JsonView::Bool(b) => Some(Some(b)),
            _ => None,
        }
    }
}

/// A text that has to be there under `key`.
pub open spec fn required_text(fields: Map<Seq<char>, JsonView>, key: Seq<char>) -> Option<
    Seq<char>,
> {
    match text_field(fields, key) {
        Some(Some(t)) => Some(t),
        _ => None,
    }
}

/// The characters of each of a list of texts.
pub open spec fn texts(list: Seq<String>) -> Seq<Seq<char>> {
    list.map_values(|t: String| t@)
}

/// Reads an optional text.
pub fn read_text(fields: &Vec<(String, Json)>, key: &str) -> (out: Option<Option<String>>)
    ensures
        match text_field(entries_view(fields@), key@) {
            Some(Some(t)) => out matches Some(Some(found)) && found@ == t,
            Some(None) => out == Some(None::<String>),
            None => out is None,
        },
{
    match get_entry(fields, key) {
        None => Some(None),
        Some(Json::Null) => Some(None),
        Some(Json::Text(t)) => Some(Some(t.clone())),
        Some(_) => None,
    }
}

/// Reads an optional unsigned number.
pub fn read_unsigned(fields: &Vec<(String, Json)>, key: &str) -> (out: Option<Option<u64>>)
    ensures
        match unsigned_field(entries_view(fields@), key@) {
            Some(Some(n)) => out == Some(Some(n as u64)),
            Some(None) => out == Some(None::<u64>),
            None => out is None,
        },
{
    match get_entry(fields, key) {
        None => Some(None),
        Some(Json::Null) => Some(None),
        Some(Json::Number(n)) => {
            let numeral = shown_number(n);
            let digits = chars_of(numeral.as_str());
            match parse_unsigned(&digits) {
                Some(n) => Some(Some(n)),
                None => None,
            }
        },
        Some(_) => None,
    }
}

/// Reads an optional truth value.
pub fn read_flag(fields: &Vec<(String, Json)>, key: &str) -> (out: Option<Option<bool>>)
    ensures
        out == flag_field(entries_view(fields@), key@),
{
    match get_entry(fields, key) {
        None => Some(None),
        Some(Json::Null) => Some(None),
        Some(Json::Bool(b)) => Some(Some(*b)),
        Some(_) => None,
    }
}

/// The name that a list entry gives its model.
pub open spec fn name_of(item: JsonView) -> Option<Seq<char>> {
    match item {
        JsonView::Object(fields) => required_text(fields, "name"@),
        _ => None,
    }
}

/// The names of all items, or `None` where one of them has no name.
pub open spec fn names_of(items: Seq<JsonView>) -> Option<Seq<Seq<char>>>
    decreases items.len(),
{
    if items.len() == 0 {
        Some(Seq::empty())
    } else {
        match (names_of(items.drop_last()), name_of(items.last())) {
            (Some(front), Some(name)) => Some(front.push(name)),
            _ => None,
        }
    }
}

/// The names of the models that a reply lists under `models`: none where the
/// field is absent, and `None` where the reply cannot be read.
pub open spec fn model_names(tree: JsonView) -> Option<Seq<Seq<char>>> {
    match tree {
        JsonView::Object(fields) => if !fields.contains_key("models"@) {
            Some(Seq::empty())
        } else {
            match fields["models"@] {
                JsonView::Null => Some(Seq::empty()),
                JsonView::Array(items) => names_of(items),
                _ => None,
            }
        },
        _ => None,
    }
}

/// Reads the names of the models that a reply lists.
pub fn read_model_names(reply: &Json) -> (out: Option<Vec<String>>)
    ensures
        match model_names(reply@) {
            Some(names) => out matches Some(found) && texts(found@) == names,
            None => out is None,
        },
{
    let fields = match reply {
        Json::Object(fields) => fields,
        _ => {
            return None;
        },
    };
    let items = match get_entry(fields, "models") {
        None => {
            assert(texts(Seq::<String>::empty()) =~= Seq::<Seq<char>>::empty());
            return Some(Vec::new());
        },
        Some(Json::Null) => {
            assert(texts(Seq::<String>::empty()) =~= Seq::<Seq<char>>::empty());
            return Some(Vec::new());
        },
        Some(Json::Array(items)) => items,
        Some(_) => {
            return None;
        },
    };
    let mut names: Vec<String> = Vec::new();
    let mut i: usize = 0;
    proof {
        lemma_items_view(items@);
        assert(texts(names@) =~= Seq::<Seq<char>>::empty());
        assert(items_view(items@).subrange(0, 0) =~= Seq::<JsonView>::empty());
    }
    while i < items.len()
        invariant
            i <= items.len(),
            model_names(reply@) == names_of(items_view(items@)),
            items_view(items@).len() == items.len(),
            forall|j: int|
                0 <= j < items.len() ==> (#[trigger] items_view(items@)[j]) == items@[j]@,
            names_of(items_view(items@).subrange(0, i as int)) == Some(texts(names@)),
        decreases items.len() - i,
    {
        proof {
            let longer = items_view(items@).subrange(0, i + 1);
            assert(longer.drop_last() =~= items_view(items@).subrange(0, i as int));
            assert(longer.last() == items@[i as int]@);
        }
        let name = match &items[i] {
            Json::Object(own) => match read_text(own, "name") {
                Some(Some(name)) => name,
                _ => {
                    proof {
                        lemma_names_prefix(items_view(items@), i + 1);
                    }
                    return None;
                },
            },
            _ => {
                proof {
                    lemma_names_prefix(items_view(items@), i + 1);
                }
                return None;
            },
        };
        let ghost before = names@;
        names.push(name);
        assert(texts(names@) =~= texts(before).push(name@));
        i += 1;
    }
    assert(items_view(items@).subrange(0, items.len() as int) =~= items_view(items@));
    Some(names)
}

/// Where a prefix of the items has an item without a name, so has the whole.
pub proof fn lemma_names_prefix(items: Seq<JsonView>, n: int)
    requires
        0 <= n <= items.len(),
        names_of(items.subrange(0, n)) is None,
    ensures
        names_of(items) is None,
    decreases items.len() - n,
{
    if n == items.len() {
        assert(items.subrange(0, n) =~= items);
    } else {
        let longer = items.subrange(0, n + 1);
        assert(longer.drop_last() =~= items.subrange(0, n));
        lemma_names_prefix(items, n + 1);
    }
}

/// What one reply of the chat endpoint says.
#[derive(Debug, PartialEq, Eq)]
pub struct ChatReply {
    /// The text of the message, where the reply has a message.
    pub content: Option<String>,
    /// Whether the answer is complete, where the reply says so.
    pub done: Option<bool>,
    /// The time that the whole exchange took, in nanoseconds.
    pub total_duration: Option<u64>,
    /// The number of tokens that were generated.
    pub eval_count: Option<u64>,
    /// The time that generating them took, in nanoseconds.
    pub eval_duration: Option<u64>,
}

/// The model of a [`ChatReply`].
pub struct ChatReplyView {
    pub content: Option<Seq<char>>,
    pub done: Option<bool>,
    pub total_duration: Option<nat>,
    pub eval_count: Option<nat>,
    pub eval_duration: Option<nat>,
}

/// The number in an optional machine number.
pub open spec fn optional_nat(n: Option<u64>) -> Option<nat> {
    match n {
        Some(n) => Some(n as nat),
        None => None,
    }
}

impl View for ChatReply {
    type V = ChatReplyView;

    open spec fn view(&self) -> ChatReplyView {
        ChatReplyView {
            content: crate::diagnostics::optional_text(self.content),
            done: self.done,
            total_duration: optional_nat(self.total_duration),
            eval_count: optional_nat(self.eval_count),
            eval_duration: optional_nat(self.eval_duration),
        }
    }
}

/// The text of a reply's message: absent where there is no message, `None`
/// where the message is no object with a text under `content`.
pub open spec fn message_content(fields: Map<Seq<char>, JsonView>) -> Option<Option<Seq<char>>> {
    if !fields.contains_key("message"@) {
        Some(None)
    } else {
        match fields["message"@] {
            JsonView::Null => Some(None),
            JsonView::Object(message) => match required_text(message, "content"@) {
                Some(t) => Some(Some(t)),
                None => None,
            },
            _ => None,
        }
    }
}

/// What a reply of the chat endpoint says, or `None` where it cannot be read.
pub open spec fn chat_reply(tree: JsonView) -> Option<ChatReplyView> {
    match tree {
        JsonView::Object(fields) => match (
            message_content(fields),
            flag_field(fields, "done"@),
            unsigned_field(fields, "total_duration"@),
            unsigned_field(fields, "eval_count"@),
            unsigned_field(fields, "eval_duration"@),
        ) {
            (Some(content), Some(done), Some(total_duration), Some(eval_count), Some(eval_duration)) => Some(
                ChatReplyView { content, done, total_duration, eval_count, eval_duration },
            ),
            _ => None,
        },
        _ => None,
    }
}

/// Reads the text of a reply's message.
pub fn read_message_content(fields: &Vec<(String, Json)>) -> (out: Option<Option<String>>)
    ensures
        match message_content(entries_view(fields@)) {
            Some(Some(t)) => out matches Some(Some(found)) && found@ == t,
            Some(None) => out == Some(None::<String>),
            None => out is None,
        },
{
    match get_entry(fields, "message") {
        None => Some(None),
        Some(Json::Null) => Some(None),
        Some(Json::Object(message)) => match read_text(message, "content") {
            Some(Some(t)) => Some(Some(t)),
            _ => None,
        },
        Some(_) => None,
    }
}

/// Reads a reply of the chat endpoint.
pub fn read_chat_reply(reply: &Json) -> (out: Option<ChatReply>)
    ensures
        match chat_reply(reply@) {
            Some(said) => out matches Some(found) && found@ == said,
            None => out is None,
        },
{
    let fields = match reply {
        Json::Object(fields) => fields,
        _ => {
            return None;
        },
    };
    let content = match read_message_content(fields) {
        Some(found) => found,
        None => {
            return None;
        },
    };
    let done = match read_flag(fields, "done") {
        Some(found) => found,
        None => {
            return None;
        },
    };
    let total_duration = match read_unsigned(fields, "total_duration") {
        Some(found) => found,
        None => {
            return None;
        },
    };
    let eval_count = match read_unsigned(fields, "eval_count") {
        Some(found) => found,
        None => {
            return None;
        },
    };
    let eval_duration = match read_unsigned(fields, "eval_duration") {
        Some(found) => found,
        None => {
            return None;
        },
    };
    Some(ChatReply { content, done, total_duration, eval_count, eval_duration })
}

} // verus!
