//! A JSON document as a tree of plain values, with its mathematical model.
//!
//! Reading a text as JSON and writing a document as text is the work of
//! `serde_json`. What the library knows of it is stated with the trusted
//! items at the end of this file.

use crate::text::decimal;
use vstd::prelude::*;

verus! {

/// A JSON value.
///
/// A number is held as `serde_json` holds it. An object is a list of entries
/// in which the last entry for a key is the one that counts.
#[derive(Debug, PartialEq, Eq)]
pub enum Json {
    Null,
    Bool(bool),
    Number(serde_json::Number),
    Text(String),
    Array(Vec<Json>),
    Object(Vec<(String, Json)>),
}

/// The model of a [`Json`] value: a number is its numeral, an object is a
/// map from keys to models.
pub enum JsonView {
    Null,
    Bool(bool),
    Number(Seq<char>),
    Text(Seq<char>),
    Array(Seq<JsonView>),
    Object(Map<Seq<char>, JsonView>),
}

/// The models of the items of an array, in order.
pub open spec fn items_view(items: Seq<Json>) -> Seq<JsonView>
    decreases items, 0nat,
{
    if items.len() == 0 {
        Seq::empty()
    } else {
        items_view(items.drop_last()).push(json_view(items.last()))
    }
}

/// The map that a list of entries stands for: later entries win.
pub open spec fn entries_view(entries: Seq<(String, Json)>) -> Map<Seq<char>, JsonView>
    decreases entries, 0nat,
{
    if entries.len() == 0 {
        Map::empty()
    } else {
        entries_view(entries.drop_last()).insert(entries.last().0@, json_view(entries.last().1))
    }
}

/// The model of a value.
pub open spec fn json_view(j: Json) -> JsonView
    decreases j, 1nat,
{
    match j {
        Json::Null => JsonView::Null,
        Json::Bool(b) => JsonView::Bool(b),
        Json::Number(n) => JsonView::Number(numeral_of(n)),
        Json::Text(t) => JsonView::Text(t@),
        Json::Array(items) => JsonView::Array(items_view(items@)),
        Json::Object(entries) => JsonView::Object(entries_view(entries@)),
    }
}

impl View for Json {
    type V = JsonView;

    open spec fn view(&self) -> JsonView {
        json_view(*self)
    }
}

/// The model of an array has the models of its items, one for one.
pub proof fn lemma_items_view(items: Seq<Json>)
    ensures
        items_view(items).len() == items.len(),
        forall|i: int| 0 <= i < items.len() ==> (#[trigger] items_view(items)[i]) == json_view(items[i]),
    decreases items.len(),
{
    if items.len() > 0 {
        lemma_items_view(items.drop_last());
    }
}

/// Whether some entry of the list has the key.
pub open spec fn has_key(entries: Seq<(String, Json)>, key: Seq<char>) -> bool {
    exists|j: int| 0 <= j < entries.len() && (#[trigger] entries[j]).0@ == key
}

/// A key is in the map of a list of entries exactly when an entry has it.
pub proof fn lemma_entries_keys(entries: Seq<(String, Json)>, key: Seq<char>)
    ensures
        entries_view(entries).contains_key(key) <==> has_key(entries, key),
    decreases entries.len(),
{
    if entries.len() > 0 {
        let front = entries.drop_last();
        lemma_entries_keys(front, key);
        if has_key(entries, key) {
            let j = choose|j: int| 0 <= j < entries.len() && (#[trigger] entries[j]).0@ == key;
            if j < front.len() {
                assert(front[j].0@ == key);
            }
        }
        if has_key(front, key) {
            let j = choose|j: int| 0 <= j < front.len() && (#[trigger] front[j]).0@ == key;
            assert(entries[j].0@ == key);
        }
        if entries.last().0@ == key {
            assert(entries[entries.len() - 1].0@ == key);
        }
    }
}

/// Taking out one entry changes the map at most at that entry's key.
pub proof fn lemma_entries_remove_at(entries: Seq<(String, Json)>, at: int)
    requires
        0 <= at < entries.len(),
    ensures
        entries_view(entries.remove(at)).remove(entries[at].0@) == entries_view(entries).remove(
            entries[at].0@,
        ),
    decreases entries.len(),
{
    let key = entries[at].0@;
    let front = entries.drop_last();
    if at == entries.len() - 1 {
        assert(entries.remove(at) =~= front);
        assert(entries_view(front).remove(key) =~= entries_view(entries).remove(key));
    } else {
        let last = entries.last();
        let rest = entries.remove(at);
        assert(rest.drop_last() =~= front.remove(at));
        assert(rest.last() == last);
        lemma_entries_remove_at(front, at);
        let a = entries_view(front.remove(at));
        let b = entries_view(front);
        assert(a.remove(key) == b.remove(key));
        let x = a.insert(last.0@, json_view(last.1)).remove(key);
        let y = b.insert(last.0@, json_view(last.1)).remove(key);
        assert forall|k: Seq<char>| #[trigger] x.dom().contains(k) == y.dom().contains(k) by {
            if k != key && k != last.0@ {
                assert(a.remove(key).dom().contains(k) <==> a.dom().contains(k));
                assert(b.remove(key).dom().contains(k) <==> b.dom().contains(k));
            }
        }
        assert forall|k: Seq<char>| x.dom().contains(k) implies #[trigger] x[k] == y[k] by {
            if k != key && k != last.0@ {
                assert(a.remove(key)[k] == a[k]);
                assert(b.remove(key)[k] == b[k]);
            }
        }
        assert(x =~= y);
    }
}

/// The position of the entry that counts for `key`: the last one that has it.
pub fn find_entry(entries: &Vec<(String, Json)>, key: &String) -> (out: Option<usize>)
    ensures
        match out {
            Some(at) => at < entries.len() && entries@[at as int].0@ == key@ && entries_view(
                entries@,
            ).contains_key(key@) && entries_view(entries@)[key@] == entries@[at as int].1@,
            None => !entries_view(entries@).contains_key(key@),
        },
{
    let mut i: usize = entries.len();
    assert(entries@.subrange(0, i as int) =~= entries@);
    while i > 0
        invariant
            i <= entries.len(),
            entries_view(entries@).contains_key(key@) == entries_view(
                entries@.subrange(0, i as int),
            ).contains_key(key@),
            entries_view(entries@).contains_key(key@) ==> entries_view(entries@)[key@]
                == entries_view(entries@.subrange(0, i as int))[key@],
        decreases i,
    {
        proof {
            let pre = entries@.subrange(0, i as int);
            assert(pre.drop_last() =~= entries@.subrange(0, i - 1));
            assert(pre.last() == entries@[i - 1]);
        }
        if entries[i - 1].0 == *key {
            return Some(i - 1);
        }
        i -= 1;
    }
    None
}

/// Takes out every entry that has the key.
pub fn drop_entries(entries: &mut Vec<(String, Json)>, key: &String)
    ensures
        entries_view(final(entries)@) == entries_view(old(entries)@).remove(key@),
{
    let mut i: usize = 0;
    while i < entries.len()
        invariant
            i <= entries.len(),
            entries_view(entries@).remove(key@) == entries_view(old(entries)@).remove(key@),
            forall|j: int| 0 <= j < i ==> (#[trigger] entries@[j]).0@ != key@,
        decreases entries.len() - i,
    {
        if entries[i].0 == *key {
            proof {
                lemma_entries_remove_at(entries@, i as int);
            }
            let _gone = entries.remove(i);
        } else {
            i += 1;
        }
    }
    proof {
        lemma_entries_keys(entries@, key@);
        assert(entries_view(entries@).remove(key@) =~= entries_view(entries@));
    }
}

/// Takes the value of `key` out of the entries, if there is one.
pub fn take_entry(entries: &mut Vec<(String, Json)>, key: &str) -> (out: Option<Json>)
    ensures
        entries_view(final(entries)@) == entries_view(old(entries)@).remove(key@),
        match out {
            Some(value) => entries_view(old(entries)@).contains_key(key@) && entries_view(
                old(entries)@,
            )[key@] == value@,
            None => !entries_view(old(entries)@).contains_key(key@),
        },
{
    let key = crate::text::owned(key);
    match find_entry(entries, &key) {
        Some(at) => {
            proof {
                lemma_entries_remove_at(entries@, at as int);
            }
            let gone = entries.remove(at);
            let ghost mid = entries@;
            drop_entries(entries, &key);
            assert(entries_view(entries@) =~= entries_view(mid).remove(key@).remove(key@));
            Some(gone.1)
        },
        None => {
            assert(entries_view(entries@).remove(key@) =~= entries_view(entries@));
            None
        },
    }
}

/// Sets the value of `key`, in place of any value that it had.
pub fn put_entry(entries: &mut Vec<(String, Json)>, key: &str, value: Json)
    ensures
        entries_view(final(entries)@) == entries_view(old(entries)@).insert(key@, value@),
{
    let key = crate::text::owned(key);
    drop_entries(entries, &key);
    let ghost mid = entries@;
    entries.push((key, value));
    proof {
        assert(entries@.drop_last() =~= mid);
        assert(entries_view(entries@) =~= entries_view(old(entries)@).insert(key@, value@));
    }
}

/// Takes out the value of `key`, whatever it is.
pub fn drop_entry(entries: &mut Vec<(String, Json)>, key: &str)
    ensures
        entries_view(final(entries)@) == entries_view(old(entries)@).remove(key@),
{
    let key = crate::text::owned(key);
    drop_entries(entries, &key);
}

/// The value of `key` in the entries, if there is one.
pub fn get_entry<'a>(entries: &'a Vec<(String, Json)>, key: &str) -> (out: Option<&'a Json>)
    ensures
        match out {
            Some(value) => entries_view(entries@).contains_key(key@) && entries_view(
                entries@,
            )[key@] == value@,
            None => !entries_view(entries@).contains_key(key@),
        },
{
    let key = crate::text::owned(key);
    match find_entry(entries, &key) {
        Some(at) => Some(&entries[at].1),
        None => None,
    }
}

/// Reads a text as a JSON document; an error is handed back as its
/// message.
pub fn parse_text(text: &str) -> (out: Result<Json, String>)
    ensures
        match out {
            Ok(doc) => parsed_text(text@) == Some(doc@),
            Err(_) => parsed_text(text@) is None,
        },
{
    match parse_value(text) {
        Ok(value) => Ok(tree_of_value(value)),
        Err(error) => Err(error_text(&error)),
    }
}

/// Writes a document as text, indented. It succeeds exactly where
/// `serde_json` writes a value that holds what the document holds, and the
/// text is the one that `serde_json` writes; an error is handed back as its
/// message.
pub fn render_text(doc: &Json) -> (out: Result<String, String>)
    ensures
        match out {
            Ok(text) => rendered_text(doc@) == Some(text@),
            Err(_) => rendered_text(doc@) is None,
        },
{
    let value = value_of_tree(doc);
    match render_value(&value) {
        Ok(text) => Ok(text),
        Err(error) => Err(error_text(&error)),
    }
}

/// A JSON number that stands for `n`.
pub fn number(n: u64) -> (out: Json)
    ensures
        out@ == JsonView::Number(decimal(n as nat)),
{
    Json::Number(number_from(n))
}

/// `serde_json::Value`: a JSON value as `serde_json` holds it. Verus sees
/// nothing inside it; [`value_tree`] names what it holds.
#[verifier::external_type_specification]
#[verifier::external_body]
pub struct ExValue(serde_json::Value);

/// `serde_json::Number`: a JSON number as `serde_json` holds it. Verus sees
/// nothing inside it; [`numeral_of`] names its numeral.
#[verifier::external_type_specification]
#[verifier::external_body]
pub struct ExNumber(serde_json::Number);

/// `serde_json::Error`: why a text was refused or a value could not be
/// written. Verus sees nothing inside it.
#[verifier::external_type_specification]
#[verifier::external_body]
pub struct ExError(serde_json::Error);

/// The numeral of a `serde_json::Number`: the text that it displays, which
/// is also the text that stands for it in a document.
pub uninterp spec fn numeral_of(n: serde_json::Number) -> Seq<char>;

/// What a `serde_json::Value` holds, as the model of a document.
pub uninterp spec fn value_tree(v: serde_json::Value) -> JsonView;

/// What `serde_json::from_str` makes of a text, read as a
/// `serde_json::Value`: the model of the value, or `None` where the text is
/// refused.
pub uninterp spec fn parsed_text(text: Seq<char>) -> Option<JsonView>;

/// What `serde_json::to_string_pretty` makes of a value with this model: the
/// text that it writes, or `None` where it fails.
pub uninterp spec fn rendered_text(tree: JsonView) -> Option<Seq<char>>;

/// Calls `serde_json::from_str` for a `serde_json::Value`.
///
/// Trusted: whether the text is accepted, and what the value holds, depends
/// on the text alone; the outcome is named [`parsed_text`]. Which texts are
/// accepted is not stated.
#[verifier::external_body]
pub(crate) fn parse_value(text: &str) -> (out: Result<serde_json::Value, serde_json::Error>)
    ensures
        match out {
            Ok(value) => parsed_text(text@) == Some(value_tree(value)),
            Err(_) => parsed_text(text@) is None,
        },
{
    serde_json::from_str::<serde_json::Value>(text)
}

/// Calls `serde_json::to_string_pretty` on a `serde_json::Value`.
///
/// Trusted: whether the call succeeds, and the text that it writes, depends
/// on what the value holds alone; the outcome is named [`rendered_text`].
/// On which values the call succeeds is not stated.
#[verifier::external_body]
pub(crate) fn render_value(value: &serde_json::Value) -> (out: Result<String, serde_json::Error>)
    ensures
        match out {
            Ok(text) => rendered_text(value_tree(*value)) == Some(text@),
            Err(_) => rendered_text(value_tree(*value)) is None,
        },
{
    serde_json::to_string_pretty(value)
}

/// Takes the message of a `serde_json::Error`, as it displays it. Nothing is
/// claimed of the message.
#[verifier::external_body]
pub(crate) fn error_text(error: &serde_json::Error) -> String {
    error.to_string()
}

/// Takes the text that a `serde_json::Number` displays.
///
/// Trusted: that text is the number's numeral.
#[verifier::external_body]
pub(crate) fn shown_number(n: &serde_json::Number) -> (out: String)
    ensures
        out@ == numeral_of(*n),
{
    n.to_string()
}

/// Calls `serde_json::Number::from` on an unsigned integer.
///
/// Trusted: the numeral of the number is the decimal numeral of the
/// integer, without sign, point or exponent.
#[verifier::external_body]
pub(crate) fn number_from(n: u64) -> (out: serde_json::Number)
    ensures
        numeral_of(out) == decimal(n as nat),
{
    serde_json::Number::from(n)
}

/// Turns a `serde_json::Value` into a [`Json`], variant by variant: a scalar
/// is moved, the items of an array are turned one by one, and an object
/// becomes its entries in the order in which the map hands them out.
///
/// Trusted: the model of the result is what the value holds.
#[verifier::external_body]
pub(crate) fn tree_of_value(value: serde_json::Value) -> (out: Json)
    ensures
        out@ == value_tree(value),
{
    match value {
        serde_json::Value::Null => Json::Null,
        serde_json::Value::Bool(b) => Json::Bool(b),
        serde_json::Value::Number(n) => Json::Number(n),
        serde_json::Value::String(s) => Json::Text(s),
        serde_json::Value::Array(a) => Json::Array(a.into_iter().map(tree_of_value).collect()),
        serde_json::Value::Object(m) => Json::Object(
            m.into_iter().map(|(k, v)| (k, tree_of_value(v))).collect(),
        ),
    }
}

/// Turns a [`Json`] into a `serde_json::Value`, variant by variant: a scalar
/// is copied, the items of an array are turned one by one, and the entries
/// of an object are put into a new `serde_json::Map` one after the other with
/// `serde_json::Map::insert`, which updates the value of a key that the map
/// already has.
///
/// Trusted: the value holds what the document's model says; for a key that
/// stands in several entries, that is the value of the last of them.
#[verifier::external_body]
pub(crate) fn value_of_tree(doc: &Json) -> (value: serde_json::Value)
    ensures
        value_tree(value) == doc@,
{
    match doc {
        Json::Null => serde_json::Value::Null,
        Json::Bool(b) => serde_json::Value::Bool(*b),
        Json::Number(n) => serde_json::Value::Number(n.clone()),
        Json::Text(s) => serde_json::Value::String(s.clone()),
        Json::Array(a) => serde_json::Value::Array(a.iter().map(value_of_tree).collect()),
        Json::Object(entries) => {
            let mut map = serde_json::Map::new();
            for (key, item) in entries {
                map.insert(key.clone(), value_of_tree(item));
            }
            serde_json::Value::Object(map)
        },
    }
}

} // verus!
