//! The edits that version adapters make to responses: each edit rewrites
//! the items of one array inside a response's `result`.
use vstd::prelude::*;
use crate::json::{
    Json, JsonView, items_view, json_view, lemma_entries_view_ext,
    lemma_get_insert_same, lemma_get_remove, lemma_items_view, lemma_items_view_ext,
};
use crate::protocol::translation::content::audio_description;
use crate::protocol::translation::resources::{generate_resource_name, resource_name};
use crate::text::{concat3, str_eq};

verus! {

/// An edit of one array item.
pub enum ItemEdit {
    /// Give a resource object that has a string `uri` but no `name` the name
    /// generated from its URI.
    AddResourceName,
    /// Drop one key from an object.
    RemoveKey(&'static str),
    /// Drop two keys from an object.
    RemoveKeys(&'static str, &'static str),
    /// Replace an audio content object by a text object describing it; the
    /// argument is the MIME type used when the object names none.
    AudioToText(&'static str),
}

/// The text object that stands for an audio object of the given MIME type.
pub open spec fn audio_text_object(mime_type: Seq<char>) -> JsonView {
    JsonView::Object(
        seq![
            ("type"@, JsonView::Str("text"@)),
            ("text"@, JsonView::Str(audio_description(mime_type))),
        ],
    )
}

/// What an edit makes of one item.
pub open spec fn apply_edit(e: ItemEdit, item: JsonView) -> JsonView {
    match e {
        ItemEdit::AddResourceName => {
            if item.is_object() && item.get("name"@) is None && item.get_str("uri"@) is Some {
                item.insert("name"@, JsonView::Str(resource_name(item.get_str("uri"@)->0)))
            } else {
                item
            }
        },
        ItemEdit::RemoveKey(k) => item.remove(k@),
        ItemEdit::RemoveKeys(k1, k2) => item.remove(k1@).remove(k2@),
        ItemEdit::AudioToText(default_mime) => {
            if item.is_object() && item.get_str("type"@) == Some("audio"@) {
                audio_text_object(
                    match item.get_str("mimeType"@) {
                        Some(m) => m,
                        None => default_mime@,
                    },
                )
            } else {
                item
            }
        },
    }
}

/// `resp` with the array stored under `key` in its `result` edited item by
/// item; unchanged when there is no such array.
pub open spec fn edit_result_array(resp: JsonView, key: Seq<char>, e: ItemEdit) -> JsonView {
    match resp.get("result"@) {
        Some(result) => match result.get(key) {
            Some(JsonView::Array(items)) => resp.insert(
                "result"@,
                result.insert(key, JsonView::Array(items.map_values(|x: JsonView| apply_edit(e, x)))),
            ),
            _ => resp,
        },
        None => resp,
    }
}

/// `resp` with `key` dropped from its `result`, when there is a `result`.
pub open spec fn remove_from_result(resp: JsonView, key: Seq<char>) -> JsonView {
    match resp.get("result"@) {
        Some(result) => resp.insert("result"@, result.remove(key)),
        None => resp,
    }
}

/// Whether `resp` has a `result` holding `key`.
pub open spec fn result_has(resp: JsonView, key: Seq<char>) -> bool {
    match resp.get("result"@) {
        Some(result) => result.get(key) is Some,
        None => false,
    }
}


/// The items of the array stored under `key` in the `result` of `resp`.
pub open spec fn result_array(resp: JsonView, key: Seq<char>) -> Option<Seq<JsonView>> {
    match resp.get("result"@) {
        Some(result) => match result.get(key) {
            Some(JsonView::Array(items)) => Some(items),
            _ => None,
        },
        None => None,
    }
}

/// Editing the array under `key` leaves there the edited items, one for one.
pub proof fn lemma_edit_result_array(resp: JsonView, key: Seq<char>, e: ItemEdit)
    requires
        result_array(resp, key) is Some,
    ensures
        result_array(edit_result_array(resp, key, e), key) == Some(
            result_array(resp, key)->0.map_values(|x: JsonView| apply_edit(e, x)),
        ),
{
    let result = resp.get("result"@)->0;
    let items = result_array(resp, key)->0;
    let new_items = JsonView::Array(items.map_values(|x: JsonView| apply_edit(e, x)));
    lemma_get_insert_same(result, key, new_items);
    lemma_get_insert_same(resp, "result"@, result.insert(key, new_items));
}

/// Dropping a key from the `result` keeps every other array of the result.
pub proof fn lemma_remove_from_result(resp: JsonView, drop: Seq<char>, key: Seq<char>)
    requires
        drop != key,
        resp.get("result"@) is Some,
    ensures
        result_array(remove_from_result(resp, drop), key) == result_array(resp, key),
        remove_from_result(resp, drop).get("result"@)->0.get(drop) is None,
{
    let result = resp.get("result"@)->0;
    lemma_get_remove(result, drop, key);
    lemma_get_insert_same(resp, "result"@, result.remove(drop));
}

/// A resource object with a string URI and no name gets the name generated
/// from the URI.
pub proof fn lemma_add_resource_name(item: JsonView, uri: Seq<char>)
    requires
        item.is_object(),
        item.get("name"@) is None,
        item.get_str("uri"@) == Some(uri),
    ensures
        apply_edit(ItemEdit::AddResourceName, item).get("name"@) == Some(
            JsonView::Str(resource_name(uri)),
        ),
{
    lemma_get_insert_same(item, "name"@, JsonView::Str(resource_name(uri)));
}

/// Removing two keys leaves neither, and every other key as it was.
pub proof fn lemma_remove_keys(item: JsonView, k1: &'static str, k2: &'static str, other: Seq<char>)
    requires
        other != k1@,
        other != k2@,
    ensures
        apply_edit(ItemEdit::RemoveKeys(k1, k2), item).get(k1@) is None,
        apply_edit(ItemEdit::RemoveKeys(k1, k2), item).get(k2@) is None,
        apply_edit(ItemEdit::RemoveKeys(k1, k2), item).get(other) == item.get(other),
{
    lemma_get_remove(item, k1@, other);
    lemma_get_remove(item, k1@, k2@);
    lemma_get_remove(item.remove(k1@), k2@, other);
    lemma_get_remove(item.remove(k1@), k2@, k1@);
}

/// Whether `resp` has a `result` holding `key`.
pub fn result_has_exec(resp: &Json, key: &str) -> (r: bool)
    ensures
        r == result_has(resp@, key@),
{
    match resp.get("result") {
        Some(result) => result.get(key).is_some(),
        None => false,
    }
}

/// What an edit makes of one item.
pub fn apply_edit_exec(e: &ItemEdit, item: &Json) -> (r: Json)
    ensures
        r@ == apply_edit(*e, item@),
{
    match e {
        ItemEdit::AddResourceName => {
            if item.is_object() && item.get("name").is_none() {
                match item.get_str("uri") {
                    Some(uri) => {
                        let name = generate_resource_name(uri);
                        let mut r = item.deep_clone();
                        r.insert("name".to_string(), Json::Str(name));
                        r
                    },
                    None => item.deep_clone(),
                }
            } else {
                item.deep_clone()
            }
        },
        ItemEdit::RemoveKey(k) => {
            let mut r = item.deep_clone();
            let _ = r.remove(k);
            r
        },
        ItemEdit::RemoveKeys(k1, k2) => {
            let mut r = item.deep_clone();
            let _ = r.remove(k1);
            let _ = r.remove(k2);
            r
        },
        ItemEdit::AudioToText(default_mime) => {
            let is_audio = match item.get_str("type") {
                Some(t) => str_eq(t, "audio"),
                None => false,
            };
            if item.is_object() && is_audio {
                let mime: &str = match item.get_str("mimeType") {
                    Some(m) => m,
                    None => default_mime,
                };
                let text = concat3("[Audio content: ", mime, "]");
                let mut entries: Vec<(String, Json)> = Vec::new();
                entries.push(("type".to_string(), Json::string("text")));
                entries.push(("text".to_string(), Json::Str(text)));
                proof {
                    lemma_entries_view_ext(entries@, audio_text_object(mime@)->Object_0);
                }
                Json::Object(entries)
            } else {
                item.deep_clone()
            }
        },
    }
}

/// Each item edited.
pub fn edit_items(e: &ItemEdit, items: &Vec<Json>) -> (r: Vec<Json>)
    ensures
        items_view(r@) == items_view(items@).map_values(|x: JsonView| apply_edit(*e, x)),
{
    let mut out: Vec<Json> = Vec::new();
    let n = items.len();
    let mut i: usize = 0;
    proof {
        lemma_items_view(items@);
    }
    while i < n
        invariant
            n == items@.len(),
            i <= n,
            out@.len() == i,
            items_view(items@).len() == n,
            forall|j: int| 0 <= j < n ==> #[trigger] items_view(items@)[j] == json_view(items@[j]),
            forall|j: int|
                0 <= j < i ==> json_view(#[trigger] out@[j]) == apply_edit(*e, json_view(items@[j])),
        decreases n - i,
    {
        let x = apply_edit_exec(e, &items[i]);
        out.push(x);
        i = i + 1;
    }
    proof {
        lemma_items_view_ext(out@, items_view(items@).map_values(|x: JsonView| apply_edit(*e, x)));
    }
    out
}

/// `resp` with the array stored under `key` in its `result` edited item by item.
pub fn edit_result_array_exec(resp: Json, key: &str, e: ItemEdit) -> (r: Json)
    ensures
        r@ == edit_result_array(resp@, key@, e),
{
    let mut resp = resp;
    let new_result = match resp.get("result") {
        Some(result) => match result.get(key) {
            Some(Json::Array(items)) => {
                let edited = edit_items(&e, items);
                let mut nr = result.deep_clone();
                nr.insert(key.to_string(), Json::Array(edited));
                Some(nr)
            },
            _ => None,
        },
        None => None,
    };
    match new_result {
        Some(nr) => {
            resp.insert("result".to_string(), nr);
            resp
        },
        None => resp,
    }
}

/// `resp` with `key` dropped from its `result`.
pub fn remove_from_result_exec(resp: Json, key: &str) -> (r: Json)
    ensures
        r@ == remove_from_result(resp@, key@),
{
    let mut resp = resp;
    let new_result = match resp.get("result") {
        Some(result) => {
            let mut nr = result.deep_clone();
            let _ = nr.remove(key);
            Some(nr)
        },
        None => None,
    };
    match new_result {
        Some(nr) => {
            resp.insert("result".to_string(), nr);
            resp
        },
        None => resp,
    }
}

} // verus!
