//! Small builders for the JSON schemas of tool inputs.
use vstd::prelude::*;
use crate::json::{Json, JsonNumber, JsonView, JsonNumberView, entries_view, kv, lemma_entries_view_ext, lemma_items_view_ext};

verus! {

/// A property of the given type with a description, followed by `extra` entries.
pub open spec fn property_view(ty: Seq<char>, description: Seq<char>, extra: Seq<(Seq<char>, JsonView)>) -> JsonView {
    JsonView::Object(
        seq![("type"@, JsonView::Str(ty)), ("description"@, JsonView::Str(description))] + extra,
    )
}

/// A property of the given type with a description, followed by `extra` entries.
pub fn property(ty: &str, description: &str, extra: Vec<(String, Json)>) -> (r: Json)
    ensures
        r@ == property_view(ty@, description@, entries_view(extra@)),
{
    let ghost ev = entries_view(extra@);
    let mut entries = vec![kv("type", Json::string(ty)), kv("description", Json::string(description))];
    let ghost head = entries@;
    let mut extra = extra;
    let ghost xs = extra@;
    entries.append(&mut extra);
    proof {
        crate::json::lemma_entries_view(head);
        crate::json::lemma_entries_view(xs);
        crate::json::lemma_entries_view(entries@);
        lemma_entries_view_ext(
            entries@,
            seq![("type"@, JsonView::Str(ty@)), ("description"@, JsonView::Str(description@))] + ev,
        );
    }
    Json::Object(entries)
}

/// An object schema with the given properties, optionally followed by
/// `extra` entries (such as `required`).
pub open spec fn object_schema_view(properties: Seq<(Seq<char>, JsonView)>, extra: Seq<(Seq<char>, JsonView)>) -> JsonView {
    JsonView::Object(
        seq![("type"@, JsonView::Str("object"@)), ("properties"@, JsonView::Object(properties))] + extra,
    )
}

/// An object schema with the given properties, followed by `extra` entries.
pub fn object_schema(properties: Vec<(String, Json)>, extra: Vec<(String, Json)>) -> (r: Json)
    ensures
        r@ == object_schema_view(entries_view(properties@), entries_view(extra@)),
{
    let ghost pv = entries_view(properties@);
    let ghost ev = entries_view(extra@);
    let mut entries = vec![kv("type", Json::string("object")), kv("properties", Json::Object(properties))];
    let ghost head = entries@;
    let mut extra = extra;
    let ghost xs = extra@;
    entries.append(&mut extra);
    proof {
        crate::json::lemma_entries_view(head);
        crate::json::lemma_entries_view(xs);
        crate::json::lemma_entries_view(entries@);
        lemma_entries_view_ext(
            entries@,
            seq![("type"@, JsonView::Str("object"@)), ("properties"@, JsonView::Object(pv))] + ev,
        );
    }
    Json::Object(entries)
}

/// An array of strings.
pub fn string_array(items: Vec<&str>) -> (r: Json)
    ensures
        r@ == JsonView::Array(Seq::new(items@.len(), |i: int| JsonView::Str(items@[i]@))),
{
    let n = items.len();
    let mut out: Vec<Json> = Vec::new();
    let mut i: usize = 0;
    while i < n
        invariant
            n == items@.len(),
            i <= n,
            out@.len() == i,
            forall|j: int| 0 <= j < i ==> #[trigger] out@[j]@ == JsonView::Str(items@[j]@),
        decreases n - i,
    {
        out.push(Json::string(items[i]));
        i = i + 1;
    }
    proof {
        let t = Seq::new(items@.len(), |i: int| JsonView::Str(items@[i]@));
        assert forall|j: int| 0 <= j < out@.len() implies crate::json::json_view(#[trigger] out@[j]) == t[j] by {
            assert(out@[j]@ == JsonView::Str(items@[j]@));
        }
        lemma_items_view_ext(out@, t);
    }
    Json::Array(out)
}

/// A `required` entry naming the given properties.
pub fn required(names: Vec<&str>) -> (r: (String, Json))
    ensures
        r.0@ == "required"@,
        r.1@ == JsonView::Array(Seq::new(names@.len(), |i: int| JsonView::Str(names@[i]@))),
{
    kv("required", string_array(names))
}

/// A number written as decimal text, such as `-1.0`.
pub fn decimal(text: &str) -> (r: Json)
    ensures
        r@ == JsonView::Number(JsonNumberView::Float(text@)),
{
    Json::Number(JsonNumber::Float(text.to_string()))
}

/// A non-negative integer.
pub fn integer(n: u64) -> (r: Json)
    ensures
        r@ == JsonView::Number(JsonNumberView::PosInt(n)),
{
    Json::Number(JsonNumber::PosInt(n))
}

/// A property of the given type that takes one of `values`, with a
/// description, followed by `extra` entries.
pub open spec fn enum_property_view(
    ty: Seq<char>,
    values: JsonView,
    description: Seq<char>,
    extra: Seq<(Seq<char>, JsonView)>,
) -> JsonView {
    JsonView::Object(
        seq![("type"@, JsonView::Str(ty)), ("enum"@, values), ("description"@, JsonView::Str(description))] + extra,
    )
}

/// A property of the given type that takes one of `values`.
pub fn enum_property(ty: &str, values: Json, description: &str, extra: Vec<(String, Json)>) -> (r: Json)
    ensures
        r@ == enum_property_view(ty@, values@, description@, entries_view(extra@)),
{
    let ghost vv = values@;
    let ghost ev = entries_view(extra@);
    let mut entries = vec![kv("type", Json::string(ty)), kv("enum", values), kv("description", Json::string(description))];
    let ghost head = entries@;
    let mut extra = extra;
    let ghost xs = extra@;
    entries.append(&mut extra);
    proof {
        crate::json::lemma_entries_view(head);
        crate::json::lemma_entries_view(xs);
        crate::json::lemma_entries_view(entries@);
        lemma_entries_view_ext(
            entries@,
            seq![("type"@, JsonView::Str(ty@)), ("enum"@, vv), ("description"@, JsonView::Str(description@))] + ev,
        );
    }
    Json::Object(entries)
}

/// No entries.
pub fn entries0() -> (r: Vec<(String, Json)>)
    ensures
        entries_view(r@) == Seq::<(Seq<char>, JsonView)>::empty(),
{
    let v: Vec<(String, Json)> = Vec::new();
    proof {
        crate::json::lemma_entries_view(v@);
    }
    v
}

/// One entry.
pub fn entries1(a: (String, Json)) -> (r: Vec<(String, Json)>)
    ensures
        entries_view(r@) == seq![(a.0@, a.1@)],
{
    let ghost t = seq![(a.0@, a.1@)];
    let v = vec![a];
    proof {
        lemma_entries_view_ext(v@, t);
    }
    v
}

/// Two entries.
pub fn entries2(a: (String, Json), b: (String, Json)) -> (r: Vec<(String, Json)>)
    ensures
        entries_view(r@) == seq![(a.0@, a.1@), (b.0@, b.1@)],
{
    let ghost t = seq![(a.0@, a.1@), (b.0@, b.1@)];
    let v = vec![a, b];
    proof {
        lemma_entries_view_ext(v@, t);
    }
    v
}

/// Three entries.
pub fn entries3(a: (String, Json), b: (String, Json), c: (String, Json)) -> (r: Vec<(String, Json)>)
    ensures
        entries_view(r@) == seq![(a.0@, a.1@), (b.0@, b.1@), (c.0@, c.1@)],
{
    let ghost t = seq![(a.0@, a.1@), (b.0@, b.1@), (c.0@, c.1@)];
    let v = vec![a, b, c];
    proof {
        lemma_entries_view_ext(v@, t);
    }
    v
}

/// Four entries.
pub fn entries4(a: (String, Json), b: (String, Json), c: (String, Json), d: (String, Json)) -> (r: Vec<(String, Json)>)
    ensures
        entries_view(r@) == seq![(a.0@, a.1@), (b.0@, b.1@), (c.0@, c.1@), (d.0@, d.1@)],
{
    let ghost t = seq![(a.0@, a.1@), (b.0@, b.1@), (c.0@, c.1@), (d.0@, d.1@)];
    let v = vec![a, b, c, d];
    proof {
        lemma_entries_view_ext(v@, t);
    }
    v
}

/// An array of one string.
pub fn strings1(a: &str) -> (r: Json)
    ensures
        r@ == JsonView::Array(seq![JsonView::Str(a@)]),
{
    let v = vec![Json::string(a)];
    proof {
        lemma_items_view_ext(v@, seq![JsonView::Str(a@)]);
    }
    Json::Array(v)
}

/// An array of two strings.
pub fn strings2(a: &str, b: &str) -> (r: Json)
    ensures
        r@ == JsonView::Array(seq![JsonView::Str(a@), JsonView::Str(b@)]),
{
    let v = vec![Json::string(a), Json::string(b)];
    proof {
        lemma_items_view_ext(v@, seq![JsonView::Str(a@), JsonView::Str(b@)]);
    }
    Json::Array(v)
}

/// An array of three strings.
pub fn strings3(a: &str, b: &str, c: &str) -> (r: Json)
    ensures
        r@ == JsonView::Array(seq![JsonView::Str(a@), JsonView::Str(b@), JsonView::Str(c@)]),
{
    let v = vec![Json::string(a), Json::string(b), Json::string(c)];
    proof {
        lemma_items_view_ext(v@, seq![JsonView::Str(a@), JsonView::Str(b@), JsonView::Str(c@)]);
    }
    Json::Array(v)
}

/// An array of four strings.
pub fn strings4(a: &str, b: &str, c: &str, d: &str) -> (r: Json)
    ensures
        r@ == JsonView::Array(seq![JsonView::Str(a@), JsonView::Str(b@), JsonView::Str(c@), JsonView::Str(d@)]),
{
    let v = vec![Json::string(a), Json::string(b), Json::string(c), Json::string(d)];
    proof {
        lemma_items_view_ext(v@, seq![JsonView::Str(a@), JsonView::Str(b@), JsonView::Str(c@), JsonView::Str(d@)]);
    }
    Json::Array(v)
}

/// An array of five strings.
pub fn strings5(a: &str, b: &str, c: &str, d: &str, e: &str) -> (r: Json)
    ensures
        r@ == JsonView::Array(
            seq![JsonView::Str(a@), JsonView::Str(b@), JsonView::Str(c@), JsonView::Str(d@), JsonView::Str(e@)],
        ),
{
    let v = vec![Json::string(a), Json::string(b), Json::string(c), Json::string(d), Json::string(e)];
    proof {
        lemma_items_view_ext(
            v@,
            seq![JsonView::Str(a@), JsonView::Str(b@), JsonView::Str(c@), JsonView::Str(d@), JsonView::Str(e@)],
        );
    }
    Json::Array(v)
}

} // verus!
