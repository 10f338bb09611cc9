//! Shapes of JSON the proxy answers with: tool definitions, tool results
//! made of text, and resource contents.
use vstd::prelude::*;
use crate::json::{Json, JsonView, items_view, json_view, kv, lemma_entries_view_ext, lemma_items_view, lemma_items_view_ext};
use crate::text::str_eq;

verus! {

/// A tool definition: name, description and input schema.
pub open spec fn tool_view(name: Seq<char>, description: Seq<char>, input_schema: JsonView) -> JsonView {
    JsonView::Object(
        seq![
            ("name"@, JsonView::Str(name)),
            ("description"@, JsonView::Str(description)),
            ("inputSchema"@, input_schema),
        ],
    )
}

/// A tool definition: name, description and input schema.
pub fn create_tool(name: String, description: &str, input_schema: Json) -> (r: Json)
    ensures
        r@ == tool_view(name@, description@, input_schema@),
{
    let ghost nv = name@;
    let ghost sv = input_schema@;
    let entries = vec![
        ("name".to_string(), Json::Str(name)),
        kv("description", Json::string(description)),
        ("inputSchema".to_string(), input_schema),
    ];
    proof {
        lemma_entries_view_ext(entries@, tool_view(nv, description@, sv)->Object_0);
    }
    Json::Object(entries)
}

/// The `content` array of a tool result holding one text item.
pub open spec fn text_content_view(text: Seq<char>) -> JsonView {
    JsonView::Array(
        seq![JsonView::Object(seq![("type"@, JsonView::Str("text"@)), ("text"@, JsonView::Str(text))])],
    )
}

/// A tool result holding one text item.
pub open spec fn text_result_view(text: Seq<char>) -> JsonView {
    JsonView::Object(seq![("content"@, text_content_view(text))])
}

/// The single text item of a text result.
pub fn text_item(text: String) -> (r: Json)
    ensures
        r@ == JsonView::Object(seq![("type"@, JsonView::Str("text"@)), ("text"@, JsonView::Str(text@))]),
{
    let ghost tv = text@;
    let entries = vec![kv("type", Json::string("text")), ("text".to_string(), Json::Str(text))];
    proof {
        lemma_entries_view_ext(entries@, seq![("type"@, JsonView::Str("text"@)), ("text"@, JsonView::Str(tv))]);
    }
    Json::Object(entries)
}

/// The `content` array of a tool result holding one text item.
pub fn text_content(text: String) -> (r: Json)
    ensures
        r@ == text_content_view(text@),
{
    let ghost tv = text@;
    let item = text_item(text);
    let items = vec![item];
    proof {
        lemma_items_view_ext(items@, text_content_view(tv)->Array_0);
    }
    Json::Array(items)
}

/// A tool result holding one text item.
pub fn text_result(text: String) -> (r: Json)
    ensures
        r@ == text_result_view(text@),
{
    let ghost tv = text@;
    let entries = vec![kv("content", text_content(text))];
    proof {
        lemma_entries_view_ext(entries@, text_result_view(tv)->Object_0);
    }
    Json::Object(entries)
}

/// A resources/read result holding one content item.
pub open spec fn resource_contents_view(uri: Seq<char>, mime_type: Seq<char>, text: Seq<char>) -> JsonView {
    JsonView::Object(
        seq![
            (
                "contents"@,
                JsonView::Array(
                    seq![
                        JsonView::Object(
                            seq![
                                ("uri"@, JsonView::Str(uri)),
                                ("mimeType"@, JsonView::Str(mime_type)),
                                ("text"@, JsonView::Str(text)),
                            ],
                        ),
                    ],
                ),
            ),
        ],
    )
}

/// A resources/read result holding one content item.
pub fn resource_contents(uri: String, mime_type: &str, text: String) -> (r: Json)
    ensures
        r@ == resource_contents_view(uri@, mime_type@, text@),
{
    let ghost uv = uri@;
    let ghost tv = text@;
    let ghost whole = resource_contents_view(uv, mime_type@, tv);
    let item_entries = vec![
        ("uri".to_string(), Json::Str(uri)),
        kv("mimeType", Json::string(mime_type)),
        ("text".to_string(), Json::Str(text)),
    ];
    proof {
        lemma_entries_view_ext(item_entries@, whole->Object_0[0].1->Array_0[0]->Object_0);
    }
    let items = vec![Json::Object(item_entries)];
    proof {
        lemma_items_view_ext(items@, whole->Object_0[0].1->Array_0);
    }
    let entries = vec![("contents".to_string(), Json::Array(items))];
    proof {
        lemma_entries_view_ext(entries@, whole->Object_0);
    }
    Json::Object(entries)
}

/// An object holding `key: [items]`.
pub fn object_with_array(key: &str, items: Vec<Json>) -> (r: Json)
    ensures
        r@ == JsonView::Object(seq![(key@, JsonView::Array(items_view(items@)))]),
{
    let ghost iv = items_view(items@);
    let entries = vec![(key.to_string(), Json::Array(items))];
    proof {
        lemma_entries_view_ext(entries@, seq![(key@, JsonView::Array(iv))]);
    }
    Json::Object(entries)
}

/// The position of the first item whose `name` is the string `name`, or -1.
pub open spec fn first_named(items: Seq<JsonView>, name: Seq<char>) -> int
    decreases items.len(),
{
    if items.len() == 0 {
        -1
    } else {
        let i = first_named(items.drop_last(), name);
        if i >= 0 {
            i
        } else if items.last().get_str("name"@) == Some(name) {
            items.len() - 1
        } else {
            -1
        }
    }
}

pub proof fn lemma_first_named(items: Seq<JsonView>, name: Seq<char>)
    ensures
        -1 <= first_named(items, name) < items.len(),
        first_named(items, name) >= 0 ==> items[first_named(items, name)].get_str("name"@) == Some(name),
        forall|j: int|
            0 <= j < items.len() && (first_named(items, name) == -1 || j < first_named(items, name))
                ==> #[trigger] items[j].get_str("name"@) != Some(name),
    decreases items.len(),
{
    if items.len() > 0 {
        let d = items.drop_last();
        lemma_first_named(d, name);
        assert forall|j: int|
            0 <= j < items.len() && (first_named(items, name) == -1 || j < first_named(items, name))
                implies #[trigger] items[j].get_str("name"@) != Some(name) by {
            if j < items.len() - 1 {
                assert(d[j] == items[j]);
            }
        }
    }
}

/// The position of the first item of `items` whose `name` is the string `name`.
pub fn find_named(items: &Vec<Json>, name: &str) -> (r: Option<usize>)
    ensures
        match r {
            Some(i) => first_named(items_view(items@), name@) == i,
            None => first_named(items_view(items@), name@) == -1,
        },
{
    let n = items.len();
    proof {
        lemma_items_view(items@);
        lemma_first_named(items_view(items@), name@);
    }
    let mut i: usize = 0;
    while i < n
        invariant
            n == items@.len(),
            i <= n,
            items_view(items@).len() == n,
            forall|j: int| 0 <= j < n ==> #[trigger] items_view(items@)[j] == json_view(items@[j]),
            forall|j: int| 0 <= j < i ==> #[trigger] items_view(items@)[j].get_str("name"@) != Some(name@),
        decreases n - i,
    {
        let hit = match items[i].get_str("name") {
            Some(s) => str_eq(s, name),
            None => false,
        };
        if hit {
            proof {
                lemma_first_named(items_view(items@), name@);
                let f = first_named(items_view(items@), name@);
                assert(items_view(items@)[i as int] == json_view(items@[i as int]));
                if f == -1 || (i as int) < f {
                    assert(items_view(items@)[i as int].get_str("name"@) != Some(name@));
                }
            }
            return Some(i);
        }
        proof {
            assert(items_view(items@)[i as int] == json_view(items@[i as int]));
        }
        i = i + 1;
    }
    proof {
        lemma_first_named(items_view(items@), name@);
    }
    None
}

} // verus!
