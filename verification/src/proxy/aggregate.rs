//! Combining what several backend servers answered to one listing request.
use vstd::prelude::*;
use crate::json::{Json, JsonView, items_view, lemma_items_view, lemma_items_view_ext};
use crate::proxy::error::ProxyError;
use crate::proxy::naming::{prefix_name, prefix_uri, prefixed_name, prefixed_uri};
use crate::proxy::tracing_tools::{get_tracing_resources, tracing_resources_view};
use crate::text::str_eq;

verus! {

/// One listed item of `server`, relabelled: when it is an object with a
/// string under `field`, that field gets the prefixed form, `original_key`
/// keeps the old value and `server` names the server. Other items are kept.
pub open spec fn relabel(item: JsonView, server: Seq<char>, field: Seq<char>, original_key: Seq<char>, uri: bool) -> JsonView {
    match item.get_str(field) {
        Some(v) => item.insert(
            field,
            JsonView::Str(if uri { prefixed_uri(server, v) } else { prefixed_name(server, v) }),
        ).insert(original_key, JsonView::Str(v)).insert("server"@, JsonView::Str(server)),
        None => item,
    }
}

/// The items that one server listed under `list_key`, relabelled.
pub open spec fn relabelled_items(
    server: Seq<char>,
    result: JsonView,
    list_key: Seq<char>,
    field: Seq<char>,
    original_key: Seq<char>,
    uri: bool,
) -> Seq<JsonView> {
    match result.get(list_key) {
        Some(JsonView::Array(items)) => items.map_values(|it: JsonView| relabel(it, server, field, original_key, uri)),
        _ => Seq::empty(),
    }
}

/// The relabelled items of all servers, server by server.
pub open spec fn collected(
    results: Seq<(Seq<char>, JsonView)>,
    list_key: Seq<char>,
    field: Seq<char>,
    original_key: Seq<char>,
    uri: bool,
) -> Seq<JsonView>
    decreases results.len(),
{
    if results.len() == 0 {
        Seq::empty()
    } else {
        collected(results.drop_last(), list_key, field, original_key, uri) + relabelled_items(
            results.last().0,
            results.last().1,
            list_key,
            field,
            original_key,
            uri,
        )
    }
}

/// What listing over all servers answers, from the servers that answered
/// (server name, result), in the order given.
pub open spec fn aggregate_spec(method: Seq<char>, results: Seq<(Seq<char>, JsonView)>) -> Result<JsonView, Seq<char>> {
    if results.len() == 0 {
        Err("No servers could handle the request"@)
    } else if method == "tools/list"@ {
        Ok(
            JsonView::Object(
                seq![("tools"@, JsonView::Array(collected(results, "tools"@, "name"@, "originalName"@, false)))],
            ),
        )
    } else if method == "resources/list"@ {
        Ok(
            JsonView::Object(
                seq![
                    (
                        "resources"@,
                        JsonView::Array(
                            collected(results, "resources"@, "uri"@, "originalUri"@, true)
                                + tracing_resources_view(),
                        ),
                    ),
                ],
            ),
        )
    } else if method == "prompts/list"@ {
        Ok(
            JsonView::Object(
                seq![("prompts"@, JsonView::Array(collected(results, "prompts"@, "name"@, "originalName"@, false)))],
            ),
        )
    } else {
        Ok(results[0].1)
    }
}

/// The view of the (server, result) pairs.
pub open spec fn results_view(results: Seq<(String, Json)>) -> Seq<(Seq<char>, JsonView)> {
    Seq::new(results.len(), |i: int| (results[i].0@, results[i].1@))
}

/// Relabels one listed item of `server`.
pub fn relabel_item(item: &Json, server: &str, field: &str, original_key: &str, uri: bool) -> (r: Json)
    ensures
        r@ == relabel(item@, server@, field@, original_key@, uri),
{
    let mut out = item.deep_clone();
    match item.get_str(field) {
        Some(v) => {
            let labelled = if uri { prefix_uri(server, v) } else { prefix_name(server, v) };
            out.insert(field.to_string(), Json::Str(labelled));
            out.insert(original_key.to_string(), Json::string(v));
            out.insert("server".to_string(), Json::string(server));
            out
        },
        None => out,
    }
}

fn relabel_all(
    out: &mut Vec<Json>,
    server: &str,
    result: &Json,
    list_key: &str,
    field: &str,
    original_key: &str,
    uri: bool,
)
    ensures
        items_view(final(out)@) == items_view(old(out)@) + relabelled_items(
            server@,
            result@,
            list_key@,
            field@,
            original_key@,
            uri,
        ),
{
    let ghost start = old(out)@;
    proof {
        lemma_items_view(start);
    }
    match result.get(list_key) {
        Some(Json::Array(items)) => {
            let ghost iv = items_view(items@);
            let ghost target = iv.map_values(|it: JsonView| relabel(it, server@, field@, original_key@, uri));
            proof {
                lemma_items_view(items@);
            }
            let n = items.len();
            let mut i: usize = 0;
            while i < n
                invariant
                    n == items@.len(),
                    i <= n,
                    iv == items_view(items@),
                    iv.len() == n,
                    forall|j: int| 0 <= j < n ==> #[trigger] iv[j] == crate::json::json_view(items@[j]),
                    target == iv.map_values(|it: JsonView| relabel(it, server@, field@, original_key@, uri)),
                    out@.len() == start.len() + i,
                    forall|j: int| 0 <= j < start.len() ==> #[trigger] out@[j] == start[j],
                    forall|j: int|
                        0 <= j < i ==> crate::json::json_view(#[trigger] out@[start.len() + j]) == target[j],
                decreases n - i,
            {
                let x = relabel_item(&items[i], server, field, original_key, uri);
                out.push(x);
                proof {
                    assert(target[i as int] == relabel(iv[i as int], server@, field@, original_key@, uri));
                }
                i = i + 1;
            }
            proof {
                lemma_items_view(out@);
                assert forall|j: int| 0 <= j < out@.len() implies crate::json::json_view(#[trigger] out@[j]) == (
                items_view(start) + target)[j] by {
                    if j < start.len() {
                        assert(out@[j] == start[j]);
                    } else {
                        assert(out@[start.len() + (j - start.len())] == out@[j]);
                    }
                }
                lemma_items_view_ext(out@, items_view(start) + target);
            }
        },
        _ => {
            proof {
                assert(items_view(out@) =~= items_view(start) + Seq::<JsonView>::empty());
            }
        },
    }
}

fn collect_all(
    results: &Vec<(String, Json)>,
    list_key: &str,
    field: &str,
    original_key: &str,
    uri: bool,
) -> (r: Vec<Json>)
    ensures
        items_view(r@) == collected(results_view(results@), list_key@, field@, original_key@, uri),
{
    let ghost rv = results_view(results@);
    let n = results.len();
    let mut out: Vec<Json> = Vec::new();
    let mut i: usize = 0;
    proof {
        lemma_items_view(out@);
        assert(rv.subrange(0, 0) =~= Seq::<(Seq<char>, JsonView)>::empty());
    }
    while i < n
        invariant
            n == results@.len(),
            i <= n,
            rv == results_view(results@),
            items_view(out@) == collected(rv.subrange(0, i as int), list_key@, field@, original_key@, uri),
        decreases n - i,
    {
        relabel_all(&mut out, results[i].0.as_str(), &results[i].1, list_key, field, original_key, uri);
        proof {
            assert(rv.subrange(0, i + 1).drop_last() =~= rv.subrange(0, i as int));
            assert(rv.subrange(0, i + 1).last() == rv[i as int]);
        }
        i = i + 1;
    }
    proof {
        assert(rv.subrange(0, n as int) =~= rv);
    }
    out
}

fn list_object(key: &str, items: Vec<Json>) -> (r: Json)
    ensures
        r@ == JsonView::Object(seq![(key@, JsonView::Array(items_view(items@)))]),
{
    crate::proxy::content::object_with_array(key, items)
}

/// Combines the answers of the servers that handled a listing request,
/// given as (server name, result) in the order they are taken: tools and
/// prompts get prefixed names, resources prefixed URIs plus the tracing
/// resources; any other method takes the first answer.
pub fn aggregate_results(method: &str, results: Vec<(String, Json)>) -> (r: Result<Json, ProxyError>)
    ensures
        match r {
            Ok(j) => aggregate_spec(method@, results_view(results@)) == Ok::<_, Seq<char>>(j@),
            Err(e) => e is InvalidRequest && aggregate_spec(method@, results_view(results@)) == Err::<
                JsonView,
                _,
            >(e->InvalidRequest_0@),
        },
{
    if results.len() == 0 {
        return Err(ProxyError::InvalidRequest("No servers could handle the request".to_string()));
    }
    if str_eq(method, "tools/list") {
        let all = collect_all(&results, "tools", "name", "originalName", false);
        return Ok(list_object("tools", all));
    }
    if str_eq(method, "resources/list") {
        let mut all = collect_all(&results, "resources", "uri", "originalUri", true);
        let ghost before = all@;
        let mut tracing = get_tracing_resources();
        let ghost tv = tracing@;
        all.append(&mut tracing);
        proof {
            lemma_items_view(before);
            lemma_items_view(tv);
            lemma_items_view_ext(all@, items_view(before) + items_view(tv));
        }
        return Ok(list_object("resources", all));
    }
    if str_eq(method, "prompts/list") {
        let all = collect_all(&results, "prompts", "name", "originalName", false);
        return Ok(list_object("prompts", all));
    }
    let mut results = results;
    let (_, first) = results.remove(0);
    Ok(first)
}

/// How many items `result` lists under `key` (none when it holds no array
/// there).
pub open spec fn listed_len(result: JsonView, key: Seq<char>) -> nat {
    match result.get(key) {
        Some(JsonView::Array(items)) => items.len(),
        _ => 0,
    }
}

/// The `j`th item that `result` lists under `key`.
pub open spec fn listed_item(result: JsonView, key: Seq<char>, j: int) -> JsonView {
    match result.get(key) {
        Some(JsonView::Array(items)) => items[j],
        _ => JsonView::Null,
    }
}

/// How many items the first `k` servers list under `key`, together.
pub open spec fn listed_before(results: Seq<(Seq<char>, JsonView)>, k: int, key: Seq<char>) -> nat
    decreases k,
{
    if k <= 0 {
        0
    } else {
        listed_before(results, k - 1, key) + listed_len(results[k - 1].1, key)
    }
}

/// Counting the first `k` servers does not look past them.
proof fn lemma_listed_before_prefix(results: Seq<(Seq<char>, JsonView)>, k: int, key: Seq<char>)
    requires
        0 <= k < results.len(),
    ensures
        listed_before(results, k, key) == listed_before(results.drop_last(), k, key),
    decreases k,
{
    if k > 0 {
        lemma_listed_before_prefix(results, k - 1, key);
    }
}

/// The collected items are the servers' relabelled items one server after
/// the other: as many as all servers list, and the `j`th item of the `k`th
/// server right after the items of the servers before it.
proof fn lemma_collected_layout(
    results: Seq<(Seq<char>, JsonView)>,
    key: Seq<char>,
    field: Seq<char>,
    original_key: Seq<char>,
    uri: bool,
    k: int,
    j: int,
)
    requires
        0 <= k < results.len(),
        0 <= j < listed_len(results[k].1, key),
    ensures
        collected(results, key, field, original_key, uri).len() == listed_before(results, results.len() as int, key),
        collected(results, key, field, original_key, uri)[listed_before(results, k, key) + j] == relabel(
            listed_item(results[k].1, key, j),
            results[k].0,
            field,
            original_key,
            uri,
        ),
    decreases results.len(),
{
    let n = results.len() as int;
    let front = results.drop_last();
    let last = results.last();
    let head = collected(front, key, field, original_key, uri);
    let tail = relabelled_items(last.0, last.1, key, field, original_key, uri);
    assert(collected(results, key, field, original_key, uri) == head + tail);
    assert(tail.len() == listed_len(last.1, key));
    lemma_collected_length(front, key, field, original_key, uri);
    lemma_collected_length(results, key, field, original_key, uri);
    lemma_listed_before_prefix(results, k, key);
    if k < n - 1 {
        assert(front[k] == results[k]);
        lemma_collected_layout(front, key, field, original_key, uri, k, j);
        lemma_listed_before_monotonic(front, k + 1, n - 1, key);
        assert(listed_before(front, k + 1, key) == listed_before(front, k, key) + listed_len(front[k].1, key));
        assert(listed_before(front, k, key) + j < head.len());
    } else {
        assert(listed_before(results, k, key) == head.len());
        match last.1.get(key) {
            Some(JsonView::Array(items)) => {
                assert(tail[j] == relabel(items[j], last.0, field, original_key, uri));
            },
            _ => {},
        }
    }
}

/// The servers before `b` list at least as many items as those before `a`.
proof fn lemma_listed_before_monotonic(results: Seq<(Seq<char>, JsonView)>, a: int, b: int, key: Seq<char>)
    requires
        0 <= a <= b,
    ensures
        listed_before(results, a, key) <= listed_before(results, b, key),
    decreases b - a,
{
    if a < b {
        lemma_listed_before_monotonic(results, a, b - 1, key);
    }
}

/// As many items are collected as all servers list.
proof fn lemma_collected_length(
    results: Seq<(Seq<char>, JsonView)>,
    key: Seq<char>,
    field: Seq<char>,
    original_key: Seq<char>,
    uri: bool,
)
    ensures
        collected(results, key, field, original_key, uri).len() == listed_before(results, results.len() as int, key),
    decreases results.len(),
{
    if results.len() > 0 {
        let front = results.drop_last();
        lemma_collected_length(front, key, field, original_key, uri);
        lemma_listed_before_prefix(results, results.len() - 1, key);
        assert(front.len() == results.len() - 1);
    }
}

/// Listing prompts over several servers gives every server's prompts, server
/// by server in the order given: as many as all servers list together, and
/// the `j`th prompt of the `k`th server right after the prompts of the
/// servers before it. A prompt with a name is listed under that server's
/// prefixed name, with its own name as `originalName` and the server as
/// `server`, and keeps every other field; a prompt without one is kept as
/// it is.
pub proof fn lemma_prompts_list_concatenates_servers(
    results: Seq<(Seq<char>, JsonView)>,
    k: int,
    j: int,
    other: Seq<char>,
)
    requires
        0 <= k < results.len(),
        0 <= j < listed_len(results[k].1, "prompts"@),
        other != "name"@,
        other != "originalName"@,
        other != "server"@,
    ensures
        ({
            let server = results[k].0;
            let prompt = listed_item(results[k].1, "prompts"@, j);
            &&& aggregate_spec("prompts/list"@, results) is Ok
            &&& aggregate_spec("prompts/list"@, results)->Ok_0.get("prompts"@) is Some
            &&& aggregate_spec("prompts/list"@, results)->Ok_0.get("prompts"@)->0 is Array
            &&& {
                let listed = aggregate_spec("prompts/list"@, results)->Ok_0.get("prompts"@)->0->Array_0;
                let shown = listed[listed_before(results, k, "prompts"@) + j];
                &&& listed.len() == listed_before(results, results.len() as int, "prompts"@)
                &&& match prompt.get_str("name"@) {
                    Some(v) => {
                        &&& shown.get_str("name"@) == Some(prefixed_name(server, v))
                        &&& shown.get("originalName"@) == Some(JsonView::Str(v))
                        &&& shown.get("server"@) == Some(JsonView::Str(server))
                        &&& shown.get(other) == prompt.get(other)
                    },
                    None => shown == prompt,
                }
            }
        }),
{
    reveal_strlit("prompts/list");
    reveal_strlit("tools/list");
    reveal_strlit("resources/list");
    reveal_strlit("prompts");
    reveal_strlit("name");
    reveal_strlit("originalName");
    reveal_strlit("server");
    assert("prompts/list"@.len() != "tools/list"@.len());
    assert("prompts/list"@.len() != "resources/list"@.len());
    assert("name"@.len() == 4 && "originalName"@.len() == 12 && "server"@.len() == 6);
    lemma_collected_layout(results, "prompts"@, "name"@, "originalName"@, false, k, j);
    let items = collected(results, "prompts"@, "name"@, "originalName"@, false);
    let o = JsonView::Object(seq![("prompts"@, JsonView::Array(items))]);
    crate::json::lemma_key_index_at(o->Object_0, "prompts"@, 0);
    let server = results[k].0;
    let prompt = listed_item(results[k].1, "prompts"@, j);
    match prompt.get_str("name"@) {
        Some(v) => {
            let p = prefixed_name(server, v);
            let a = prompt.insert("name"@, JsonView::Str(p));
            let b = a.insert("originalName"@, JsonView::Str(v));
            assert(prompt.is_object());
            crate::json::lemma_get_insert_same(prompt, "name"@, JsonView::Str(p));
            crate::json::lemma_get_insert_same(a, "originalName"@, JsonView::Str(v));
            crate::json::lemma_get_insert_same(b, "server"@, JsonView::Str(server));
            crate::json::lemma_get_insert_other(a, "originalName"@, JsonView::Str(v), "name"@);
            crate::json::lemma_get_insert_other(b, "server"@, JsonView::Str(server), "name"@);
            crate::json::lemma_get_insert_other(b, "server"@, JsonView::Str(server), "originalName"@);
            crate::json::lemma_get_insert_other(prompt, "name"@, JsonView::Str(p), other);
            crate::json::lemma_get_insert_other(a, "originalName"@, JsonView::Str(v), other);
            crate::json::lemma_get_insert_other(b, "server"@, JsonView::Str(server), other);
        },
        None => {},
    }
}

/// Listing tools over several servers gives every server's tools, server
/// by server in the order given: as many as all servers list together, and
/// the `j`th tool of the `k`th server right after the tools of the
/// servers before it. A tool with a name is listed under that server's
/// prefixed name, with its own name as `originalName` and the server as
/// `server`, and keeps every other field; a tool without one is kept as
/// it is.
pub proof fn lemma_tools_list_concatenates_servers(
    results: Seq<(Seq<char>, JsonView)>,
    k: int,
    j: int,
    other: Seq<char>,
)
    requires
        0 <= k < results.len(),
        0 <= j < listed_len(results[k].1, "tools"@),
        other != "name"@,
        other != "originalName"@,
        other != "server"@,
    ensures
        ({
            let server = results[k].0;
            let tool = listed_item(results[k].1, "tools"@, j);
            &&& aggregate_spec("tools/list"@, results) is Ok
            &&& aggregate_spec("tools/list"@, results)->Ok_0.get("tools"@) is Some
            &&& aggregate_spec("tools/list"@, results)->Ok_0.get("tools"@)->0 is Array
            &&& {
                let listed = aggregate_spec("tools/list"@, results)->Ok_0.get("tools"@)->0->Array_0;
                let shown = listed[listed_before(results, k, "tools"@) + j];
                &&& listed.len() == listed_before(results, results.len() as int, "tools"@)
                &&& match tool.get_str("name"@) {
                    Some(v) => {
                        &&& shown.get_str("name"@) == Some(prefixed_name(server, v))
                        &&& shown.get("originalName"@) == Some(JsonView::Str(v))
                        &&& shown.get("server"@) == Some(JsonView::Str(server))
                        &&& shown.get(other) == tool.get(other)
                    },
                    None => shown == tool,
                }
            }
        }),
{
    reveal_strlit("tools/list");
    reveal_strlit("prompts/list");
    reveal_strlit("resources/list");
    reveal_strlit("tools");
    reveal_strlit("name");
    reveal_strlit("originalName");
    reveal_strlit("server");
    assert("tools/list"@.len() != "resources/list"@.len());
    assert("name"@.len() == 4 && "originalName"@.len() == 12 && "server"@.len() == 6);
    lemma_collected_layout(results, "tools"@, "name"@, "originalName"@, false, k, j);
    let items = collected(results, "tools"@, "name"@, "originalName"@, false);
    let o = JsonView::Object(seq![("tools"@, JsonView::Array(items))]);
    crate::json::lemma_key_index_at(o->Object_0, "tools"@, 0);
    let server = results[k].0;
    let tool = listed_item(results[k].1, "tools"@, j);
    match tool.get_str("name"@) {
        Some(v) => {
            let p = prefixed_name(server, v);
            let a = tool.insert("name"@, JsonView::Str(p));
            let b = a.insert("originalName"@, JsonView::Str(v));
            assert(tool.is_object());
            crate::json::lemma_get_insert_same(tool, "name"@, JsonView::Str(p));
            crate::json::lemma_get_insert_same(a, "originalName"@, JsonView::Str(v));
            crate::json::lemma_get_insert_same(b, "server"@, JsonView::Str(server));
            crate::json::lemma_get_insert_other(a, "originalName"@, JsonView::Str(v), "name"@);
            crate::json::lemma_get_insert_other(b, "server"@, JsonView::Str(server), "name"@);
            crate::json::lemma_get_insert_other(b, "server"@, JsonView::Str(server), "originalName"@);
            crate::json::lemma_get_insert_other(tool, "name"@, JsonView::Str(p), other);
            crate::json::lemma_get_insert_other(a, "originalName"@, JsonView::Str(v), other);
            crate::json::lemma_get_insert_other(b, "server"@, JsonView::Str(server), other);
        },
        None => {},
    }
}

/// Listing resources over several servers gives every server's resources,
/// server by server in the order given, followed by the tracing resources:
/// as many as all servers list together, plus those, and the `j`th resource
/// of the `k`th server right after the resources of the servers before it.
/// A resource with a URI is listed under that server's prefixed URI, with its
/// own URI as `originalUri` and the server as `server`, and keeps every other
/// field; a resource without one is kept as it is.
pub proof fn lemma_resources_list_concatenates_servers(
    results: Seq<(Seq<char>, JsonView)>,
    k: int,
    j: int,
    other: Seq<char>,
)
    requires
        0 <= k < results.len(),
        0 <= j < listed_len(results[k].1, "resources"@),
        other != "uri"@,
        other != "originalUri"@,
        other != "server"@,
    ensures
        ({
            let server = results[k].0;
            let resource = listed_item(results[k].1, "resources"@, j);
            &&& aggregate_spec("resources/list"@, results) is Ok
            &&& aggregate_spec("resources/list"@, results)->Ok_0.get("resources"@) is Some
            &&& aggregate_spec("resources/list"@, results)->Ok_0.get("resources"@)->0 is Array
            &&& {
                let listed = aggregate_spec("resources/list"@, results)->Ok_0.get("resources"@)->0->Array_0;
                let shown = listed[listed_before(results, k, "resources"@) + j];
                &&& listed.len() == listed_before(results, results.len() as int, "resources"@) + tracing_resources_view().len()
                &&& match resource.get_str("uri"@) {
                    Some(v) => {
                        &&& shown.get_str("uri"@) == Some(prefixed_uri(server, v))
                        &&& shown.get("originalUri"@) == Some(JsonView::Str(v))
                        &&& shown.get("server"@) == Some(JsonView::Str(server))
                        &&& shown.get(other) == resource.get(other)
                    },
                    None => shown == resource,
                }
            }
        }),
{
    reveal_strlit("resources/list");
    reveal_strlit("tools/list");
    reveal_strlit("resources");
    reveal_strlit("uri");
    reveal_strlit("originalUri");
    reveal_strlit("server");
    lemma_listed_before_monotonic(results, k + 1, results.len() as int, "resources"@);
    assert("resources/list"@.len() != "tools/list"@.len());
    assert("uri"@.len() == 3 && "originalUri"@.len() == 11 && "server"@.len() == 6);
    lemma_collected_layout(results, "resources"@, "uri"@, "originalUri"@, true, k, j);
    let items = collected(results, "resources"@, "uri"@, "originalUri"@, true);
    let o = JsonView::Object(seq![("resources"@, JsonView::Array(items + tracing_resources_view()))]);
    assert((items + tracing_resources_view())[listed_before(results, k, "resources"@) + j] == items[listed_before(results, k, "resources"@) + j]);
    crate::json::lemma_key_index_at(o->Object_0, "resources"@, 0);
    let server = results[k].0;
    let resource = listed_item(results[k].1, "resources"@, j);
    match resource.get_str("uri"@) {
        Some(v) => {
            let p = prefixed_uri(server, v);
            let a = resource.insert("uri"@, JsonView::Str(p));
            let b = a.insert("originalUri"@, JsonView::Str(v));
            assert(resource.is_object());
            crate::json::lemma_get_insert_same(resource, "uri"@, JsonView::Str(p));
            crate::json::lemma_get_insert_same(a, "originalUri"@, JsonView::Str(v));
            crate::json::lemma_get_insert_same(b, "server"@, JsonView::Str(server));
            crate::json::lemma_get_insert_other(a, "originalUri"@, JsonView::Str(v), "uri"@);
            crate::json::lemma_get_insert_other(b, "server"@, JsonView::Str(server), "uri"@);
            crate::json::lemma_get_insert_other(b, "server"@, JsonView::Str(server), "originalUri"@);
            crate::json::lemma_get_insert_other(resource, "uri"@, JsonView::Str(p), other);
            crate::json::lemma_get_insert_other(a, "originalUri"@, JsonView::Str(v), other);
            crate::json::lemma_get_insert_other(b, "server"@, JsonView::Str(server), other);
        },
        None => {},
    }
}

} // verus!
