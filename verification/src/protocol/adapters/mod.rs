//! Adapters between protocol versions, one per ordered pair of versions.
pub mod edit;
pub mod pass_through;
pub mod v20241105_to_v20250326;
pub mod v20241105_to_v20250618;
pub mod v20250326_to_v20241105;
pub mod v20250326_to_v20250618;
pub mod v20250618_to_v20241105;
pub mod v20250618_to_v20250326;

use vstd::prelude::*;
use crate::json::{Json, JsonView};
use crate::protocol::adapter::ProtocolAdapter;
use crate::protocol::error::ProtocolError;
use crate::protocol::version::ProtocolVersion;
pub use pass_through::PassThroughAdapter;
pub use v20241105_to_v20250326::V20241105ToV20250326Adapter;
pub use v20241105_to_v20250618::V20241105ToV20250618Adapter;
pub use v20250326_to_v20241105::V20250326ToV20241105Adapter;
pub use v20250326_to_v20250618::V20250326ToV20250618Adapter;
pub use v20250618_to_v20241105::V20250618ToV20241105Adapter;
pub use v20250618_to_v20250326::V20250618ToV20250326Adapter;

verus! {

/// One adapter of any version pair.
pub enum VersionAdapter {
    PassThrough(PassThroughAdapter),
    V20241105ToV20250326(V20241105ToV20250326Adapter),
    V20241105ToV20250618(V20241105ToV20250618Adapter),
    V20250326ToV20241105(V20250326ToV20241105Adapter),
    V20250326ToV20250618(V20250326ToV20250618Adapter),
    V20250618ToV20241105(V20250618ToV20241105Adapter),
    V20250618ToV20250326(V20250618ToV20250326Adapter),
}

impl ProtocolAdapter for VersionAdapter {
    open spec fn spec_source_version(&self) -> ProtocolVersion {
        match self {
            VersionAdapter::PassThrough(a) => a.spec_source_version(),
            VersionAdapter::V20241105ToV20250326(a) => a.spec_source_version(),
            VersionAdapter::V20241105ToV20250618(a) => a.spec_source_version(),
            VersionAdapter::V20250326ToV20241105(a) => a.spec_source_version(),
            VersionAdapter::V20250326ToV20250618(a) => a.spec_source_version(),
            VersionAdapter::V20250618ToV20241105(a) => a.spec_source_version(),
            VersionAdapter::V20250618ToV20250326(a) => a.spec_source_version(),
        }
    }

    open spec fn spec_target_version(&self) -> ProtocolVersion {
        match self {
            VersionAdapter::PassThrough(a) => a.spec_target_version(),
            VersionAdapter::V20241105ToV20250326(a) => a.spec_target_version(),
            VersionAdapter::V20241105ToV20250618(a) => a.spec_target_version(),
            VersionAdapter::V20250326ToV20241105(a) => a.spec_target_version(),
            VersionAdapter::V20250326ToV20250618(a) => a.spec_target_version(),
            VersionAdapter::V20250618ToV20241105(a) => a.spec_target_version(),
            VersionAdapter::V20250618ToV20250326(a) => a.spec_target_version(),
        }
    }

    open spec fn response_translation(&self, response: JsonView) -> JsonView {
        match self {
            VersionAdapter::PassThrough(a) => a.response_translation(response),
            VersionAdapter::V20241105ToV20250326(a) => a.response_translation(response),
            VersionAdapter::V20241105ToV20250618(a) => a.response_translation(response),
            VersionAdapter::V20250326ToV20241105(a) => a.response_translation(response),
            VersionAdapter::V20250326ToV20250618(a) => a.response_translation(response),
            VersionAdapter::V20250618ToV20241105(a) => a.response_translation(response),
            VersionAdapter::V20250618ToV20250326(a) => a.response_translation(response),
        }
    }

    open spec fn drops_notification(&self, notification: JsonView) -> bool {
        match self {
            VersionAdapter::PassThrough(a) => a.drops_notification(notification),
            VersionAdapter::V20241105ToV20250326(a) => a.drops_notification(notification),
            VersionAdapter::V20241105ToV20250618(a) => a.drops_notification(notification),
            VersionAdapter::V20250326ToV20241105(a) => a.drops_notification(notification),
            VersionAdapter::V20250326ToV20250618(a) => a.drops_notification(notification),
            VersionAdapter::V20250618ToV20241105(a) => a.drops_notification(notification),
            VersionAdapter::V20250618ToV20250326(a) => a.drops_notification(notification),
        }
    }

    fn source_version(&self) -> (v: ProtocolVersion) {
        match self {
            VersionAdapter::PassThrough(a) => a.source_version(),
            VersionAdapter::V20241105ToV20250326(a) => a.source_version(),
            VersionAdapter::V20241105ToV20250618(a) => a.source_version(),
            VersionAdapter::V20250326ToV20241105(a) => a.source_version(),
            VersionAdapter::V20250326ToV20250618(a) => a.source_version(),
            VersionAdapter::V20250618ToV20241105(a) => a.source_version(),
            VersionAdapter::V20250618ToV20250326(a) => a.source_version(),
        }
    }

    fn target_version(&self) -> (v: ProtocolVersion) {
        match self {
            VersionAdapter::PassThrough(a) => a.target_version(),
            VersionAdapter::V20241105ToV20250326(a) => a.target_version(),
            VersionAdapter::V20241105ToV20250618(a) => a.target_version(),
            VersionAdapter::V20250326ToV20241105(a) => a.target_version(),
            VersionAdapter::V20250326ToV20250618(a) => a.target_version(),
            VersionAdapter::V20250618ToV20241105(a) => a.target_version(),
            VersionAdapter::V20250618ToV20250326(a) => a.target_version(),
        }
    }

    fn translate_request(&self, request: Json) -> (r: Result<Json, ProtocolError>) {
        match self {
            VersionAdapter::PassThrough(a) => a.translate_request(request),
            VersionAdapter::V20241105ToV20250326(a) => a.translate_request(request),
            VersionAdapter::V20241105ToV20250618(a) => a.translate_request(request),
            VersionAdapter::V20250326ToV20241105(a) => a.translate_request(request),
            VersionAdapter::V20250326ToV20250618(a) => a.translate_request(request),
            VersionAdapter::V20250618ToV20241105(a) => a.translate_request(request),
            VersionAdapter::V20250618ToV20250326(a) => a.translate_request(request),
        }
    }

    fn translate_response(&self, response: Json) -> (r: Result<Json, ProtocolError>) {
        match self {
            VersionAdapter::PassThrough(a) => a.translate_response(response),
            VersionAdapter::V20241105ToV20250326(a) => a.translate_response(response),
            VersionAdapter::V20241105ToV20250618(a) => a.translate_response(response),
            VersionAdapter::V20250326ToV20241105(a) => a.translate_response(response),
            VersionAdapter::V20250326ToV20250618(a) => a.translate_response(response),
            VersionAdapter::V20250618ToV20241105(a) => a.translate_response(response),
            VersionAdapter::V20250618ToV20250326(a) => a.translate_response(response),
        }
    }

    fn translate_notification(&self, notification: Json) -> (r: Result<Json, ProtocolError>) {
        match self {
            VersionAdapter::PassThrough(a) => a.translate_notification(notification),
            VersionAdapter::V20241105ToV20250326(a) => a.translate_notification(notification),
            VersionAdapter::V20241105ToV20250618(a) => a.translate_notification(notification),
            VersionAdapter::V20250326ToV20241105(a) => a.translate_notification(notification),
            VersionAdapter::V20250326ToV20250618(a) => a.translate_notification(notification),
            VersionAdapter::V20250618ToV20241105(a) => a.translate_notification(notification),
            VersionAdapter::V20250618ToV20250326(a) => a.translate_notification(notification),
        }
    }
}

/// The adapter for a version pair: pass-through when the versions match,
/// otherwise the translation adapter of the pair.
pub open spec fn spec_create_adapter(source: ProtocolVersion, target: ProtocolVersion) -> VersionAdapter {
    if source == target {
        VersionAdapter::PassThrough(PassThroughAdapter { version: source })
    } else {
        match (source, target) {
            (ProtocolVersion::V20241105, ProtocolVersion::V20250326) => VersionAdapter::V20241105ToV20250326(V20241105ToV20250326Adapter),
            (ProtocolVersion::V20241105, _) => VersionAdapter::V20241105ToV20250618(V20241105ToV20250618Adapter),
            (ProtocolVersion::V20250326, ProtocolVersion::V20241105) => VersionAdapter::V20250326ToV20241105(V20250326ToV20241105Adapter),
            (ProtocolVersion::V20250326, _) => VersionAdapter::V20250326ToV20250618(V20250326ToV20250618Adapter),
            (ProtocolVersion::V20250618, ProtocolVersion::V20241105) => VersionAdapter::V20250618ToV20241105(V20250618ToV20241105Adapter),
            (ProtocolVersion::V20250618, _) => VersionAdapter::V20250618ToV20250326(V20250618ToV20250326Adapter),
        }
    }
}

/// Factory for the adapter of a version pair.
pub fn create_adapter(source_version: ProtocolVersion, target_version: ProtocolVersion) -> (r: VersionAdapter)
    ensures
        r == spec_create_adapter(source_version, target_version),
        r.spec_source_version() == source_version,
        r.spec_target_version() == target_version,
{
    if source_version == target_version {
        return VersionAdapter::PassThrough(PassThroughAdapter::new(source_version));
    }
    match (source_version, target_version) {
        (ProtocolVersion::V20241105, ProtocolVersion::V20250326) => VersionAdapter::V20241105ToV20250326(V20241105ToV20250326Adapter::new()),
        (ProtocolVersion::V20241105, _) => VersionAdapter::V20241105ToV20250618(V20241105ToV20250618Adapter::new()),
        (ProtocolVersion::V20250326, ProtocolVersion::V20241105) => VersionAdapter::V20250326ToV20241105(V20250326ToV20241105Adapter::new()),
        (ProtocolVersion::V20250326, _) => VersionAdapter::V20250326ToV20250618(V20250326ToV20250618Adapter::new()),
        (ProtocolVersion::V20250618, ProtocolVersion::V20241105) => VersionAdapter::V20250618ToV20241105(V20250618ToV20241105Adapter::new()),
        (ProtocolVersion::V20250618, _) => VersionAdapter::V20250618ToV20250326(V20250618ToV20250326Adapter::new()),
    }
}

/// Every pair of protocol versions has an adapter: its source is the
/// pair's source and its target the pair's target.
pub proof fn lemma_every_pair_has_adapter(source: ProtocolVersion, target: ProtocolVersion)
    ensures
        spec_create_adapter(source, target).spec_source_version() == source,
        spec_create_adapter(source, target).spec_target_version() == target,
{
}

/// When both sides speak the same version, every response and notification
/// passes unchanged.
pub proof fn lemma_same_version_passes_through(v: ProtocolVersion, message: JsonView)
    ensures
        spec_create_adapter(v, v).response_translation(message) == message,
        !spec_create_adapter(v, v).drops_notification(message),
{
}

/// A notification is dropped exactly when a newer client talks to a
/// 2024-11-05 server and the notification is resources/updated.
pub proof fn lemma_dropped_notifications(
    source: ProtocolVersion,
    target: ProtocolVersion,
    notification: JsonView,
)
    ensures
        spec_create_adapter(source, target).drops_notification(notification) <==> (target
            == ProtocolVersion::V20241105 && source != ProtocolVersion::V20241105
            && crate::protocol::adapter::is_resources_updated(notification)),
{
}

} // verus!

verus! {

use crate::protocol::adapters::edit::{
    ItemEdit, audio_text_object, lemma_add_resource_name, lemma_edit_result_array,
    lemma_remove_from_result, lemma_remove_keys, result_array, result_has,
};
use crate::protocol::translation::resources::resource_name;

/// Talking to a 2025-06-18 server from an older client, every resource
/// content of a resources/read response that has a string URI but no name
/// comes back with the name generated from its URI, and the contents keep
/// their number.
pub proof fn lemma_upgrade_names_resources(
    source: ProtocolVersion,
    response: JsonView,
    i: int,
    uri: Seq<char>,
)
    requires
        source != ProtocolVersion::V20250618,
        !result_has(response, "tools"@),
        result_array(response, "contents"@) is Some,
        0 <= i < result_array(response, "contents"@)->0.len(),
        result_array(response, "contents"@)->0[i].is_object(),
        result_array(response, "contents"@)->0[i].get("name"@) is None,
        result_array(response, "contents"@)->0[i].get_str("uri"@) == Some(uri),
    ensures
        ({
            let out = spec_create_adapter(source, ProtocolVersion::V20250618).response_translation(
                response,
            );
            &&& result_array(out, "contents"@) is Some
            &&& result_array(out, "contents"@)->0.len() == result_array(response, "contents"@)->0.len()
            &&& result_array(out, "contents"@)->0[i].get("name"@) == Some(
                JsonView::Str(resource_name(uri)),
            )
        }),
{
    let items = result_array(response, "contents"@)->0;
    lemma_edit_result_array(response, "contents"@, ItemEdit::AddResourceName);
    lemma_add_resource_name(items[i], uri);
}

/// Talking to an older server from a 2025-06-18 client, every tool of a
/// tools/list response loses `title` and `outputSchema` and keeps every other
/// field.
pub proof fn lemma_downgrade_strips_tool_fields(
    target: ProtocolVersion,
    response: JsonView,
    i: int,
    field: Seq<char>,
)
    requires
        target != ProtocolVersion::V20250618,
        result_array(response, "tools"@) is Some,
        0 <= i < result_array(response, "tools"@)->0.len(),
        field != "title"@,
        field != "outputSchema"@,
    ensures
        ({
            let out = spec_create_adapter(ProtocolVersion::V20250618, target).response_translation(
                response,
            );
            let tool = result_array(response, "tools"@)->0[i];
            &&& result_array(out, "tools"@) is Some
            &&& result_array(out, "tools"@)->0.len() == result_array(response, "tools"@)->0.len()
            &&& result_array(out, "tools"@)->0[i].get("title"@) is None
            &&& result_array(out, "tools"@)->0[i].get("outputSchema"@) is None
            &&& result_array(out, "tools"@)->0[i].get(field) == tool.get(field)
        }),
{
    let items = result_array(response, "tools"@)->0;
    lemma_edit_result_array(response, "tools"@, ItemEdit::RemoveKeys("title", "outputSchema"));
    lemma_remove_keys(items[i], "title", "outputSchema", field);
}

/// Talking to an older server from a 2025-06-18 client, every resource
/// content of a resources/read response loses `name` and `title`.
pub proof fn lemma_downgrade_strips_resource_names(
    target: ProtocolVersion,
    response: JsonView,
    i: int,
    field: Seq<char>,
)
    requires
        target != ProtocolVersion::V20250618,
        !result_has(response, "tools"@),
        !result_has(response, "resources"@),
        result_array(response, "contents"@) is Some,
        0 <= i < result_array(response, "contents"@)->0.len(),
        field != "name"@,
        field != "title"@,
    ensures
        ({
            let out = spec_create_adapter(ProtocolVersion::V20250618, target).response_translation(
                response,
            );
            let content = result_array(response, "contents"@)->0[i];
            &&& result_array(out, "contents"@) is Some
            &&& result_array(out, "contents"@)->0.len() == result_array(response, "contents"@)->0.len()
            &&& result_array(out, "contents"@)->0[i].get("name"@) is None
            &&& result_array(out, "contents"@)->0[i].get("title"@) is None
            &&& result_array(out, "contents"@)->0[i].get(field) == content.get(field)
        }),
{
    let items = result_array(response, "contents"@)->0;
    lemma_edit_result_array(response, "contents"@, ItemEdit::RemoveKeys("name", "title"));
    lemma_remove_keys(items[i], "name", "title", field);
}

/// Talking to a 2024-11-05 server from a newer client, every audio item of a
/// tools/call response is replaced by a text item naming its MIME type.
pub proof fn lemma_downgrade_describes_audio(
    source: ProtocolVersion,
    response: JsonView,
    i: int,
    mime_type: Seq<char>,
)
    requires
        source != ProtocolVersion::V20241105,
        !result_has(response, "tools"@),
        !result_has(response, "contents"@),
        result_array(response, "content"@) is Some,
        0 <= i < result_array(response, "content"@)->0.len(),
        result_array(response, "content"@)->0[i].is_object(),
        result_array(response, "content"@)->0[i].get_str("type"@) == Some("audio"@),
        result_array(response, "content"@)->0[i].get_str("mimeType"@) == Some(mime_type),
    ensures
        ({
            let out = spec_create_adapter(source, ProtocolVersion::V20241105).response_translation(
                response,
            );
            &&& result_array(out, "content"@) is Some
            &&& result_array(out, "content"@)->0.len() == result_array(response, "content"@)->0.len()
            &&& result_array(out, "content"@)->0[i] == audio_text_object(mime_type)
        }),
{
    let items = result_array(response, "content"@)->0;
    if source == ProtocolVersion::V20250326 {
        lemma_edit_result_array(response, "content"@, ItemEdit::AudioToText("audio/*"));
    } else {
        reveal_strlit("structuredContent");
        reveal_strlit("content");
        assert("structuredContent"@ != "content"@) by {
            assert("structuredContent"@.len() != "content"@.len());
        }
        lemma_remove_from_result(response, "structuredContent"@, "content"@);
        let stripped = crate::protocol::adapters::edit::remove_from_result(
            response,
            "structuredContent"@,
        );
        lemma_edit_result_array(stripped, "content"@, ItemEdit::AudioToText("unknown"));
    }
}

/// Talking to a 2025-03-26 server from a 2025-06-18 client, every resource
/// of a resources/list response loses `title` and keeps every other field
/// (its `uri` and `name` among them), and the list keeps its length.
pub proof fn lemma_resources_list_to_v20250326_drops_only_titles(response: JsonView, i: int, field: Seq<char>)
    requires
        !result_has(response, "tools"@),
        result_array(response, "resources"@) is Some,
        0 <= i < result_array(response, "resources"@)->0.len(),
        field != "title"@,
    ensures
        ({
            let out = spec_create_adapter(ProtocolVersion::V20250618, ProtocolVersion::V20250326).response_translation(
                response,
            );
            let resource = result_array(response, "resources"@)->0[i];
            &&& result_array(out, "resources"@) is Some
            &&& result_array(out, "resources"@)->0.len() == result_array(response, "resources"@)->0.len()
            &&& result_array(out, "resources"@)->0[i].get("title"@) is None
            &&& result_array(out, "resources"@)->0[i].get(field) == resource.get(field)
        }),
{
    let items = result_array(response, "resources"@)->0;
    lemma_edit_result_array(response, "resources"@, ItemEdit::RemoveKey("title"));
    crate::json::lemma_get_remove(items[i], "title"@, field);
}

/// Talking to a 2025-03-26 server from a 2025-06-18 client, a tools/call
/// response loses `structuredContent` from its result and nothing else: every
/// other field of the result (its `content` among them, item by item) and
/// every other field of the response is as it was.
pub proof fn lemma_tools_call_to_v20250326_drops_only_structured_content(
    response: JsonView,
    field: Seq<char>,
    key: Seq<char>,
)
    requires
        !result_has(response, "tools"@),
        !result_has(response, "resources"@),
        !result_has(response, "contents"@),
        result_has(response, "content"@),
    ensures
        ({
            let out = spec_create_adapter(ProtocolVersion::V20250618, ProtocolVersion::V20250326).response_translation(
                response,
            );
            let result = response.get("result"@)->0;
            &&& out.get("result"@) is Some
            &&& out.get("result"@)->0.get("structuredContent"@) is None
            &&& field != "structuredContent"@ ==> out.get("result"@)->0.get(field) == result.get(field)
            &&& key != "result"@ ==> out.get(key) == response.get(key)
        }),
{
    let result = response.get("result"@)->0;
    assert(response.is_object());
    crate::json::lemma_get_remove(result, "structuredContent"@, field);
    crate::json::lemma_get_insert_same(response, "result"@, result.remove("structuredContent"@));
    if key != "result"@ {
        crate::json::lemma_get_insert_other(response, "result"@, result.remove("structuredContent"@), key);
    }
}

/// A response that carries none of the translated lists (tools, resources,
/// resource contents or call content) passes every adapter unchanged.
pub proof fn lemma_other_responses_pass_unchanged(source: ProtocolVersion, target: ProtocolVersion, response: JsonView)
    requires
        !result_has(response, "tools"@),
        !result_has(response, "resources"@),
        !result_has(response, "contents"@),
        !result_has(response, "content"@),
    ensures
        spec_create_adapter(source, target).response_translation(response) == response,
{
}

/// Talking to a 2024-11-05 server from a newer client, the content of a
/// tools/call response keeps its length, and every item that is not an
/// audio object comes back as it was.
pub proof fn lemma_downgrade_keeps_non_audio_content(source: ProtocolVersion, response: JsonView, i: int)
    requires
        source != ProtocolVersion::V20241105,
        !result_has(response, "tools"@),
        !result_has(response, "contents"@),
        result_array(response, "content"@) is Some,
        0 <= i < result_array(response, "content"@)->0.len(),
        !(result_array(response, "content"@)->0[i].is_object() && result_array(response, "content"@)->0[i].get_str(
            "type"@,
        ) == Some("audio"@)),
    ensures
        ({
            let out = spec_create_adapter(source, ProtocolVersion::V20241105).response_translation(response);
            &&& result_array(out, "content"@) is Some
            &&& result_array(out, "content"@)->0.len() == result_array(response, "content"@)->0.len()
            &&& result_array(out, "content"@)->0[i] == result_array(response, "content"@)->0[i]
        }),
{
    if source == ProtocolVersion::V20250326 {
        lemma_edit_result_array(response, "content"@, ItemEdit::AudioToText("audio/*"));
    } else {
        reveal_strlit("structuredContent");
        reveal_strlit("content");
        assert("structuredContent"@ != "content"@) by {
            assert("structuredContent"@.len() != "content"@.len());
        }
        lemma_remove_from_result(response, "structuredContent"@, "content"@);
        let stripped = crate::protocol::adapters::edit::remove_from_result(response, "structuredContent"@);
        lemma_edit_result_array(stripped, "content"@, ItemEdit::AudioToText("unknown"));
    }
}

/// Talking to a 2024-11-05 server from a 2025-06-18 client, a tools/call
/// response loses `structuredContent` from its result.
pub proof fn lemma_downgrade_to_v20241105_drops_structured_content(response: JsonView)
    requires
        !result_has(response, "tools"@),
        !result_has(response, "contents"@),
        result_has(response, "content"@),
    ensures
        ({
            let out = spec_create_adapter(ProtocolVersion::V20250618, ProtocolVersion::V20241105).response_translation(
                response,
            );
            &&& out.get("result"@) is Some
            &&& out.get("result"@)->0.get("structuredContent"@) is None
        }),
{
    reveal_strlit("structuredContent");
    reveal_strlit("content");
    assert("structuredContent"@ != "content"@) by {
        assert("structuredContent"@.len() != "content"@.len());
    }
    let result = response.get("result"@)->0;
    assert(response.is_object());
    let stripped = crate::protocol::adapters::edit::remove_from_result(response, "structuredContent"@);
    crate::json::lemma_get_remove(result, "structuredContent"@, "content"@);
    crate::json::lemma_get_insert_same(response, "result"@, result.remove("structuredContent"@));
    let sr = result.remove("structuredContent"@);
    assert(stripped.get("result"@) == Some(sr));
    assert(stripped.is_object());
    match sr.get("content"@) {
        Some(JsonView::Array(items)) => {
            let ni = JsonView::Array(
                items.map_values(|x: JsonView| crate::protocol::adapters::edit::apply_edit(ItemEdit::AudioToText("unknown"), x)),
            );
            crate::json::lemma_get_insert_other(sr, "content"@, ni, "structuredContent"@);
            crate::json::lemma_get_insert_same(stripped, "result"@, sr.insert("content"@, ni));
        },
        _ => {},
    }
}

/// Talking to a 2025-06-18 server from an older client, a resource content
/// of a resources/read response that already has a name comes back as it was,
/// and the contents keep their number.
pub proof fn lemma_upgrade_keeps_named_contents(source: ProtocolVersion, response: JsonView, i: int)
    requires
        source != ProtocolVersion::V20250618,
        !result_has(response, "tools"@),
        result_array(response, "contents"@) is Some,
        0 <= i < result_array(response, "contents"@)->0.len(),
        result_array(response, "contents"@)->0[i].get("name"@) is Some,
    ensures
        ({
            let out = spec_create_adapter(source, ProtocolVersion::V20250618).response_translation(response);
            &&& result_array(out, "contents"@) is Some
            &&& result_array(out, "contents"@)->0.len() == result_array(response, "contents"@)->0.len()
            &&& result_array(out, "contents"@)->0[i] == result_array(response, "contents"@)->0[i]
        }),
{
    lemma_edit_result_array(response, "contents"@, ItemEdit::AddResourceName);
}

} // verus!
