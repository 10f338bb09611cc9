//! Content conversions between the v1 (2024-11-05) and v2 (2025-03-26) formats.
use vstd::prelude::*;
use crate::text::concat3;
use crate::types::mcp::{v20241105::ContentV1, v20250326::ContentV2};

verus! {

/// The text that stands for audio content of the given MIME type in v1.
pub open spec fn audio_description(mime_type: Seq<char>) -> Seq<char> {
    "[Audio content: "@ + mime_type + "]"@
}

/// Every v1 content maps to the same v2 content.
pub open spec fn spec_content_v1_to_v2(v1: ContentV1) -> ContentV2 {
    match v1 {
        ContentV1::Text { text } => ContentV2::Text { text },
        ContentV1::Image { data, mime_type } => ContentV2::Image { data, mime_type },
        ContentV1::Resource { resource } => ContentV2::Resource { resource },
    }
}

/// Convert ContentV1 to ContentV2: all v1 content types map directly to v2
/// (v2 is a superset).
pub fn content_v1_to_v2(v1: ContentV1) -> (r: ContentV2)
    ensures
        r == spec_content_v1_to_v2(v1),
{
    match v1 {
        ContentV1::Text { text } => ContentV2::Text { text },
        ContentV1::Image { data, mime_type } => ContentV2::Image { data, mime_type },
        ContentV1::Resource { resource } => ContentV2::Resource { resource },
    }
}

/// Convert ContentV2 to ContentV1: audio, which v1 lacks, becomes a text
/// description naming its MIME type; everything else maps directly.
pub fn content_v2_to_v1(v2: ContentV2) -> (r: ContentV1)
    ensures
        match v2 {
            ContentV2::Text { text } => r == ContentV1::Text { text },
            ContentV2::Image { data, mime_type } => r == ContentV1::Image { data, mime_type },
            ContentV2::Audio { mime_type, .. } => match r {
                ContentV1::Text { text } => text@ == audio_description(mime_type@),
                _ => false,
            },
            ContentV2::Resource { resource } => r == ContentV1::Resource { resource },
        },
{
    match v2 {
        ContentV2::Text { text } => ContentV1::Text { text },
        ContentV2::Image { data, mime_type } => ContentV1::Image { data, mime_type },
        ContentV2::Audio { mime_type, .. } => {
            ContentV1::Text { text: concat3("[Audio content: ", mime_type.as_str(), "]") }
        },
        ContentV2::Resource { resource } => ContentV1::Resource { resource },
    }
}

/// Converting v1 content to v2 and back gives the original content.
pub proof fn lemma_content_round_trip(v1: ContentV1)
    ensures
        match spec_content_v1_to_v2(v1) {
            ContentV2::Text { text } => ContentV1::Text { text } == v1,
            ContentV2::Image { data, mime_type } => ContentV1::Image { data, mime_type } == v1,
            ContentV2::Resource { resource } => ContentV1::Resource { resource } == v1,
            ContentV2::Audio { .. } => false,
        },
{
}

} // verus!
