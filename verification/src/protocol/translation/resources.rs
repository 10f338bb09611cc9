//! Resource contents conversions between the v1 and v2 (2025-06-18) formats.
use vstd::prelude::*;
use crate::types::mcp::{v20241105::ResourceContentsV1, v20250618::ResourceContentsV2};

verus! {

/// The path component of `uri` as the `url` crate's parser reads it, when
/// `uri` parses as an absolute URL.
pub uninterp spec fn url_path(uri: Seq<char>) -> Option<Seq<char>>;

/// Calls `url::Url::parse` and, on success, `Url::path`. The contract names
/// the result: it is `url_path` of the argument. Nothing more is stated of
/// URL parsing.
#[verifier::external_body]
fn parse_url_path(uri: &str) -> (r: Option<String>)
    ensures
        match r {
            Some(p) => url_path(uri@) == Some(p@),
            None => url_path(uri@) is None,
        },
{
    match url::Url::parse(uri) {
        Ok(u) => Some(u.path().to_string()),
        Err(_) => None,
    }
}

/// The characters after the last '/' of `p` (all of `p` when it has none).
pub open spec fn after_last_slash(p: Seq<char>) -> Seq<char>
    decreases p.len(),
{
    if p.len() == 0 {
        p
    } else if p.last() == '/' {
        Seq::empty()
    } else {
        after_last_slash(p.drop_last()).push(p.last())
    }
}

/// The last '/'-separated segment of a URL path; there are no segments
/// unless the path starts with '/' (as `Url::path_segments` splits a path).
pub open spec fn last_path_segment(path: Seq<char>) -> Option<Seq<char>> {
    if path.len() > 0 && path[0] == '/' {
        Some(after_last_slash(path))
    } else {
        None
    }
}

/// The name generated for a resource: the last path segment of its URI when
/// the URI parses as a URL whose last segment is non-empty, else the URI.
pub open spec fn resource_name(uri: Seq<char>) -> Seq<char> {
    match url_path(uri) {
        Some(p) => match last_path_segment(p) {
            Some(seg) => if seg.len() > 0 {
                seg
            } else {
                uri
            },
            None => uri,
        },
        None => uri,
    }
}

proof fn lemma_after_last_slash(p: Seq<char>, k: int)
    requires
        0 <= k < p.len(),
        p[k] == '/',
        forall|j: int| k < j < p.len() ==> p[j] != '/',
    ensures
        after_last_slash(p) == p.subrange(k + 1, p.len() as int),
    decreases p.len(),
{
    if p.last() == '/' {
        assert(p.subrange(k + 1, p.len() as int) =~= Seq::<char>::empty());
    } else {
        let d = p.drop_last();
        assert(d[k] == p[k]);
        assert forall|j: int| k < j < d.len() implies d[j] != '/' by {
            assert(d[j] == p[j]);
        }
        lemma_after_last_slash(d, k);
        assert(d.subrange(k + 1, d.len() as int).push(p.last()) =~= p.subrange(
            k + 1,
            p.len() as int,
        ));
    }
}

/// The last segment of a URL path, as `path_segments().next_back()` gives it.
fn last_segment(path: &str) -> (r: Option<String>)
    ensures
        match r {
            Some(s) => last_path_segment(path@) == Some(s@),
            None => last_path_segment(path@) is None,
        },
{
    let n = path.unicode_len();
    if n == 0 {
        return None;
    }
    if path.get_char(0) != '/' {
        return None;
    }
    let mut i: usize = n;
    while i > 1 && path.get_char(i - 1) != '/'
        invariant
            n == path@.len(),
            1 <= i <= n,
            path@[0] == '/',
            forall|j: int| i <= j < n ==> path@[j] != '/',
        decreases i,
    {
        i = i - 1;
    }
    proof {
        lemma_after_last_slash(path@, i - 1);
    }
    Some(path.substring_char(i, n).to_string())
}

/// Generate a resource name from a URI: the last path component when the URI
/// is path-like (file:///path/to/doc.txt gives "doc.txt"), otherwise the full
/// URI (custom://resource-id gives "custom://resource-id").
pub fn generate_resource_name(uri: &str) -> (r: String)
    ensures
        r@ == resource_name(uri@),
{
    if let Some(path) = parse_url_path(uri) {
        if let Some(last) = last_segment(path.as_str()) {
            if last.unicode_len() > 0 {
                return last;
            }
        }
    }
    uri.to_string()
}

/// The v2 resource for a v1 resource: the name is generated from the URI and
/// there is no title.
pub open spec fn spec_resource_v1_to_v2_fields(v1: ResourceContentsV1, r: ResourceContentsV2) -> bool {
    &&& r.uri == v1.uri
    &&& r.name@ == resource_name(v1.uri@)
    &&& r.title is None
    &&& r.mime_type == v1.mime_type
    &&& r.text == v1.text
    &&& r.blob == v1.blob
}

/// The v1 resource for a v2 resource: the name and title are dropped.
pub open spec fn spec_resource_v2_to_v1(v2: ResourceContentsV2) -> ResourceContentsV1 {
    ResourceContentsV1 { uri: v2.uri, mime_type: v2.mime_type, text: v2.text, blob: v2.blob }
}

/// Convert ResourceContentsV1 to ResourceContentsV2, generating the required
/// `name` from the URI.
pub fn resource_v1_to_v2(v1: ResourceContentsV1) -> (r: ResourceContentsV2)
    ensures
        spec_resource_v1_to_v2_fields(v1, r),
{
    ResourceContentsV2 {
        name: generate_resource_name(v1.uri.as_str()),
        uri: v1.uri,
        title: None,
        mime_type: v1.mime_type,
        text: v1.text,
        blob: v1.blob,
    }
}

/// Convert ResourceContentsV2 to ResourceContentsV1, stripping `name` and `title`.
pub fn resource_v2_to_v1(v2: ResourceContentsV2) -> (r: ResourceContentsV1)
    ensures
        r == spec_resource_v2_to_v1(v2),
{
    ResourceContentsV1 { uri: v2.uri, mime_type: v2.mime_type, text: v2.text, blob: v2.blob }
}

/// Converting a v1 resource to v2 and back gives the original resource.
pub proof fn lemma_resource_round_trip(v1: ResourceContentsV1, v2: ResourceContentsV2)
    requires
        spec_resource_v1_to_v2_fields(v1, v2),
    ensures
        spec_resource_v2_to_v1(v2) == v1,
{
}

} // verus!
