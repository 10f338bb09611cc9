//! How the proxy names what its backend servers offer: a tool or prompt of
//! server `s` is listed as `mcp__proxy__{s}__{name}`, with `-` in the
//! server's name written `_`, and a call of such a name is routed back.
use vstd::prelude::*;
use crate::text::{concat, concat3, has_prefix, replace_char, replace_char_exec, starts_with, suffix_from};

verus! {

/// The prefix of every name the proxy gives.
pub const PROXY_PREFIX: &'static str = "mcp__proxy__";

/// The name under which the tool or prompt `name` of `server` is listed.
pub open spec fn prefixed_name(server: Seq<char>, name: Seq<char>) -> Seq<char> {
    PROXY_PREFIX@ + replace_char(server, '-', '_') + "__"@ + name
}

/// The URI under which the resource `uri` of `server` is listed.
pub open spec fn prefixed_uri(server: Seq<char>, uri: Seq<char>) -> Seq<char> {
    PROXY_PREFIX@ + replace_char(server, '-', '_') + "://"@ + uri
}

/// The name under which the tool or prompt `name` of `server` is listed.
pub fn prefix_name(server: &str, name: &str) -> (r: String)
    ensures
        r@ == prefixed_name(server@, name@),
{
    let s = replace_char_exec(server, '-', '_');
    let head = concat(PROXY_PREFIX, s.as_str());
    concat3(head.as_str(), "__", name)
}

/// The URI under which the resource `uri` of `server` is listed.
pub fn prefix_uri(server: &str, uri: &str) -> (r: String)
    ensures
        r@ == prefixed_uri(server@, uri@),
{
    let s = replace_char_exec(server, '-', '_');
    let head = concat(PROXY_PREFIX, s.as_str());
    concat3(head.as_str(), "://", uri)
}

/// Whether `s` has `__` at position `k`.
pub open spec fn separator_at(s: Seq<char>, k: int) -> bool {
    0 <= k && k + 1 < s.len() && s[k] == '_' && s[k + 1] == '_'
}

/// The position of the first `__` in `s`, or -1.
pub open spec fn first_separator(s: Seq<char>) -> int
    decreases s.len(),
{
    if s.len() < 2 {
        -1
    } else if s[0] == '_' && s[1] == '_' {
        0
    } else {
        let k = first_separator(s.drop_first());
        if k < 0 {
            -1
        } else {
            k + 1
        }
    }
}

pub proof fn lemma_first_separator(s: Seq<char>)
    ensures
        -1 <= first_separator(s) < s.len(),
        first_separator(s) >= 0 ==> separator_at(s, first_separator(s)),
        forall|j: int|
            0 <= j && (first_separator(s) == -1 || j < first_separator(s)) ==> !#[trigger] separator_at(s, j),
    decreases s.len(),
{
    if s.len() >= 2 && !(s[0] == '_' && s[1] == '_') {
        let t = s.drop_first();
        lemma_first_separator(t);
        assert forall|j: int| 0 <= j && (first_separator(s) == -1 || j < first_separator(s)) implies !#[trigger] separator_at(
            s,
            j,
        ) by {
            if j >= 1 {
                assert(separator_at(s, j) == separator_at(t, j - 1));
            }
        }
    }
}

/// A position holding `__`, with none before it, is the first separator.
pub proof fn lemma_first_separator_at(s: Seq<char>, k: int)
    requires
        separator_at(s, k),
        forall|j: int| 0 <= j < k ==> !#[trigger] separator_at(s, j),
    ensures
        first_separator(s) == k,
{
    lemma_first_separator(s);
}

/// How the proxy reads a name it may have given: the server (with `_`
/// read back as `-`) and the tool, when the name has the proxy's prefix and
/// a `__` after it.
pub open spec fn parse_prefixed_spec(name: Seq<char>) -> Option<(Seq<char>, Seq<char>)> {
    if has_prefix(name, PROXY_PREFIX@) {
        let rest = name.subrange(PROXY_PREFIX@.len() as int, name.len() as int);
        let k = first_separator(rest);
        if k >= 0 {
            Some((replace_char(rest.subrange(0, k), '_', '-'), rest.subrange(k + 2, rest.len() as int)))
        } else {
            None
        }
    } else {
        None
    }
}

fn first_separator_exec(s: &str) -> (r: Option<usize>)
    ensures
        match r {
            Some(k) => first_separator(s@) == k && k + 1 < s@.len(),
            None => first_separator(s@) == -1,
        },
{
    let n = s.unicode_len();
    let mut i: usize = 0;
    proof {
        lemma_first_separator(s@);
    }
    while n > 0 && i < n - 1
        invariant
            n == s@.len(),
            i <= n,
            forall|j: int| 0 <= j < i ==> !#[trigger] separator_at(s@, j),
        decreases n - i,
    {
        if s.get_char(i) == '_' && s.get_char(i + 1) == '_' {
            proof {
                lemma_first_separator_at(s@, i as int);
            }
            return Some(i);
        }
        i = i + 1;
    }
    proof {
        lemma_first_separator(s@);
        let f = first_separator(s@);
        if f >= 0 {
            assert(separator_at(s@, f));
            assert(f < i);
        }
    }
    None
}

/// Reads a name the proxy may have given into its server and tool.
pub fn parse_prefixed_name(name: &str) -> (r: Option<(String, String)>)
    ensures
        match r {
            Some((s, t)) => parse_prefixed_spec(name@) == Some((s@, t@)),
            None => parse_prefixed_spec(name@) is None,
        },
{
    if !starts_with(name, PROXY_PREFIX) {
        return None;
    }
    let rest = suffix_from(name, PROXY_PREFIX.unicode_len());
    let n = rest.unicode_len();
    match first_separator_exec(rest.as_str()) {
        Some(k) => {
            assert(k + 2 <= n);
            let server_part = rest.as_str().substring_char(0, k);
            let server = replace_char_exec(server_part, '_', '-');
            let tool = suffix_from(rest.as_str(), k + 2);
            Some((server, tool))
        },
        None => None,
    }
}

/// A server name the proxy can route back to: no `_`, no `--`, and not
/// ending in `-`.
pub open spec fn routable_server_name(server: Seq<char>) -> bool {
    &&& forall|i: int| 0 <= i < server.len() ==> server[i] != '_'
    &&& forall|i: int| 0 <= i < server.len() - 1 ==> !(#[trigger] server[i] == '-' && server[i + 1] == '-')
    &&& server.len() > 0 ==> server.last() != '-'
}

/// A tool or prompt listed under its prefixed name is routed back to the
/// server and name it came from, whenever the server's name can be read
/// back (see `routable_server_name`).
pub proof fn lemma_prefixed_name_round_trip(server: Seq<char>, name: Seq<char>)
    requires
        routable_server_name(server),
    ensures
        parse_prefixed_spec(prefixed_name(server, name)) == Some((server, name)),
{
    reveal_strlit("mcp__proxy__");
    reveal_strlit("__");
    let sp = replace_char(server, '-', '_');
    let full = prefixed_name(server, name);
    let p = PROXY_PREFIX@;
    assert(p.len() == 12);
    assert(full.subrange(0, 12) =~= p);
    let rest = full.subrange(12, full.len() as int);
    assert(rest =~= sp + "__"@ + name);
    let k = sp.len() as int;
    assert(separator_at(rest, k));
    assert forall|j: int| 0 <= j < k implies !#[trigger] separator_at(rest, j) by {
        if j + 1 < k {
            assert(rest[j] == sp[j] && rest[j + 1] == sp[j + 1]);
        } else {
            assert(rest[j] == sp[j]);
            assert(server.last() == server[j]);
        }
    }
    lemma_first_separator_at(rest, k);
    assert(rest.subrange(0, k) =~= sp);
    assert(replace_char(sp, '_', '-') =~= server);
    assert(rest.subrange(k + 2, rest.len() as int) =~= name);
}

/// Prefixing keeps names apart: two tools or prompts listed under the same
/// prefixed name come from the same server and have the same name, for
/// server names that can be read back.
pub proof fn lemma_prefixed_names_distinct(s1: Seq<char>, n1: Seq<char>, s2: Seq<char>, n2: Seq<char>)
    requires
        routable_server_name(s1),
        routable_server_name(s2),
        prefixed_name(s1, n1) == prefixed_name(s2, n2),
    ensures
        s1 == s2,
        n1 == n2,
{
    lemma_prefixed_name_round_trip(s1, n1);
    lemma_prefixed_name_round_trip(s2, n2);
}

} // verus!
