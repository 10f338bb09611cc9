//! The resources the proxy offers itself under `proxy://`, how a URI of
//! that scheme is read, and the replies that need no server state.
use vstd::prelude::*;
use crate::json::{Json, JsonView, items_view, kv, lemma_entries_view_ext, lemma_items_view_ext};
use crate::proxy::content::{resource_contents, resource_contents_view};
use crate::proxy::error::ProxyError;
use crate::text::{concat, concat3, has_prefix, starts_with, str_eq, suffix_from};

verus! {

/// The scheme prefix of the proxy's own resources.
pub const PROXY_SCHEME: &'static str = "proxy://";

/// A resource definition; its name is its URI without the `proxy://` prefix.
pub open spec fn proxy_resource_view(uri: Seq<char>, description: Seq<char>, mime_type: Seq<char>) -> JsonView {
    JsonView::Object(
        seq![
            ("uri"@, JsonView::Str(uri)),
            ("name"@, JsonView::Str(strip_or_keep(uri, PROXY_SCHEME@))),
            ("description"@, JsonView::Str(description)),
            ("mimeType"@, JsonView::Str(mime_type)),
        ],
    )
}

/// `s` without `prefix` when it begins with it, else `s` itself.
pub open spec fn strip_or_keep(s: Seq<char>, prefix: Seq<char>) -> Seq<char> {
    if has_prefix(s, prefix) {
        s.subrange(prefix.len() as int, s.len() as int)
    } else {
        s
    }
}

fn strip_or_keep_exec(s: &str, prefix: &str) -> (r: String)
    ensures
        r@ == strip_or_keep(s@, prefix@),
{
    if starts_with(s, prefix) {
        suffix_from(s, prefix.unicode_len())
    } else {
        s.to_string()
    }
}

/// A resource definition.
pub fn create_resource(uri: &str, description: &str, mime_type: &str) -> (r: Json)
    ensures
        r@ == proxy_resource_view(uri@, description@, mime_type@),
{
    let entries = vec![
        kv("uri", Json::string(uri)),
        kv("name", Json::Str(strip_or_keep_exec(uri, PROXY_SCHEME))),
        kv("description", Json::string(description)),
        kv("mimeType", Json::string(mime_type)),
    ];
    proof {
        lemma_entries_view_ext(entries@, proxy_resource_view(uri@, description@, mime_type@)->Object_0);
    }
    Json::Object(entries)
}

/// The proxy's own resources, in the order they are listed.
pub open spec fn proxy_resources_view() -> Seq<JsonView> {
    seq![
        proxy_resource_view("proxy://config"@, "Current proxy configuration (sanitized)"@, "application/json"@),
        proxy_resource_view("proxy://metrics"@, "Real-time proxy performance metrics"@, "application/json"@),
        proxy_resource_view("proxy://health"@, "Health status of all backend servers"@, "application/json"@),
        proxy_resource_view("proxy://topology"@, "Server topology and capability mapping"@, "application/json"@),
    ]
}

/// The proxy's own resources.
pub fn get_proxy_resources() -> (r: Vec<Json>)
    ensures
        items_view(r@) == proxy_resources_view(),
{
    let v = vec![
        create_resource("proxy://config", "Current proxy configuration (sanitized)", "application/json"),
        create_resource("proxy://metrics", "Real-time proxy performance metrics", "application/json"),
        create_resource("proxy://health", "Health status of all backend servers", "application/json"),
        create_resource("proxy://topology", "Server topology and capability mapping", "application/json"),
    ];
    proof {
        lemma_items_view_ext(v@, proxy_resources_view());
    }
    v
}

/// What a `proxy://` URI asks for.
#[derive(Debug, PartialEq, Eq)]
pub enum ProxyResource {
    Config,
    Metrics,
    Health,
    Topology,
    /// `proxy://logs/{server}`, with any query after `?` dropped.
    Logs { server_name: String },
    /// `proxy://metrics/{server}`.
    ServerMetrics { server_name: String },
    /// `proxy://server/{server}/config`.
    ServerConfig { server_name: String },
    /// `proxy://server/{server}/capabilities`.
    ServerCapabilities { server_name: String },
}

/// The view of a `ProxyResource`: a tag and the server it names (empty for
/// the four fixed resources).
pub open spec fn proxy_resource_request_view(r: ProxyResource) -> (int, Seq<char>) {
    match r {
        ProxyResource::Config => (0, Seq::empty()),
        ProxyResource::Metrics => (1, Seq::empty()),
        ProxyResource::Health => (2, Seq::empty()),
        ProxyResource::Topology => (3, Seq::empty()),
        ProxyResource::Logs { server_name } => (4, server_name@),
        ProxyResource::ServerMetrics { server_name } => (5, server_name@),
        ProxyResource::ServerConfig { server_name } => (6, server_name@),
        ProxyResource::ServerCapabilities { server_name } => (7, server_name@),
    }
}

/// The characters of `s` before the first `c`, or all of `s`.
pub open spec fn before_char(s: Seq<char>, c: char) -> Seq<char>
    decreases s.len(),
{
    if s.len() == 0 {
        s
    } else if s[0] == c {
        Seq::empty()
    } else {
        seq![s[0]] + before_char(s.drop_first(), c)
    }
}

/// The pieces of `s` between the `c` characters.
pub open spec fn split_char(s: Seq<char>, c: char) -> Seq<Seq<char>>
    decreases s.len(),
{
    if s.len() == 0 {
        seq![Seq::empty()]
    } else {
        let rest = split_char(s.drop_first(), c);
        if s[0] == c {
            seq![Seq::<char>::empty()] + rest
        } else {
            rest.update(0, seq![s[0]] + rest[0])
        }
    }
}

pub proof fn lemma_split_char_nonempty(s: Seq<char>, c: char)
    ensures
        split_char(s, c).len() >= 1,
    decreases s.len(),
{
    if s.len() > 0 {
        lemma_split_char_nonempty(s.drop_first(), c);
    }
}

/// How a `proxy://` URI is read, as a tag and server name or an error text.
pub open spec fn proxy_resource_spec(uri: Seq<char>) -> Result<(int, Seq<char>), Seq<char>> {
    if uri == "proxy://config"@ {
        Ok((0, Seq::empty()))
    } else if uri == "proxy://metrics"@ {
        Ok((1, Seq::empty()))
    } else if uri == "proxy://health"@ {
        Ok((2, Seq::empty()))
    } else if uri == "proxy://topology"@ {
        Ok((3, Seq::empty()))
    } else if has_prefix(uri, "proxy://logs/"@) {
        Ok((4, before_char(uri.subrange(13, uri.len() as int), '?')))
    } else if has_prefix(uri, "proxy://metrics/"@) {
        Ok((5, uri.subrange(16, uri.len() as int)))
    } else if has_prefix(uri, "proxy://server/"@) {
        let parts = split_char(uri.subrange(15, uri.len() as int), '/');
        if parts.len() != 2 {
            Err(
                "Invalid server resource URI. Use proxy://server/{name}/config or proxy://server/{name}/capabilities"@,
            )
        } else if parts[1] == "config"@ {
            Ok((6, parts[0]))
        } else if parts[1] == "capabilities"@ {
            Ok((7, parts[0]))
        } else {
            Err("Unknown server resource type: "@ + parts[1] + ". Use 'config' or 'capabilities'"@)
        }
    } else {
        Err("Unknown proxy resource: "@ + uri)
    }
}

fn before_char_exec(s: &str, c: char) -> (r: String)
    ensures
        r@ == before_char(s@, c),
{
    let n = s.unicode_len();
    let mut i: usize = 0;
    while i < n && s.get_char(i) != c
        invariant
            n == s@.len(),
            i <= n,
            forall|j: int| 0 <= j < i ==> s@[j] != c,
        decreases n - i,
    {
        i = i + 1;
    }
    proof {
        lemma_before_char(s@, c, i as int);
    }
    s.substring_char(0, i).to_string()
}

proof fn lemma_before_char(s: Seq<char>, c: char, i: int)
    requires
        0 <= i <= s.len(),
        forall|j: int| 0 <= j < i ==> s[j] != c,
        i < s.len() ==> s[i] == c,
    ensures
        before_char(s, c) == s.subrange(0, i),
    decreases s.len(),
{
    if s.len() > 0 && i > 0 {
        lemma_before_char(s.drop_first(), c, i - 1);
        assert(s.subrange(0, i) =~= seq![s[0]] + s.drop_first().subrange(0, i - 1));
    } else if s.len() > 0 {
        assert(s.subrange(0, i) =~= Seq::<char>::empty());
    } else {
        assert(s.subrange(0, i) =~= s);
    }
}

/// Splits `s` at every `c`.
fn split_char_exec(s: &str, c: char) -> (r: Vec<String>)
    ensures
        r@.len() == split_char(s@, c).len(),
        forall|k: int| 0 <= k < r@.len() ==> #[trigger] r@[k]@ == split_char(s@, c)[k],
{
    let n = s.unicode_len();
    let mut parts: Vec<String> = Vec::new();
    let mut current = String::new();
    let mut i: usize = n;
    proof {
        assert(s@.subrange(n as int, n as int) =~= Seq::<char>::empty());
    }
    // Walk from the end so that each step matches the definition.
    while i > 0
        invariant
            n == s@.len(),
            i <= n,
            parts@.len() + 1 == split_char(s@.subrange(i as int, n as int), c).len(),
            current@ == split_char(s@.subrange(i as int, n as int), c)[0],
            forall|k: int|
                0 <= k < parts@.len() ==> #[trigger] parts@[k]@ == split_char(
                    s@.subrange(i as int, n as int),
                    c,
                )[parts@.len() - k],
        decreases i,
    {
        let ghost old_tail = s@.subrange(i as int, n as int);
        let ghost old_parts = parts@;
        i = i - 1;
        let ch = s.get_char(i);
        let ghost tail = s@.subrange(i as int, n as int);
        proof {
            assert(tail.drop_first() =~= old_tail);
            assert(tail[0] == ch);
            lemma_split_char_nonempty(old_tail, c);
        }
        if ch == c {
            let done = current;
            current = String::new();
            parts.push(done);
            proof {
                assert forall|k: int| 0 <= k < parts@.len() implies #[trigger] parts@[k]@ == split_char(
                    tail,
                    c,
                )[parts@.len() - k] by {
                    if k < old_parts.len() {
                        assert(parts@[k] == old_parts[k]);
                    }
                }
            }
        } else {
            let mut next = String::new();
            crate::text::push_char(&mut next, ch);
            next.append(current.as_str());
            current = next;
            proof {
                assert(current@ =~= seq![ch] + split_char(old_tail, c)[0]);
            }
        }
    }
    proof {
        assert(s@.subrange(0, n as int) =~= s@);
    }
    let mut r: Vec<String> = Vec::new();
    r.push(current);
    let m = parts.len();
    let mut k: usize = m;
    while k > 0
        invariant
            k <= m,
            m == parts@.len(),
            m + 1 == split_char(s@, c).len(),
            r@.len() == m - k + 1,
            forall|j: int| 0 <= j < parts@.len() ==> #[trigger] parts@[j]@ == split_char(s@, c)[m - j],
            forall|j: int| 0 <= j < r@.len() ==> #[trigger] r@[j]@ == split_char(s@, c)[j],
        decreases k,
    {
        k = k - 1;
        let piece = parts[k].clone();
        r.push(piece);
    }
    r
}

/// Reads a `proxy://` URI.
pub fn classify_proxy_resource(uri: &str) -> (r: Result<ProxyResource, ProxyError>)
    ensures
        match r {
            Ok(p) => proxy_resource_spec(uri@) == Ok::<_, Seq<char>>(proxy_resource_request_view(p)),
            Err(e) => e is InvalidRequest && proxy_resource_spec(uri@) == Err::<(int, Seq<char>), _>(
                e->InvalidRequest_0@,
            ),
        },
{
    if str_eq(uri, "proxy://config") {
        return Ok(ProxyResource::Config);
    }
    if str_eq(uri, "proxy://metrics") {
        return Ok(ProxyResource::Metrics);
    }
    if str_eq(uri, "proxy://health") {
        return Ok(ProxyResource::Health);
    }
    if str_eq(uri, "proxy://topology") {
        return Ok(ProxyResource::Topology);
    }
    proof {
        reveal_strlit("proxy://logs/");
        reveal_strlit("proxy://metrics/");
        reveal_strlit("proxy://server/");
    }
    if starts_with(uri, "proxy://logs/") {
        let rest = suffix_from(uri, 13);
        return Ok(ProxyResource::Logs { server_name: before_char_exec(rest.as_str(), '?') });
    }
    if starts_with(uri, "proxy://metrics/") {
        return Ok(ProxyResource::ServerMetrics { server_name: suffix_from(uri, 16) });
    }
    if starts_with(uri, "proxy://server/") {
        let rest = suffix_from(uri, 15);
        let parts = split_char_exec(rest.as_str(), '/');
        if parts.len() != 2 {
            return Err(
                ProxyError::InvalidRequest(
                    "Invalid server resource URI. Use proxy://server/{name}/config or proxy://server/{name}/capabilities".to_string(),
                ),
            );
        }
        let name = parts[0].clone();
        if str_eq(parts[1].as_str(), "config") {
            return Ok(ProxyResource::ServerConfig { server_name: name });
        }
        if str_eq(parts[1].as_str(), "capabilities") {
            return Ok(ProxyResource::ServerCapabilities { server_name: name });
        }
        return Err(
            ProxyError::InvalidRequest(
                concat3("Unknown server resource type: ", parts[1].as_str(), ". Use 'config' or 'capabilities'"),
            ),
        );
    }
    Err(ProxyError::InvalidRequest(concat("Unknown proxy resource: ", uri)))
}

/// The reply to a `proxy://logs/{server}` read.
pub fn logs_reply(uri: &str, server_name: &str) -> (r: Json)
    ensures
        r@ == resource_contents_view(
            uri@,
            "text/plain"@,
            "Logs for server '"@ + server_name@
                + "' - Feature coming soon!\nUse the Web UI at http://localhost:3001 to view logs."@,
        ),
{
    let text = concat3(
        "Logs for server '",
        server_name,
        "' - Feature coming soon!\nUse the Web UI at http://localhost:3001 to view logs.",
    );
    resource_contents(uri.to_string(), "text/plain", text)
}

/// The URI under which a server's configuration or capabilities are read.
pub fn server_resource_uri(server_name: &str, kind: &str) -> (r: String)
    ensures
        r@ == "proxy://server/"@ + server_name@ + "/"@ + kind@,
{
    let head = concat3("proxy://server/", server_name, "/");
    concat(head.as_str(), kind)
}

/// Counts of servers by state, as the health resource reports them:
/// running, failed, stopped, and all.
pub open spec fn health_counts(states: Seq<crate::state::ServerState>) -> (nat, nat, nat, nat)
    decreases states.len(),
{
    if states.len() == 0 {
        (0, 0, 0, 0)
    } else {
        let (h, f, s, t) = health_counts(states.drop_last());
        match states.last() {
            crate::state::ServerState::Running => (h + 1, f, s, t + 1),
            crate::state::ServerState::Failed => (h, f + 1, s, t + 1),
            crate::state::ServerState::Stopped => (h, f, s + 1, t + 1),
            _ => (h, f, s, t + 1),
        }
    }
}

/// Counts the servers that are running, failed and stopped, and all of them.
pub fn health_summary(states: &Vec<crate::state::ServerState>) -> (r: (usize, usize, usize, usize))
    ensures
        (r.0 as nat, r.1 as nat, r.2 as nat, r.3 as nat) == health_counts(states@),
{
    let n = states.len();
    let mut h: usize = 0;
    let mut f: usize = 0;
    let mut s: usize = 0;
    let mut i: usize = 0;
    while i < n
        invariant
            n == states@.len(),
            i <= n,
            (h as nat, f as nat, s as nat, i as nat) == health_counts(states@.subrange(0, i as int)),
            h + f + s <= i,
        decreases n - i,
    {
        proof {
            assert(states@.subrange(0, i + 1).drop_last() =~= states@.subrange(0, i as int));
        }
        match states[i] {
            crate::state::ServerState::Running => h = h + 1,
            crate::state::ServerState::Failed => f = f + 1,
            crate::state::ServerState::Stopped => s = s + 1,
            _ => {},
        }
        i = i + 1;
    }
    proof {
        assert(states@.subrange(0, n as int) =~= states@);
    }
    (h, f, s, n)
}

/// What reading one of the proxy's resources comes to.
#[derive(Debug, PartialEq, Eq)]
pub enum ProxyResourceReply {
    /// The reply is ready.
    Done(Json),
    /// The read needs the proxy's state, which the caller consults.
    NeedsState(ProxyResource),
}

/// Handles a read of the proxy resource `uri`.
pub fn handle_proxy_resource(uri: &str) -> (r: Result<ProxyResourceReply, ProxyError>)
    ensures
        match proxy_resource_spec(uri@) {
            Err(e) => r matches Err(ProxyError::InvalidRequest(m)) && m@ == e,
            Ok((tag, name)) => if tag == 4 {
                r matches Ok(ProxyResourceReply::Done(j)) && j@ == resource_contents_view(
                    uri@,
                    "text/plain"@,
                    "Logs for server '"@ + name
                        + "' - Feature coming soon!\nUse the Web UI at http://localhost:3001 to view logs."@,
                )
            } else {
                r matches Ok(ProxyResourceReply::NeedsState(p)) && proxy_resource_request_view(p) == (tag, name)
            },
        },
{
    match classify_proxy_resource(uri) {
        Ok(ProxyResource::Logs { server_name }) => Ok(ProxyResourceReply::Done(logs_reply(uri, server_name.as_str()))),
        Ok(other) => Ok(ProxyResourceReply::NeedsState(other)),
        Err(e) => Err(e),
    }
}

} // verus!
