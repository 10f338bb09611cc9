//! Routing of tools, resources and prompts to the servers that provide them,
//! and the queues of requests that wait for a server to finish initializing.
use vstd::prelude::*;
use dashmap::DashMap;
use std::sync::Arc;
use crate::json::{Json, JsonView};
use crate::text::str_eq;

verus! {

#[verifier::external_type_specification]
#[verifier::external_body]
#[verifier::reject_recursive_types(K)]
#[verifier::reject_recursive_types(V)]
#[verifier::reject_recursive_types(S)]
pub struct ExDashMap<K, V, S>(DashMap<K, V, S>);

#[verifier::external_type_specification]
#[verifier::external_body]
#[verifier::reject_recursive_types(T)]
pub struct ExTokioMutex<T: ?Sized>(tokio::sync::Mutex<T>);

#[verifier::external_type_specification]
#[verifier::external_body]
#[verifier::reject_recursive_types(T)]
pub struct ExOneshotSender<T>(tokio::sync::oneshot::Sender<T>);

/// Where the answer to a queued request is to be sent; carried through
/// untouched.
pub type ResponseSlot = Arc<tokio::sync::Mutex<Option<tokio::sync::oneshot::Sender<Result<Json, String>>>>>;

/// A request waiting for its server to finish initializing.
pub struct QueuedRequest {
    pub request_id: String,
    pub method: String,
    pub params: Option<Json>,
    pub response_tx: ResponseSlot,
}

/// The view of a queued request: what it asks for.
pub struct QueuedRequestView {
    pub request_id: Seq<char>,
    pub method: Seq<char>,
    pub params: Option<JsonView>,
}

impl View for QueuedRequest {
    type V = QueuedRequestView;

    open spec fn view(&self) -> QueuedRequestView {
        QueuedRequestView {
            request_id: self.request_id@,
            method: self.method@,
            params: match self.params {
                Some(p) => Some(p@),
                None => None,
            },
        }
    }
}

/// The entries of a map from names to server names, by their characters.
pub uninterp spec fn name_map_contents(m: DashMap<String, String>) -> Map<Seq<char>, Seq<char>>;

/// The queues of a map from server names to queued requests.
pub uninterp spec fn queue_map_contents(m: DashMap<String, Vec<QueuedRequest>>) -> Map<
    Seq<char>,
    Seq<QueuedRequestView>,
>;

/// The empty name map.
pub open spec fn no_names() -> Map<Seq<char>, Seq<char>> {
    Map::empty()
}

/// The empty queue map.
pub open spec fn no_queues() -> Map<Seq<char>, Seq<QueuedRequestView>> {
    Map::empty()
}

/// Calls `DashMap::new`: the map is empty.
#[verifier::external_body]
fn name_map_new() -> (r: DashMap<String, String>)
    ensures
        name_map_contents(r) == no_names(),
{
    DashMap::new()
}

/// Calls `DashMap::insert`: the key now maps to the value, other keys are
/// unchanged.
#[verifier::external_body]
fn name_map_insert(m: &mut DashMap<String, String>, key: String, value: String)
    ensures
        name_map_contents(*final(m)) == name_map_contents(*old(m)).insert(key@, value@),
{
    m.insert(key, value);
}

/// Calls `DashMap::get` and copies the value found.
#[verifier::external_body]
fn name_map_get(m: &DashMap<String, String>, key: &str) -> (r: Option<String>)
    ensures
        match r {
            Some(v) => name_map_contents(*m).contains_key(key@) && name_map_contents(*m)[key@] == v@,
            None => !name_map_contents(*m).contains_key(key@),
        },
{
    match m.get(key) {
        Some(entry) => Some(entry.value().clone()),
        None => None,
    }
}

/// Calls `DashMap::retain`, keeping the entries whose value is not `value`
/// (the closure calls `differs`).
#[verifier::external_body]
fn name_map_retain_other_values(m: &mut DashMap<String, String>, value: &str)
    ensures
        name_map_contents(*final(m)) == name_map_contents(*old(m)).restrict(
            Set::new(|k: Seq<char>| name_map_contents(*old(m)).contains_key(k) && name_map_contents(*old(m))[k] != value@),
        ),
{
    m.retain(|_, v| differs(v, value))
}

/// Calls `DashMap::clear`: the map is empty.
#[verifier::external_body]
fn name_map_clear(m: &mut DashMap<String, String>)
    ensures
        name_map_contents(*final(m)) == no_names(),
{
    m.clear()
}

/// Calls `DashMap::new`: the map is empty.
#[verifier::external_body]
fn queue_map_new() -> (r: DashMap<String, Vec<QueuedRequest>>)
    ensures
        queue_map_contents(r) == no_queues(),
{
    DashMap::new()
}

/// Calls `DashMap::insert`: the server's queue is now `queue`.
#[verifier::external_body]
fn queue_map_insert(m: &mut DashMap<String, Vec<QueuedRequest>>, key: String, queue: Vec<QueuedRequest>)
    ensures
        queue_map_contents(*final(m)) == queue_map_contents(*old(m)).insert(
            key@,
            queue@.map_values(|q: QueuedRequest| q@),
        ),
{
    m.insert(key, queue);
}

/// Calls `DashMap::remove` and hands out the removed queue.
#[verifier::external_body]
fn queue_map_remove(m: &mut DashMap<String, Vec<QueuedRequest>>, key: &str) -> (r: Option<Vec<QueuedRequest>>)
    ensures
        queue_map_contents(*final(m)) == queue_map_contents(*old(m)).remove(key@),
        match r {
            Some(q) => queue_map_contents(*old(m)).contains_key(key@)
                && queue_map_contents(*old(m))[key@] == q@.map_values(|x: QueuedRequest| x@),
            None => !queue_map_contents(*old(m)).contains_key(key@),
        },
{
    match m.remove(key) {
        Some((_, queue)) => Some(queue),
        None => None,
    }
}

/// Calls `DashMap::get` and gives the length of the queue found.
#[verifier::external_body]
fn queue_map_len(m: &DashMap<String, Vec<QueuedRequest>>, key: &str) -> (r: Option<usize>)
    ensures
        match r {
            Some(n) => queue_map_contents(*m).contains_key(key@) && queue_map_contents(*m)[key@].len() == n,
            None => !queue_map_contents(*m).contains_key(key@),
        },
{
    match m.get(key) {
        Some(entry) => Some(entry.value().len()),
        None => None,
    }
}

/// Whether a routed server name differs from `server`.
pub fn differs(value: &String, server: &str) -> (r: bool)
    ensures
        r == (value@ != server@),
{
    !str_eq(value.as_str(), server)
}

/// The queue of `server` in queue contents `c` (empty when it has none).
pub open spec fn queue_of(c: Map<Seq<char>, Seq<QueuedRequestView>>, server: Seq<char>) -> Seq<QueuedRequestView> {
    if c.contains_key(server) {
        c[server]
    } else {
        Seq::empty()
    }
}

/// `m` without the entries that route to `server`.
pub open spec fn without_server(m: Map<Seq<char>, Seq<char>>, server: Seq<char>) -> Map<Seq<char>, Seq<char>> {
    m.restrict(Set::new(|k: Seq<char>| m.contains_key(k) && m[k] != server))
}

/// Maps tool, resource and prompt names to the servers providing them, and
/// holds the requests queued for servers that are still initializing.
pub struct RequestRouter {
    pub tool_to_server: DashMap<String, String>,
    pub resource_to_server: DashMap<String, String>,
    pub prompt_to_server: DashMap<String, String>,
    pub request_queues: DashMap<String, Vec<QueuedRequest>>,
}

impl RequestRouter {
    pub open spec fn tools(&self) -> Map<Seq<char>, Seq<char>> {
        name_map_contents(self.tool_to_server)
    }

    pub open spec fn resources(&self) -> Map<Seq<char>, Seq<char>> {
        name_map_contents(self.resource_to_server)
    }

    pub open spec fn prompts(&self) -> Map<Seq<char>, Seq<char>> {
        name_map_contents(self.prompt_to_server)
    }

    pub open spec fn queues(&self) -> Map<Seq<char>, Seq<QueuedRequestView>> {
        queue_map_contents(self.request_queues)
    }

    /// A router with no routes and no queued requests.
    pub fn new() -> (r: Self)
        ensures
            r.tools() == no_names(),
            r.resources() == no_names(),
            r.prompts() == no_names(),
            r.queues() == no_queues(),
    {
        Self {
            tool_to_server: name_map_new(),
            resource_to_server: name_map_new(),
            prompt_to_server: name_map_new(),
            request_queues: queue_map_new(),
        }
    }

    /// Routes the tool to the server.
    pub fn register_tool(&mut self, tool_name: String, server_name: String)
        ensures
            final(self).tools() == old(self).tools().insert(tool_name@, server_name@),
            final(self).resources() == old(self).resources(),
            final(self).prompts() == old(self).prompts(),
            final(self).queues() == old(self).queues(),
    {
        name_map_insert(&mut self.tool_to_server, tool_name, server_name);
    }

    /// Routes the resource to the server.
    pub fn register_resource(&mut self, resource_uri: String, server_name: String)
        ensures
            final(self).resources() == old(self).resources().insert(resource_uri@, server_name@),
            final(self).tools() == old(self).tools(),
            final(self).prompts() == old(self).prompts(),
            final(self).queues() == old(self).queues(),
    {
        name_map_insert(&mut self.resource_to_server, resource_uri, server_name);
    }

    /// Routes the prompt to the server.
    pub fn register_prompt(&mut self, prompt_name: String, server_name: String)
        ensures
            final(self).prompts() == old(self).prompts().insert(prompt_name@, server_name@),
            final(self).tools() == old(self).tools(),
            final(self).resources() == old(self).resources(),
            final(self).queues() == old(self).queues(),
    {
        name_map_insert(&mut self.prompt_to_server, prompt_name, server_name);
    }

    /// The server providing the tool, if any.
    pub fn get_server_for_tool(&self, tool_name: &str) -> (r: Option<String>)
        ensures
            match r {
                Some(s) => self.tools().contains_key(tool_name@) && self.tools()[tool_name@] == s@,
                None => !self.tools().contains_key(tool_name@),
            },
    {
        name_map_get(&self.tool_to_server, tool_name)
    }

    /// The server providing the resource, if any.
    pub fn get_server_for_resource(&self, resource_uri: &str) -> (r: Option<String>)
        ensures
            match r {
                Some(s) => self.resources().contains_key(resource_uri@) && self.resources()[resource_uri@] == s@,
                None => !self.resources().contains_key(resource_uri@),
            },
    {
        name_map_get(&self.resource_to_server, resource_uri)
    }

    /// The server providing the prompt, if any.
    pub fn get_server_for_prompt(&self, prompt_name: &str) -> (r: Option<String>)
        ensures
            match r {
                Some(s) => self.prompts().contains_key(prompt_name@) && self.prompts()[prompt_name@] == s@,
                None => !self.prompts().contains_key(prompt_name@),
            },
    {
        name_map_get(&self.prompt_to_server, prompt_name)
    }

    /// Removes every route to the server.
    pub fn unregister_server(&mut self, server_name: &str)
        ensures
            final(self).tools() == without_server(old(self).tools(), server_name@),
            final(self).resources() == without_server(old(self).resources(), server_name@),
            final(self).prompts() == without_server(old(self).prompts(), server_name@),
            final(self).queues() == old(self).queues(),
    {
        name_map_retain_other_values(&mut self.tool_to_server, server_name);
        name_map_retain_other_values(&mut self.resource_to_server, server_name);
        name_map_retain_other_values(&mut self.prompt_to_server, server_name);
    }

    /// Removes every route.
    pub fn clear(&mut self)
        ensures
            final(self).tools() == no_names(),
            final(self).resources() == no_names(),
            final(self).prompts() == no_names(),
            final(self).queues() == old(self).queues(),
    {
        name_map_clear(&mut self.tool_to_server);
        name_map_clear(&mut self.resource_to_server);
        name_map_clear(&mut self.prompt_to_server);
    }

    /// Queues a request for a server that is not ready yet, behind the
    /// requests already queued for it.
    pub fn queue_request(&mut self, server_name: &str, request: QueuedRequest)
        ensures
            final(self).queues() == old(self).queues().insert(
                server_name@,
                queue_of(old(self).queues(), server_name@).push(request@),
            ),
            final(self).tools() == old(self).tools(),
            final(self).resources() == old(self).resources(),
            final(self).prompts() == old(self).prompts(),
    {
        let ghost q0 = queue_of(self.queues(), server_name@);
        let mut queue = match queue_map_remove(&mut self.request_queues, server_name) {
            Some(q) => q,
            None => Vec::new(),
        };
        assert(queue@.map_values(|x: QueuedRequest| x@) =~= q0);
        let ghost rv = request@;
        queue.push(request);
        assert(queue@.map_values(|x: QueuedRequest| x@) =~= q0.push(rv));
        queue_map_insert(&mut self.request_queues, server_name.to_string(), queue);
        assert(self.queues() =~= old(self).queues().insert(server_name@, q0.push(rv)));
    }

    /// Hands out the requests queued for the server, oldest first, and
    /// empties its queue.
    pub fn process_queued_requests(&mut self, server_name: &str) -> (r: Vec<QueuedRequest>)
        ensures
            r@.map_values(|x: QueuedRequest| x@) == queue_of(old(self).queues(), server_name@),
            final(self).queues() == old(self).queues().remove(server_name@),
            final(self).tools() == old(self).tools(),
            final(self).resources() == old(self).resources(),
            final(self).prompts() == old(self).prompts(),
    {
        match queue_map_remove(&mut self.request_queues, server_name) {
            Some(q) => q,
            None => {
                let v: Vec<QueuedRequest> = Vec::new();
                assert(v@.map_values(|x: QueuedRequest| x@) =~= Seq::<QueuedRequestView>::empty());
                v
            },
        }
    }

    /// The number of requests queued for the server.
    pub fn queued_request_count(&self, server_name: &str) -> (r: usize)
        ensures
            r == queue_of(self.queues(), server_name@).len(),
    {
        match queue_map_len(&self.request_queues, server_name) {
            Some(n) => n,
            None => 0,
        }
    }

    /// Drops the requests queued for the server (on failure or timeout) and
    /// hands them out.
    pub fn clear_queued_requests(&mut self, server_name: &str) -> (r: Vec<QueuedRequest>)
        ensures
            r@.map_values(|x: QueuedRequest| x@) == queue_of(old(self).queues(), server_name@),
            final(self).queues() == old(self).queues().remove(server_name@),
            final(self).tools() == old(self).tools(),
            final(self).resources() == old(self).resources(),
            final(self).prompts() == old(self).prompts(),
    {
        self.process_queued_requests(server_name)
    }
}

/// The queue contents after queuing `q` for `server` (see `queue_request`).
pub open spec fn queue_step(
    c: Map<Seq<char>, Seq<QueuedRequestView>>,
    server: Seq<char>,
    q: QueuedRequestView,
) -> Map<Seq<char>, Seq<QueuedRequestView>> {
    c.insert(server, queue_of(c, server).push(q))
}

/// The queue contents after queuing each of `qs` for `server`, in order.
pub open spec fn queue_all(
    c: Map<Seq<char>, Seq<QueuedRequestView>>,
    server: Seq<char>,
    qs: Seq<QueuedRequestView>,
) -> Map<Seq<char>, Seq<QueuedRequestView>>
    decreases qs.len(),
{
    if qs.len() == 0 {
        c
    } else {
        queue_step(queue_all(c, server, qs.drop_last()), server, qs.last())
    }
}

/// Queued requests come out in the order they were queued: after queuing
/// `qs` (any number of requests) for a server, processing its queue hands out
/// what was queued before followed by `qs` in order (exactly `qs` when its
/// queue was empty), and leaves the server with no queue, so that
/// processing again hands out nothing; the queues of other servers are
/// untouched throughout.
pub proof fn lemma_queue_fifo(
    c: Map<Seq<char>, Seq<QueuedRequestView>>,
    server: Seq<char>,
    other: Seq<char>,
    qs: Seq<QueuedRequestView>,
)
    requires
        other != server,
    ensures
        queue_of(queue_all(c, server, qs), server) == queue_of(c, server) + qs,
        queue_of(c, server).len() == 0 ==> queue_of(queue_all(c, server, qs), server) == qs,
        queue_of(queue_all(c, server, qs).remove(server), server) == Seq::<QueuedRequestView>::empty(),
        queue_of(queue_all(c, server, qs), other) == queue_of(c, other),
        queue_of(queue_all(c, server, qs).remove(server), other) == queue_of(c, other),
    decreases qs.len(),
{
    if qs.len() > 0 {
        lemma_queue_fifo(c, server, other, qs.drop_last());
        assert(queue_of(c, server) + qs.drop_last() + seq![qs.last()] =~= queue_of(c, server) + qs);
    } else {
        assert(queue_of(c, server) + qs =~= queue_of(c, server));
    }
    if queue_of(c, server).len() == 0 {
        assert(queue_of(c, server) + qs =~= qs);
    }
}

/// After unregistering a server nothing routes to it, and every route to
/// another server is kept.
pub proof fn lemma_unregister_server(m: Map<Seq<char>, Seq<char>>, server: Seq<char>, name: Seq<char>)
    ensures
        without_server(m, server).contains_key(name) ==> without_server(m, server)[name] != server,
        m.contains_key(name) && m[name] != server ==> without_server(m, server).contains_key(name)
            && without_server(m, server)[name] == m[name],
        !m.contains_key(name) ==> !without_server(m, server).contains_key(name),
{
}

} // verus!
