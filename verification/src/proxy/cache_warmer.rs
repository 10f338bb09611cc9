//! The decisions of the cache warmer, which keeps the listings fresh in the
//! background.
use vstd::prelude::*;
use crate::json::{Json, JsonView, kv, lemma_entries_view_ext};
use crate::state::ServerState;

verus! {

/// The request the warmer sends for `method`.
pub open spec fn warm_request_view(method: Seq<char>) -> JsonView {
    JsonView::Object(
        seq![
            ("jsonrpc"@, JsonView::Str("2.0"@)),
            ("id"@, JsonView::Str("cache_warmer"@)),
            ("method"@, JsonView::Str(method)),
        ],
    )
}

/// The request the warmer sends for `method`.
pub fn warm_request(method: &str) -> (r: Json)
    ensures
        r@ == warm_request_view(method@),
{
    let e = vec![
        kv("jsonrpc", Json::string("2.0")),
        kv("id", Json::string("cache_warmer")),
        kv("method", Json::string(method)),
    ];
    proof {
        lemma_entries_view_ext(e@, warm_request_view(method@)->Object_0);
    }
    Json::Object(e)
}

/// The number of running servers among `states`.
pub open spec fn running_count(states: Seq<ServerState>) -> nat
    decreases states.len(),
{
    if states.len() == 0 {
        0
    } else {
        running_count(states.drop_last()) + if states.last() == ServerState::Running { 1nat } else { 0nat }
    }
}

/// The number of running servers; the warmer skips a round when it is 0.
pub fn count_running(states: &Vec<ServerState>) -> (r: usize)
    ensures
        r == running_count(states@),
{
    let n = states.len();
    let mut c: usize = 0;
    let mut i: usize = 0;
    while i < n
        invariant
            n == states@.len(),
            i <= n,
            c == running_count(states@.subrange(0, i as int)),
            c <= i,
        decreases n - i,
    {
        proof {
            assert(states@.subrange(0, i + 1).drop_last() =~= states@.subrange(0, i as int));
        }
        if states[i] == ServerState::Running {
            c = c + 1;
        }
        i = i + 1;
    }
    proof {
        assert(states@.subrange(0, n as int) =~= states@);
    }
    c
}

/// The warmer's refresh interval, in nanoseconds, for an interval given in
/// seconds (saturating at the largest time).
pub fn refresh_interval_nanos(seconds: u64) -> (r: u64)
    ensures
        r == if seconds * 1_000_000_000 > u64::MAX { u64::MAX as int } else { seconds * 1_000_000_000 },
{
    match seconds.checked_mul(1_000_000_000) {
        Some(n) => n,
        None => u64::MAX,
    }
}

} // verus!
