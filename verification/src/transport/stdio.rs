//! The stdio transport: a child process whose standard input and output
//! carry newline-delimited JSON.
use vstd::prelude::*;
use crate::transport::{TransportError, TransportType};

verus! {

/// The largest number of bytes a message may grow to while no newline has
/// been seen (one mebibyte).
pub const MAX_PENDING_BYTES: usize = 1048576;

/// The settings of a stdio transport: the command, its arguments, its
/// environment and its working directory.
pub struct StdioTransport {
    pub command: String,
    pub args: Vec<String>,
    pub env: std::collections::HashMap<String, String>,
    pub working_dir: Option<String>,
}

impl StdioTransport {
    /// A transport with no command yet.
    pub fn new() -> (r: Self)
        ensures
            r.command@ == Seq::<char>::empty(),
            r.args@.len() == 0,
            r.env@.len() == 0,
            r.working_dir is None,
    {
        StdioTransport {
            command: String::new(),
            args: Vec::new(),
            env: std::collections::HashMap::new(),
            working_dir: None,
        }
    }

    /// The same transport running `command` with `args`.
    pub fn with_command(self, command: String, args: Vec<String>) -> (r: Self)
        ensures
            r.command == command,
            r.args == args,
            r.env == self.env,
            r.working_dir == self.working_dir,
    {
        StdioTransport { command, args, env: self.env, working_dir: self.working_dir }
    }

    /// The same transport with this environment.
    pub fn with_env(self, env: std::collections::HashMap<String, String>) -> (r: Self)
        ensures
            r.command == self.command,
            r.args == self.args,
            r.env == env,
            r.working_dir == self.working_dir,
    {
        StdioTransport { command: self.command, args: self.args, env, working_dir: self.working_dir }
    }

    /// The same transport run in `dir`.
    pub fn with_working_dir(self, dir: String) -> (r: Self)
        ensures
            r.command == self.command,
            r.args == self.args,
            r.env == self.env,
            r.working_dir == Some(dir),
    {
        StdioTransport { command: self.command, args: self.args, env: self.env, working_dir: Some(dir) }
    }

    /// The kind of this transport.
    pub fn transport_type(&self) -> (r: TransportType)
        ensures
            r == TransportType::Stdio,
    {
        TransportType::Stdio
    }
}

/// The position of the first newline in `s`, or -1.
pub open spec fn first_newline(s: Seq<u8>) -> int
    decreases s.len(),
{
    if s.len() == 0 {
        -1
    } else {
        let k = first_newline(s.drop_last());
        if k >= 0 {
            k
        } else if s.last() == 10u8 {
            s.len() - 1
        } else {
            -1
        }
    }
}

proof fn lemma_first_newline(s: Seq<u8>)
    ensures
        -1 <= first_newline(s) < s.len(),
        first_newline(s) >= 0 ==> s[first_newline(s)] == 10u8,
        forall|j: int| 0 <= j < s.len() && (first_newline(s) == -1 || j < first_newline(s)) ==> #[trigger] s[j] != 10u8,
    decreases s.len(),
{
    if s.len() > 0 {
        let d = s.drop_last();
        lemma_first_newline(d);
        assert forall|j: int| 0 <= j < s.len() && (first_newline(s) == -1 || j < first_newline(s)) implies #[trigger] s[j]
            != 10u8 by {
            if j < s.len() - 1 {
                assert(d[j] == s[j]);
            }
        }
    }
}

/// What one read from the server's output comes to.
#[derive(Debug, PartialEq, Eq)]
pub enum ReadStep {
    /// A whole message, up to and including its newline.
    Message(Vec<u8>),
    /// No newline yet: read more.
    NeedMore,
    /// The output ended: the connection is closed.
    Closed,
    /// Too much was read without a newline.
    TooLarge,
}

/// The bytes read for one message so far.
pub struct LineReader {
    buffer: Vec<u8>,
}

/// What a read of `chunk` gives after `pending` bytes without a newline.
pub open spec fn read_step_spec(pending: Seq<u8>, chunk: Seq<u8>) -> (int, Seq<u8>) {
    let all = pending + chunk;
    if chunk.len() == 0 {
        (2, Seq::empty())
    } else if first_newline(all) >= 0 {
        (0, all.subrange(0, first_newline(all) + 1))
    } else if all.len() > MAX_PENDING_BYTES {
        (3, Seq::empty())
    } else {
        (1, Seq::empty())
    }
}

/// The view of a read step, as in `read_step_spec`.
pub open spec fn read_step_view(r: ReadStep) -> (int, Seq<u8>) {
    match r {
        ReadStep::Message(m) => (0, m@),
        ReadStep::NeedMore => (1, Seq::empty()),
        ReadStep::Closed => (2, Seq::empty()),
        ReadStep::TooLarge => (3, Seq::empty()),
    }
}

impl LineReader {
    /// The bytes read so far, with no newline among them.
    pub closed spec fn spec_pending(&self) -> Seq<u8> {
        self.buffer@
    }

    /// A reader with nothing read yet.
    pub fn new() -> (r: Self)
        ensures
            r.spec_pending() == Seq::<u8>::empty(),
    {
        LineReader { buffer: Vec::new() }
    }

    /// Takes the bytes of one read. An empty read means the output ended.
    /// When the bytes so far hold a newline, the message up to it is given
    /// (what follows it is dropped, and the reader starts afresh); else the
    /// bytes are kept, and reported as too many when there are more than
    /// `MAX_PENDING_BYTES` of them.
    pub fn feed(&mut self, chunk: &[u8]) -> (r: ReadStep)
        ensures
            read_step_view(r) == read_step_spec(old(self).spec_pending(), chunk@),
            r is NeedMore ==> final(self).spec_pending() == old(self).spec_pending() + chunk@,
            r is TooLarge ==> final(self).spec_pending() == old(self).spec_pending() + chunk@,
            r is Message ==> final(self).spec_pending() == Seq::<u8>::empty(),
            r is Closed ==> final(self).spec_pending() == old(self).spec_pending(),
    {
        if chunk.len() == 0 {
            return ReadStep::Closed;
        }
        let ghost before = self.buffer@;
        let mut i: usize = 0;
        let n = chunk.len();
        while i < n
            invariant
                n == chunk@.len(),
                i <= n,
                self.buffer@ == before + chunk@.subrange(0, i as int),
            decreases n - i,
        {
            self.buffer.push(chunk[i]);
            proof {
                assert(chunk@.subrange(0, i + 1) =~= chunk@.subrange(0, i as int).push(chunk@[i as int]));
            }
            i = i + 1;
        }
        proof {
            assert(chunk@.subrange(0, n as int) =~= chunk@);
            lemma_first_newline(self.buffer@);
        }
        let len = self.buffer.len();
        let mut k: usize = 0;
        while k < len && self.buffer[k] != 10u8
            invariant
                len == self.buffer@.len(),
                k <= len,
                forall|j: int| 0 <= j < k ==> self.buffer@[j] != 10u8,
            decreases len - k,
        {
            k = k + 1;
        }
        if k < len {
            proof {
                let f = first_newline(self.buffer@);
                assert(f == k as int) by {
                    if f == -1 || (k as int) < f {
                        assert(self.buffer@[k as int] != 10u8);
                    }
                }
            }
            let mut message: Vec<u8> = Vec::new();
            let mut j: usize = 0;
            while j <= k
                invariant
                    k < len,
                    len == self.buffer@.len(),
                    j <= k + 1,
                    message@ == self.buffer@.subrange(0, j as int),
                decreases k + 1 - j,
            {
                message.push(self.buffer[j]);
                proof {
                    assert(self.buffer@.subrange(0, j + 1) =~= self.buffer@.subrange(0, j as int).push(
                        self.buffer@[j as int],
                    ));
                }
                j = j + 1;
            }
            self.buffer = Vec::new();
            return ReadStep::Message(message);
        }
        proof {
            assert(first_newline(self.buffer@) == -1);
        }
        if len > MAX_PENDING_BYTES {
            return ReadStep::TooLarge;
        }
        ReadStep::NeedMore
    }
}

/// The error for a read step that ends the read without a message.
pub fn read_error(step: &ReadStep) -> (r: Option<TransportError>)
    ensures
        step is Closed ==> r == Some(TransportError::Closed),
        step is TooLarge ==> r == Some(TransportError::InvalidFormat),
        (step is Message || step is NeedMore) ==> r is None,
{
    match step {
        ReadStep::Closed => Some(TransportError::Closed),
        ReadStep::TooLarge => Some(TransportError::InvalidFormat),
        _ => None,
    }
}

/// Whether a character has the Unicode White_Space property, which is what
/// `str::trim_start` skips.
pub open spec fn is_space(c: char) -> bool {
    ('\u{9}' <= c && c <= '\u{D}') || c == ' ' || c == '\u{85}' || c == '\u{A0}' || c == '\u{1680}' || (
    '\u{2000}' <= c && c <= '\u{200A}') || c == '\u{2028}' || c == '\u{2029}' || c == '\u{202F}' || c
        == '\u{205F}' || c == '\u{3000}'
}

fn is_space_exec(c: char) -> (r: bool)
    ensures
        r == is_space(c),
{
    ('\u{9}' <= c && c <= '\u{D}') || c == ' ' || c == '\u{85}' || c == '\u{A0}' || c == '\u{1680}' || (
    '\u{2000}' <= c && c <= '\u{200A}') || c == '\u{2028}' || c == '\u{2029}' || c == '\u{202F}' || c
        == '\u{205F}' || c == '\u{3000}'
}

/// The position of the first character of `s` that is not white space.
pub open spec fn first_non_space(s: Seq<char>) -> int
    decreases s.len(),
{
    if s.len() == 0 {
        0
    } else if is_space(s[0]) {
        1 + first_non_space(s.drop_first())
    } else {
        0
    }
}

/// Whether a line from the server's output is not a JSON object: after
/// leading white space it does not begin with `{`. Such lines are passed on
/// as log lines.
pub open spec fn is_log_line(line: Seq<char>) -> bool {
    let k = first_non_space(line);
    !(k < line.len() && line[k] == '{')
}

proof fn lemma_first_non_space(s: Seq<char>)
    ensures
        0 <= first_non_space(s) <= s.len(),
        forall|j: int| 0 <= j < first_non_space(s) ==> is_space(#[trigger] s[j]),
        first_non_space(s) < s.len() ==> !is_space(s[first_non_space(s)]),
    decreases s.len(),
{
    if s.len() > 0 && is_space(s[0]) {
        let t = s.drop_first();
        lemma_first_non_space(t);
        assert forall|j: int| 0 <= j < first_non_space(s) implies is_space(#[trigger] s[j]) by {
            if j > 0 {
                assert(s[j] == t[j - 1]);
            }
        }
    }
}

proof fn lemma_first_non_space_at(s: Seq<char>, k: int)
    requires
        0 <= k <= s.len(),
        forall|j: int| 0 <= j < k ==> is_space(#[trigger] s[j]),
        k < s.len() ==> !is_space(s[k]),
    ensures
        first_non_space(s) == k,
    decreases s.len(),
{
    if s.len() > 0 && k > 0 {
        let t = s.drop_first();
        assert forall|j: int| 0 <= j < k - 1 implies is_space(#[trigger] t[j]) by {
            assert(t[j] == s[j + 1]);
        }
        lemma_first_non_space_at(t, k - 1);
    }
}

/// Whether a line from the server's output is passed on as a log line.
pub fn is_log_line_exec(line: &str) -> (r: bool)
    ensures
        r == is_log_line(line@),
{
    let n = line.unicode_len();
    let mut k: usize = 0;
    while k < n
        invariant
            n == line@.len(),
            k <= n,
            forall|j: int| 0 <= j < k ==> is_space(#[trigger] line@[j]),
        decreases n - k,
    {
        let c = line.get_char(k);
        if !is_space_exec(c) {
            proof {
                lemma_first_non_space_at(line@, k as int);
            }
            return c != '{';
        }
        k = k + 1;
    }
    proof {
        lemma_first_non_space_at(line@, k as int);
    }
    true
}

} // verus!
