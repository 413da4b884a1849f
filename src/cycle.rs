//! One fetch cycle: request, headers, body, parse, integrity check and pool update,
//! bounded by one deadline. The cycle is a state machine: the caller performs each
//! action that it returns and hands back what came of it as the next event.
use vstd::prelude::*;
use crate::content::{
    body_text, check_content_type, content_length_hint, content_type_verdict, opt_bytes,
    utf8_text, ContentTypeCheck,
};
use crate::pool::{
    lemma_replace_idempotent, lemma_replace_scoped, others, owned_by, replaced, tagged, PoolEntry,
    ServerPool, ServerSource,
};

verus! {

#[verifier::external_type_specification]
#[verifier::external_body]
#[verifier::reject_recursive_types(T)]
pub struct ExRequest<T>(http::Request<T>);

#[verifier::external_type_specification]
#[verifier::external_body]
pub struct ExHttpError(http::Error);

/// Whether http's request builder accepts `url` as the URI of a request.
pub uninterp spec fn uri_accepted(url: Seq<char>) -> bool;

/// A character that a header value may hold as it is: visible ASCII or a space.
pub open spec fn is_printable(c: char) -> bool {
    ' ' <= c && c <= '~'
}

/// Relies on http's `Request::builder` with `header`, `method`, `uri` and `body`: with a
/// valid header name, a printable header value and the `GET` method, building fails
/// exactly when `url` is not a URI.
#[verifier::external_body]
fn build_get(url: &str, user_agent: &str) -> (r: Result<http::Request<String>, http::Error>)
    requires
        forall|i: int| 0 <= i < user_agent@.len() ==> is_printable(#[trigger] user_agent@[i]),
    ensures
        r is Ok <==> uri_accepted(url@),
{
    http::Request::builder().header("User-Agent", user_agent).method("GET").uri(url).body(
        String::new(),
    )
}

/// The `User-Agent` that every request carries.
pub const USER_AGENT: &'static str = "online_config/0.1.0";

/// The longest body that a `Content-Length` header makes the cycle reserve room for in
/// advance; a longer one is still read, its buffer grows as it comes.
pub const MAX_PRESIZE: usize = 1048576;

/// Why a cycle failed.
#[derive(Clone, Copy, Debug, PartialEq, Eq, Structural)]
pub enum CycleError {
    /// The request could not be built from the URL.
    RequestConstruction,
    /// The request could not be sent or no response came.
    Transport,
    /// Reading the body failed.
    BodyRead,
    /// The body is not UTF-8.
    Encoding,
    /// The body is not an Online Config document.
    Parse,
    /// The document failed its integrity check.
    Integrity,
    /// The cycle ran past its deadline.
    Timeout,
}

/// The durations of a successful cycle, in milliseconds.
#[derive(Clone, Copy, Debug, PartialEq, Eq, Structural)]
pub struct Timings {
    /// From the start to the response headers.
    pub fetch_ms: u64,
    /// From the response headers to the updated pool.
    pub read_ms: u64,
    /// From the start to the updated pool.
    pub total_ms: u64,
}

/// Where a cycle stands.
#[derive(Clone, Copy, Debug, PartialEq, Eq, Structural)]
pub enum Stage {
    /// No cycle in flight.
    Idle,
    /// The request is out; waiting for the response headers.
    Fetching,
    /// Reading the body.
    CollectingBody,
    /// Waiting for the body to be parsed.
    Parsing,
    /// Waiting for the parsed document's integrity check.
    CheckingIntegrity,
}

/// What happened since the last action, with the time it is now.
pub enum Event<T> {
    /// The interval between cycles has passed.
    Wake,
    /// The response headers came: the raw values of `Content-Type` and `Content-Length`.
    Responded { content_type: Option<Vec<u8>>, content_length: Option<Vec<u8>> },
    /// Sending the request failed.
    TransportFailed,
    /// A piece of the body came.
    Chunk(Vec<u8>),
    /// Reading the body failed.
    ReadFailed,
    /// The body is complete.
    BodyEnd,
    /// The body parsed as an Online Config document with these servers.
    Parsed(Vec<T>),
    /// The body did not parse.
    ParseFailed,
    /// The parsed document passed (`true`) or failed (`false`) its integrity check.
    IntegrityChecked(bool),
    /// The caller's timer for the cycle's deadline fired.
    TimedOut,
}

/// What to do next.
#[derive(Debug)]
pub enum Action {
    /// Send this request and report the response headers.
    Send(http::Request<String>),
    /// Read the body; the `Content-Type` verdict is advisory, for the log only.
    Read(ContentTypeCheck),
    /// Read the next piece of the body.
    ReadMore,
    /// Parse this text as an Online Config document.
    Parse(String),
    /// Check the integrity of the parsed servers.
    Check,
    /// The cycle is over.
    Done(Result<Timings, CycleError>),
    /// Wait for the interval; the cycle that just ended came to this.
    Sleep(Result<Timings, CycleError>),
    /// The first cycle failed: the service does not start.
    Abort(CycleError),
    /// The event does not fit the current state and changed nothing.
    Ignored,
}

/// The state of a cycle, as the contracts see it.
pub struct CycleView<T> {
    pub stage: Stage,
    pub start_ms: u64,
    pub fetched_ms: u64,
    pub last_ms: u64,
    pub deadline_ms: u64,
    pub body: Seq<u8>,
    pub servers: Seq<T>,
}

impl<T> CycleView<T> {
    pub open spec fn wf(self) -> bool {
        self.start_ms <= self.fetched_ms <= self.last_ms
    }

    pub open spec fn in_flight(self) -> bool {
        !(self.stage is Idle)
    }

    /// The time of an event: clocks that step back are read as standing still.
    pub open spec fn now_at(self, now: u64) -> u64 {
        if now < self.last_ms {
            self.last_ms
        } else {
            now
        }
    }

    /// The cycle in flight has run past its deadline at `now`.
    pub open spec fn expired(self, now: u64) -> bool {
        self.in_flight() && self.now_at(now) - self.start_ms > self.deadline_ms
    }

    /// The cycle `d` that follows this one has ended at `now`.
    pub open spec fn ended(self, d: CycleView<T>, now: u64) -> bool {
        &&& d.stage is Idle
        &&& d.deadline_ms == self.deadline_ms
        &&& d.last_ms == self.now_at(now)
        &&& d.body == Seq::<u8>::empty()
        &&& d.servers == Seq::<T>::empty()
    }
}

/// One step of a cycle: from state `c` and pool `p`, the event `e` at time `now` leads to
/// state `d`, pool `q` and action `r`.
pub open spec fn cycle_step<T>(
    c: CycleView<T>,
    p: Seq<PoolEntry<T>>,
    now: u64,
    e: Event<T>,
    d: CycleView<T>,
    q: Seq<PoolEntry<T>>,
    r: Action,
) -> bool {
    let t = c.now_at(now);
    let fails = |err: CycleError| r == Action::Done(Err(err)) && c.ended(d, now) && q == p;
    let goes_on = |s: Stage|
        d.stage == s && d.start_ms == c.start_ms && d.deadline_ms == c.deadline_ms && d.last_ms
            == t && q == p;
    if !c.in_flight() {
        r == Action::Ignored && d == c && q == p
    } else if c.expired(now) || e is TimedOut {
        fails(CycleError::Timeout)
    } else {
        match e {
            Event::Responded { content_type, content_length } => if c.stage is Fetching {
                r == Action::Read(content_type_verdict(opt_bytes(content_type))) && goes_on(
                    Stage::CollectingBody,
                ) && d.fetched_ms == t && d.body == Seq::<u8>::empty() && d.servers == c.servers
            } else {
                r == Action::Ignored && d == c && q == p
            },
            Event::TransportFailed => if c.stage is Fetching {
                fails(CycleError::Transport)
            } else {
                r == Action::Ignored && d == c && q == p
            },
            Event::Chunk(data) => if c.stage is CollectingBody {
                r == Action::ReadMore && goes_on(Stage::CollectingBody) && d.fetched_ms
                    == c.fetched_ms && d.body == c.body + data@ && d.servers == c.servers
            } else {
                r == Action::Ignored && d == c && q == p
            },
            Event::ReadFailed => if c.stage is CollectingBody {
                fails(CycleError::BodyRead)
            } else {
                r == Action::Ignored && d == c && q == p
            },
            Event::BodyEnd => if c.stage is CollectingBody {
                match utf8_text(c.body) {
                    None => fails(CycleError::Encoding),
                    Some(text) => (r matches Action::Parse(s) && s@ == text) && goes_on(
                        Stage::Parsing,
                    ) && d.fetched_ms == c.fetched_ms && d.body == Seq::<u8>::empty()
                        && d.servers == c.servers,
                }
            } else {
                r == Action::Ignored && d == c && q == p
            },
            Event::Parsed(servers) => if c.stage is Parsing {
                r == Action::Check && goes_on(Stage::CheckingIntegrity) && d.fetched_ms
                    == c.fetched_ms && d.servers == servers@ && d.body == c.body
            } else {
                r == Action::Ignored && d == c && q == p
            },
            Event::ParseFailed => if c.stage is Parsing {
                fails(CycleError::Parse)
            } else {
                r == Action::Ignored && d == c && q == p
            },
            Event::IntegrityChecked(passed) => if !(c.stage is CheckingIntegrity) {
                r == Action::Ignored && d == c && q == p
            } else if passed {
                r == Action::Done(
                    Ok(
                        Timings {
                            fetch_ms: (c.fetched_ms - c.start_ms) as u64,
                            read_ms: (t - c.fetched_ms) as u64,
                            total_ms: (t - c.start_ms) as u64,
                        },
                    ),
                ) && c.ended(d, now) && q == replaced(p, c.servers, ServerSource::OnlineConfig)
            } else {
                fails(CycleError::Integrity)
            },
            _ => r == Action::Ignored && d == c && q == p,
        }
    }
}

/// A fetch cycle, idle between runs.
pub struct FetchCycle<T> {
    stage: Stage,
    start_ms: u64,
    fetched_ms: u64,
    last_ms: u64,
    deadline_ms: u64,
    body: Vec<u8>,
    servers: Vec<T>,
}

impl<T> View for FetchCycle<T> {
    type V = CycleView<T>;

    closed spec fn view(&self) -> CycleView<T> {
        CycleView {
            stage: self.stage,
            start_ms: self.start_ms,
            fetched_ms: self.fetched_ms,
            last_ms: self.last_ms,
            deadline_ms: self.deadline_ms,
            body: self.body@,
            servers: self.servers@,
        }
    }
}

impl<T> FetchCycle<T> {
    /// An idle cycle whose runs each get `deadline_ms` milliseconds.
    pub fn new(deadline_ms: u64) -> (r: Self)
        ensures
            r@.wf(),
            r@.stage is Idle,
            r@.deadline_ms == deadline_ms,
            r@.last_ms == 0,
    {
        FetchCycle {
            stage: Stage::Idle,
            start_ms: 0,
            fetched_ms: 0,
            last_ms: 0,
            deadline_ms,
            body: Vec::new(),
            servers: Vec::new(),
        }
    }

    /// Where the cycle stands.
    pub fn stage(&self) -> (r: Stage)
        ensures
            r == self@.stage,
    {
        self.stage
    }

    /// The servers that the last `Parsed` event brought, for their integrity check.
    pub fn servers(&self) -> (r: &Vec<T>)
        ensures
            r@ == self@.servers,
    {
        &self.servers
    }

    fn time_of(&self, now_ms: u64) -> (r: u64)
        ensures
            r == self@.now_at(now_ms),
    {
        if now_ms < self.last_ms {
            self.last_ms
        } else {
            now_ms
        }
    }

    fn end(&mut self, now: u64)
        requires
            old(self)@.wf(),
            now >= old(self)@.last_ms,
        ensures
            final(self)@.wf(),
            final(self)@.stage is Idle,
            final(self)@.deadline_ms == old(self)@.deadline_ms,
            final(self)@.last_ms == now,
            final(self)@.body == Seq::<u8>::empty(),
            final(self)@.servers == Seq::<T>::empty(),
    {
        self.stage = Stage::Idle;
        self.start_ms = now;
        self.fetched_ms = now;
        self.last_ms = now;
        self.body = Vec::new();
        self.servers = Vec::new();
    }

    /// Starts a cycle at `now_ms` by building the request for `url`: the action is to send
    /// it, or, where `url` is no URI, the cycle is over at once. A cycle already in flight
    /// ignores the call.
    pub fn begin(&mut self, url: &str, now_ms: u64) -> (r: Action)
        requires
            old(self)@.wf(),
        ensures
            final(self)@.wf(),
            final(self)@.deadline_ms == old(self)@.deadline_ms,
            old(self)@.in_flight() ==> r is Ignored && final(self)@ == old(self)@,
            !old(self)@.in_flight() && uri_accepted(url@) ==> r is Send && final(self)@.stage
                is Fetching && final(self)@.start_ms == old(self)@.now_at(now_ms)
                && final(self)@.last_ms == old(self)@.now_at(now_ms) && final(self)@.fetched_ms
                == old(self)@.now_at(now_ms) && final(self)@.body == Seq::<u8>::empty()
                && final(self)@.servers == Seq::<T>::empty(),
            !old(self)@.in_flight() && !uri_accepted(url@) ==> r == Action::Done(
                Err(CycleError::RequestConstruction),
            ) && old(self)@.ended(final(self)@, now_ms),
    {
        if self.stage != Stage::Idle {
            return Action::Ignored;
        }
        let now = self.time_of(now_ms);
        proof {
            reveal_strlit("online_config/0.1.0");
        }
        match build_get(url, USER_AGENT) {
            Ok(req) => {
                self.stage = Stage::Fetching;
                self.start_ms = now;
                self.fetched_ms = now;
                self.last_ms = now;
                self.body = Vec::new();
                self.servers = Vec::new();
                Action::Send(req)
            },
            Err(_) => {
                self.end(now);
                Action::Done(Err(CycleError::RequestConstruction))
            },
        }
    }

    /// Hands the cycle the event `event` at `now_ms`; the pool changes only where the cycle
    /// then ends in success.
    pub fn advance(&mut self, pool: &mut ServerPool<T>, now_ms: u64, event: Event<T>) -> (r:
        Action)
        requires
            old(self)@.wf(),
        ensures
            final(self)@.wf(),
            cycle_step(old(self)@, old(pool)@, now_ms, event, final(self)@, final(pool)@, r),
    {
        if self.stage == Stage::Idle {
            return Action::Ignored;
        }
        let now = self.time_of(now_ms);
        if now - self.start_ms > self.deadline_ms || matches!(event, Event::TimedOut) {
            self.end(now);
            return Action::Done(Err(CycleError::Timeout));
        }
        match event {
            Event::Responded { content_type, content_length } => {
                if self.stage != Stage::Fetching {
                    return Action::Ignored;
                }
                let verdict = check_content_type(content_type);
                let hint = content_length_hint(content_length);
                self.body = Vec::new();
                match hint {
                    Some(n) => {
                        if n <= MAX_PRESIZE {
                            self.body.reserve(n);
                        }
                    },
                    None => {},
                }
                self.stage = Stage::CollectingBody;
                self.fetched_ms = now;
                self.last_ms = now;
                Action::Read(verdict)
            },
            Event::TransportFailed => {
                if self.stage != Stage::Fetching {
                    return Action::Ignored;
                }
                self.end(now);
                Action::Done(Err(CycleError::Transport))
            },
            Event::Chunk(data) => {
                if self.stage != Stage::CollectingBody {
                    return Action::Ignored;
                }
                let mut data = data;
                self.body.append(&mut data);
                self.last_ms = now;
                Action::ReadMore
            },
            Event::ReadFailed => {
                if self.stage != Stage::CollectingBody {
                    return Action::Ignored;
                }
                self.end(now);
                Action::Done(Err(CycleError::BodyRead))
            },
            Event::BodyEnd => {
                if self.stage != Stage::CollectingBody {
                    return Action::Ignored;
                }
                let mut bytes: Vec<u8> = Vec::new();
                core::mem::swap(&mut bytes, &mut self.body);
                match body_text(bytes) {
                    None => {
                        self.end(now);
                        Action::Done(Err(CycleError::Encoding))
                    },
                    Some(text) => {
                        self.stage = Stage::Parsing;
                        self.last_ms = now;
                        Action::Parse(text)
                    },
                }
            },
            Event::Parsed(servers) => {
                if self.stage != Stage::Parsing {
                    return Action::Ignored;
                }
                self.servers = servers;
                self.stage = Stage::CheckingIntegrity;
                self.last_ms = now;
                Action::Check
            },
            Event::ParseFailed => {
                if self.stage != Stage::Parsing {
                    return Action::Ignored;
                }
                self.end(now);
                Action::Done(Err(CycleError::Parse))
            },
            Event::IntegrityChecked(passed) => {
                if self.stage != Stage::CheckingIntegrity {
                    return Action::Ignored;
                }
                if !passed {
                    self.end(now);
                    return Action::Done(Err(CycleError::Integrity));
                }
                let timings = Timings {
                    fetch_ms: self.fetched_ms - self.start_ms,
                    read_ms: now - self.fetched_ms,
                    total_ms: now - self.start_ms,
                };
                let mut servers: Vec<T> = Vec::new();
                core::mem::swap(&mut servers, &mut self.servers);
                pool.reset_servers(servers, ServerSource::OnlineConfig);
                self.end(now);
                Action::Done(Ok(timings))
            },
            _ => Action::Ignored,
        }
    }
}

} // verus!

verus! {

/// A cycle that succeeds leaves as the pool's Online Config entries exactly the parsed
/// servers, as many as were parsed, and the entries of every other source as they were.
pub proof fn lemma_success_replaces_online_entries<T>(
    c: CycleView<T>,
    p: Seq<PoolEntry<T>>,
    now: u64,
    e: Event<T>,
    d: CycleView<T>,
    q: Seq<PoolEntry<T>>,
    r: Action,
)
    requires
        cycle_step(c, p, now, e, d, q, r),
        r matches Action::Done(Ok(_)),
    ensures
        q == replaced(p, c.servers, ServerSource::OnlineConfig),
        owned_by(q, ServerSource::OnlineConfig) == tagged(c.servers, ServerSource::OnlineConfig),
        owned_by(q, ServerSource::OnlineConfig).len() == c.servers.len(),
        others(q, ServerSource::OnlineConfig) == others(p, ServerSource::OnlineConfig),
{
    lemma_replace_scoped(p, c.servers, ServerSource::OnlineConfig);
}

/// Two successful cycles in a row that parse the same servers leave the pool as the
/// first one left it.
pub proof fn lemma_repeated_success_is_idempotent<T>(
    c1: CycleView<T>,
    p: Seq<PoolEntry<T>>,
    now1: u64,
    e1: Event<T>,
    d1: CycleView<T>,
    q1: Seq<PoolEntry<T>>,
    r1: Action,
    c2: CycleView<T>,
    now2: u64,
    e2: Event<T>,
    d2: CycleView<T>,
    q2: Seq<PoolEntry<T>>,
    r2: Action,
)
    requires
        cycle_step(c1, p, now1, e1, d1, q1, r1),
        r1 matches Action::Done(Ok(_)),
        cycle_step(c2, q1, now2, e2, d2, q2, r2),
        r2 matches Action::Done(Ok(_)),
        c2.servers == c1.servers,
    ensures
        q2 == q1,
{
    lemma_replace_idempotent(p, c1.servers, ServerSource::OnlineConfig);
}

/// Every cycle step but a success leaves the pool as it was.
pub proof fn lemma_only_success_changes_pool<T>(
    c: CycleView<T>,
    p: Seq<PoolEntry<T>>,
    now: u64,
    e: Event<T>,
    d: CycleView<T>,
    q: Seq<PoolEntry<T>>,
    r: Action,
)
    requires
        cycle_step(c, p, now, e, d, q, r),
        !(r matches Action::Done(Ok(_))),
    ensures
        q == p,
{
}

/// A cycle in flight that has run past its deadline, whatever the event, ends with a
/// timeout and leaves the pool as it was.
pub proof fn lemma_deadline_leaves_pool<T>(
    c: CycleView<T>,
    p: Seq<PoolEntry<T>>,
    now: u64,
    e: Event<T>,
    d: CycleView<T>,
    q: Seq<PoolEntry<T>>,
    r: Action,
)
    requires
        cycle_step(c, p, now, e, d, q, r),
        c.expired(now),
    ensures
        r == Action::Done(Err(CycleError::Timeout)),
        q == p,
        !d.in_flight(),
{
}

/// A body that is not UTF-8 ends the cycle with an encoding error and leaves the pool as
/// it was.
pub proof fn lemma_bad_encoding_leaves_pool<T>(
    c: CycleView<T>,
    p: Seq<PoolEntry<T>>,
    now: u64,
    d: CycleView<T>,
    q: Seq<PoolEntry<T>>,
    r: Action,
)
    requires
        cycle_step(c, p, now, Event::BodyEnd, d, q, r),
        c.stage is CollectingBody,
        !c.expired(now),
        utf8_text(c.body) is None,
    ensures
        r == Action::Done(Err(CycleError::Encoding)),
        q == p,
        !d.in_flight(),
{
}

/// A failed integrity check ends the cycle with an integrity error and leaves the pool
/// as it was.
pub proof fn lemma_integrity_failure_leaves_pool<T>(
    c: CycleView<T>,
    p: Seq<PoolEntry<T>>,
    now: u64,
    d: CycleView<T>,
    q: Seq<PoolEntry<T>>,
    r: Action,
)
    requires
        cycle_step(c, p, now, Event::IntegrityChecked(false), d, q, r),
        c.stage is CheckingIntegrity,
        !c.expired(now),
    ensures
        r == Action::Done(Err(CycleError::Integrity)),
        q == p,
        !d.in_flight(),
{
}

/// The `Content-Type` header never stops a cycle: whatever it holds, or where it is
/// missing, the response leads to reading the body, and two responses that differ only
/// in that header lead to the same state.
pub proof fn lemma_content_type_is_advisory<T>(
    c: CycleView<T>,
    p: Seq<PoolEntry<T>>,
    now: u64,
    content_type1: Option<Vec<u8>>,
    content_type2: Option<Vec<u8>>,
    content_length: Option<Vec<u8>>,
    d1: CycleView<T>,
    q1: Seq<PoolEntry<T>>,
    r1: Action,
    d2: CycleView<T>,
    q2: Seq<PoolEntry<T>>,
    r2: Action,
)
    requires
        cycle_step(
            c,
            p,
            now,
            Event::Responded { content_type: content_type1, content_length },
            d1,
            q1,
            r1,
        ),
        cycle_step(
            c,
            p,
            now,
            Event::Responded { content_type: content_type2, content_length },
            d2,
            q2,
            r2,
        ),
        c.stage is Fetching,
        !c.expired(now),
    ensures
        r1 is Read,
        r2 is Read,
        d1.stage is CollectingBody,
        d1.stage == d2.stage && d1.start_ms == d2.start_ms && d1.fetched_ms == d2.fetched_ms
            && d1.last_ms == d2.last_ms && d1.deadline_ms == d2.deadline_ms && d1.body == d2.body,
        q1 == p && q2 == p,
{
}

} // verus!
