//! The poll-and-publish loop on the sending side.
//!
//! One loop serves one upstream session. It alternates between polling the
//! backend and idling, keeps the revision cursor, and knows which transport
//! sessions receive what it publishes. The caller performs the fetch and the
//! deliveries and reports how they went. Time is a count of milliseconds
//! from a monotonic clock.

use crate::client::{QbtError, QbtErrorView};
use crate::connection::{time_after, SESSION_START_RID};
use crate::proto::sync::MainData;
use vstd::prelude::*;

verus! {

/// The shortest time between the end of one fetch and the start of the
/// next, unless the caller asks for another.
pub const DEFAULT_MIN_INTERVAL_MS: u64 = 1000;

/// What the loop is doing.
#[derive(Clone, Copy, Debug, PartialEq, Eq, Structural)]
pub enum PollPhase {
    /// A fetch is under way.
    Polling,
    /// The loop sleeps until the next fetch is due.
    Idle,
    /// The credential was refused: the loop has ended.
    Stopped,
}

/// What the caller is to do next.
#[derive(Clone, Copy, Debug, PartialEq, Eq, Structural)]
pub enum PollAction {
    /// Fetch the frame that follows revision `rid`.
    Fetch { rid: u64 },
    /// Sleep; nothing is due before `until`.
    Wait { until: u64 },
    /// A fetch is under way; its result is awaited.
    InFlight,
    /// The loop has ended.
    Halt,
}

/// How a failed fetch is dealt with.
#[derive(Clone, Copy, Debug, PartialEq, Eq, Structural)]
pub enum PollVerdict {
    /// The fetch will be tried again, at the same revision, not before
    /// `at`.
    Retry { at: u64 },
    /// The credential is invalid. The loop has ended; the error goes to
    /// whoever can issue a new credential.
    Fatal,
    /// No fetch was under way; the report changes nothing.
    Ignored,
}

/// The poll-and-publish loop.
#[derive(Debug)]
pub struct PollLoop {
    rid: u64,
    fetch_rid: u64,
    phase: PollPhase,
    resume_at: u64,
    min_interval_ms: u64,
    sessions: Vec<u64>,
    waiting: Vec<u64>,
}

/// The mathematical value of a [`PollLoop`].
pub struct PollLoopView {
    /// The revision of the last frame published; the start of a session
    /// before the first.
    pub rid: u64,
    /// While polling: the revision that the fetch under way named.
    pub fetch_rid: u64,
    pub phase: PollPhase,
    /// While idle: the time before which no fetch starts.
    pub resume_at: u64,
    pub min_interval_ms: u64,
    /// The attached transport sessions, in order of attachment.
    pub sessions: Seq<u64>,
    /// The attached sessions that have not been sent a frame yet. Each of
    /// them is owed a full frame first.
    pub waiting: Seq<u64>,
}

impl View for PollLoop {
    type V = PollLoopView;

    closed spec fn view(&self) -> PollLoopView {
        PollLoopView {
            rid: self.rid,
            fetch_rid: self.fetch_rid,
            phase: self.phase,
            resume_at: self.resume_at,
            min_interval_ms: self.min_interval_ms,
            sessions: self.sessions@,
            waiting: self.waiting@,
        }
    }
}

/// `s` without `x`.
pub open spec fn removed(s: Seq<u64>, x: u64) -> Seq<u64> {
    if s.contains(x) {
        s.remove(s.index_of(x))
    } else {
        s
    }
}

/// The members of `sessions` that are not among `waiting`, in their order.
pub open spec fn served(sessions: Seq<u64>, waiting: Seq<u64>) -> Seq<u64>
    decreases sessions.len(),
{
    if sessions.len() == 0 {
        Seq::empty()
    } else if waiting.contains(sessions.last()) {
        served(sessions.drop_last(), waiting)
    } else {
        served(sessions.drop_last(), waiting).push(sessions.last())
    }
}

impl PollLoopView {
    /// A loop that has not fetched yet: the cursor at the start of a
    /// session, the first fetch due at once, nobody attached.
    pub open spec fn initial(min_interval_ms: u64) -> PollLoopView {
        PollLoopView {
            rid: SESSION_START_RID,
            fetch_rid: SESSION_START_RID,
            phase: PollPhase::Idle,
            resume_at: 0,
            min_interval_ms,
            sessions: Seq::empty(),
            waiting: Seq::empty(),
        }
    }

    /// No session is attached twice, and who waits is attached.
    pub open spec fn wf(self) -> bool {
        &&& self.sessions.no_duplicates()
        &&& self.waiting.no_duplicates()
        &&& forall|x: u64| self.waiting.contains(x) ==> self.sessions.contains(x)
    }

    /// The revision cursor: the revision the next fetch names. While a
    /// session waits for its first frame it is the start of a session, so
    /// that the backend answers with a full frame; otherwise it is the
    /// revision of the last frame published.
    pub open spec fn next_rid(self) -> u64 {
        if self.waiting.len() > 0 {
            SESSION_START_RID
        } else {
            self.rid
        }
    }

    /// Whether a fetch starts when the caller asks at `now`.
    pub open spec fn fetch_due(self, now: u64) -> bool {
        self.phase == PollPhase::Idle && now >= self.resume_at
    }

    /// The loop after the caller asked at `now` what to do.
    pub open spec fn polled(self, now: u64) -> PollLoopView {
        if self.fetch_due(now) {
            PollLoopView { phase: PollPhase::Polling, fetch_rid: self.next_rid(), ..self }
        } else {
            self
        }
    }

    /// What the caller is told when it asks at `now`.
    pub open spec fn poll_action(self, now: u64) -> PollAction {
        match self.phase {
            PollPhase::Polling => PollAction::InFlight,
            PollPhase::Stopped => PollAction::Halt,
            PollPhase::Idle => if now >= self.resume_at {
                PollAction::Fetch { rid: self.next_rid() }
            } else {
                PollAction::Wait { until: self.resume_at }
            },
        }
    }

    /// Whether the fetch under way asked for a full frame.
    pub open spec fn fetching_full(self) -> bool {
        self.fetch_rid == SESSION_START_RID
    }

    /// The loop after the fetch under way returned, at `now`, a frame
    /// tagged `rid`: the frame's revision is the last one published, and
    /// the loop idles for the minimum interval. Where the fetch asked for a
    /// full frame, nobody waits any more; otherwise those who joined since
    /// the fetch began go on waiting.
    pub open spec fn published(self, rid: u64, now: u64) -> PollLoopView {
        if self.phase == PollPhase::Polling {
            PollLoopView {
                rid,
                phase: PollPhase::Idle,
                resume_at: time_after(now, self.min_interval_ms),
                waiting: if self.fetching_full() {
                    Seq::empty()
                } else {
                    self.waiting
                },
                ..self
            }
        } else {
            self
        }
    }

    /// The sessions that the frame of a fetch returning now goes to, if a
    /// fetch was under way at all. The answer to a fetch that asked for a
    /// full frame goes to every attached session. Any other answer goes to
    /// the sessions that have had a frame before, and not to those that
    /// wait for their first.
    pub open spec fn targets(self) -> Seq<u64> {
        if self.phase != PollPhase::Polling {
            Seq::empty()
        } else if self.fetching_full() {
            self.sessions
        } else {
            served(self.sessions, self.waiting)
        }
    }

    /// The loop after the fetch under way failed at `now`. The cursor never
    /// moves. A failure that may pass sends the loop idling; a refused
    /// credential ends it.
    pub open spec fn failed(self, error: QbtErrorView, now: u64) -> PollLoopView {
        if self.phase != PollPhase::Polling {
            self
        } else if error.retryable() {
            PollLoopView {
                phase: PollPhase::Idle,
                resume_at: time_after(now, self.min_interval_ms),
                ..self
            }
        } else {
            PollLoopView { phase: PollPhase::Stopped, ..self }
        }
    }

    /// How the failure is dealt with.
    pub open spec fn verdict(self, error: QbtErrorView, now: u64) -> PollVerdict {
        if self.phase != PollPhase::Polling {
            PollVerdict::Ignored
        } else if error.retryable() {
            PollVerdict::Retry { at: time_after(now, self.min_interval_ms) }
        } else {
            PollVerdict::Fatal
        }
    }

    /// The loop after `session` attached. A session that is new to the loop
    /// joins the fan-out and waits for its first frame, which makes the
    /// next fetch ask for a full one. A session already attached changes
    /// nothing.
    pub open spec fn attached(self, session: u64) -> PollLoopView {
        if self.sessions.contains(session) {
            self
        } else {
            PollLoopView {
                sessions: self.sessions.push(session),
                waiting: self.waiting.push(session),
                ..self
            }
        }
    }

    /// The loop after `session` left the fan-out, by its own end or because
    /// a delivery to it failed. Nothing else changes.
    pub open spec fn detached(self, session: u64) -> PollLoopView {
        PollLoopView {
            sessions: removed(self.sessions, session),
            waiting: removed(self.waiting, session),
            ..self
        }
    }
}

/// The position of `x` in `v`.
fn position(v: &Vec<u64>, x: u64) -> (r: Option<usize>)
    requires
        v@.no_duplicates(),
    ensures
        r is Some <==> v@.contains(x),
        r matches Some(i) ==> i < v@.len() && i == v@.index_of(x),
{
    let n = v.len();
    let mut i: usize = 0;
    while i < n
        invariant
            n == v.len(),
            i <= n,
            v@.no_duplicates(),
            forall|j: int| 0 <= j < i ==> v@[j] != x,
        decreases n - i,
    {
        if v[i] == x {
            proof {
                let found = v@.index_of(x);
                assert(v@[i as int] == x);
                assert(found == i);
            }
            return Some(i);
        }
        i += 1;
    }
    None
}

/// Takes `x` out of `v`.
fn take_out(v: &mut Vec<u64>, x: u64) -> (was_there: bool)
    requires
        old(v)@.no_duplicates(),
    ensures
        final(v)@ == removed(old(v)@, x),
        final(v)@.no_duplicates(),
        was_there == old(v)@.contains(x),
{
    match position(v, x) {
        Some(i) => {
            proof {
                lemma_remove_keeps_distinct(v@, i as int);
            }
            let _ = v.remove(i);
            true
        },
        None => false,
    }
}

impl PollLoop {
    #[verifier::type_invariant]
    spec fn sessions_distinct(self) -> bool {
        &&& self.sessions@.no_duplicates()
        &&& self.waiting@.no_duplicates()
        &&& all_attached(self.sessions@, self.waiting@)
    }

    /// A loop that keeps at least `min_interval_ms` between the end of one
    /// fetch and the start of the next.
    pub fn new(min_interval_ms: u64) -> (l: PollLoop)
        ensures
            l@ == PollLoopView::initial(min_interval_ms),
    {
        PollLoop {
            rid: SESSION_START_RID,
            fetch_rid: SESSION_START_RID,
            phase: PollPhase::Idle,
            resume_at: 0,
            min_interval_ms,
            sessions: Vec::new(),
            waiting: Vec::new(),
        }
    }

    /// The revision cursor: the revision the next fetch names.
    pub fn cursor(&self) -> (rid: u64)
        ensures
            rid == self@.next_rid(),
    {
        if self.waiting.len() > 0 {
            SESSION_START_RID
        } else {
            self.rid
        }
    }

    /// What the loop is doing.
    pub fn phase(&self) -> (p: PollPhase)
        ensures
            p == self@.phase,
    {
        self.phase
    }

    /// How many transport sessions are attached.
    pub fn session_count(&self) -> (n: usize)
        ensures
            n == self@.sessions.len(),
            self@.wf(),
    {
        proof {
            use_type_invariant(self);
        }
        self.sessions.len()
    }

    /// Whether nobody is attached. A loop that nobody observes fetches for
    /// nobody; its owner may end it.
    pub fn unobserved(&self) -> (b: bool)
        ensures
            b == (self@.sessions.len() == 0),
    {
        self.sessions.len() == 0
    }

    /// Whether `session` is attached.
    pub fn is_attached(&self, session: u64) -> (b: bool)
        ensures
            b == self@.sessions.contains(session),
    {
        proof {
            use_type_invariant(self);
        }
        position(&self.sessions, session).is_some()
    }

    /// Whether `session` is attached and has not been sent a frame yet.
    pub fn is_waiting(&self, session: u64) -> (b: bool)
        ensures
            b == self@.waiting.contains(session),
    {
        proof {
            use_type_invariant(self);
        }
        position(&self.waiting, session).is_some()
    }

    /// Attaches a transport session. Returns whether it was new to the loop.
    pub fn attach(&mut self, session: u64) -> (added: bool)
        ensures
            final(self)@ == old(self)@.attached(session),
            added == !old(self)@.sessions.contains(session),
    {
        proof {
            use_type_invariant(&*self);
        }
        if position(&self.sessions, session).is_some() {
            false
        } else {
            let mut waiting: Vec<u64> = Vec::new();
            std::mem::swap(&mut waiting, &mut self.waiting);
            let mut sessions: Vec<u64> = Vec::new();
            std::mem::swap(&mut sessions, &mut self.sessions);
            proof {
                lemma_joined(sessions@, waiting@, session);
            }
            sessions.push(session);
            waiting.push(session);
            self.sessions = sessions;
            self.waiting = waiting;
            true
        }
    }

    /// Detaches a transport session. Returns whether it was attached.
    pub fn detach(&mut self, session: u64) -> (removed: bool)
        ensures
            final(self)@ == old(self)@.detached(session),
            removed == old(self)@.sessions.contains(session),
    {
        proof {
            use_type_invariant(&*self);
        }
        let mut waiting: Vec<u64> = Vec::new();
        std::mem::swap(&mut waiting, &mut self.waiting);
        let mut sessions: Vec<u64> = Vec::new();
        std::mem::swap(&mut sessions, &mut self.sessions);
        proof {
            lemma_left(sessions@, waiting@, session);
        }
        let _ = take_out(&mut waiting, session);
        let was_there = take_out(&mut sessions, session);
        self.sessions = sessions;
        self.waiting = waiting;
        was_there
    }

    /// A delivery to `session` failed, for a full buffer or a closed
    /// channel: the session leaves the fan-out. It is not retried.
    pub fn on_delivery_failed(&mut self, session: u64)
        ensures
            final(self)@ == old(self)@.detached(session),
    {
        let _ = self.detach(session);
    }

    /// Asks the loop what to do at `now`. A fetch starts only from the idle
    /// phase and only once the minimum interval since the last one ended has
    /// passed; while one is under way no second one starts.
    pub fn poll(&mut self, now: u64) -> (action: PollAction)
        ensures
            final(self)@ == old(self)@.polled(now),
            action == old(self)@.poll_action(now),
    {
        proof {
            use_type_invariant(&*self);
        }
        match self.phase {
            PollPhase::Polling => PollAction::InFlight,
            PollPhase::Stopped => PollAction::Halt,
            PollPhase::Idle => {
                if now >= self.resume_at {
                    let rid = self.cursor();
                    self.phase = PollPhase::Polling;
                    self.fetch_rid = rid;
                    PollAction::Fetch { rid }
                } else {
                    PollAction::Wait { until: self.resume_at }
                }
            },
        }
    }

    /// The fetch under way returned `frame` at `now`. Returns the sessions
    /// that the frame is to be delivered to.
    pub fn on_frame(&mut self, frame: &MainData, now: u64) -> (targets: Vec<u64>)
        ensures
            final(self)@ == old(self)@.published(frame@.rid(), now),
            targets@ == old(self)@.targets(),
    {
        proof {
            use_type_invariant(&*self);
        }
        if self.phase != PollPhase::Polling {
            return Vec::new();
        }
        let full = self.fetch_rid == SESSION_START_RID;
        let n = self.sessions.len();
        let mut targets: Vec<u64> = Vec::new();
        let mut i: usize = 0;
        while i < n
            invariant
                n == self.sessions.len(),
                i <= n,
                self.waiting@.no_duplicates(),
                full ==> targets@ == self.sessions@.take(i as int),
                !full ==> targets@ == served(self.sessions@.take(i as int), self.waiting@),
            decreases n - i,
        {
            let session = self.sessions[i];
            proof {
                assert(self.sessions@.take(i + 1).drop_last() =~= self.sessions@.take(i as int));
                assert(self.sessions@.take(i + 1).last() == session);
            }
            if full || position(&self.waiting, session).is_none() {
                targets.push(session);
            }
            proof {
                if full {
                    assert(targets@ =~= self.sessions@.take(i + 1));
                }
            }
            i += 1;
        }
        proof {
            assert(self.sessions@.take(n as int) =~= self.sessions@);
        }
        self.rid = frame.rid();
        self.phase = PollPhase::Idle;
        self.resume_at = now.saturating_add(self.min_interval_ms);
        if full {
            self.waiting = Vec::new();
        }
        targets
    }

    /// The fetch under way failed at `now`.
    pub fn on_error(&mut self, error: &QbtError, now: u64) -> (verdict: PollVerdict)
        ensures
            final(self)@ == old(self)@.failed(error@, now),
            verdict == old(self)@.verdict(error@, now),
    {
        proof {
            use_type_invariant(&*self);
        }
        if self.phase != PollPhase::Polling {
            PollVerdict::Ignored
        } else if error.is_retryable() {
            self.phase = PollPhase::Idle;
            self.resume_at = now.saturating_add(self.min_interval_ms);
            PollVerdict::Retry { at: self.resume_at }
        } else {
            self.phase = PollPhase::Stopped;
            PollVerdict::Fatal
        }
    }
}

proof fn lemma_remove_keeps_distinct(s: Seq<u64>, i: int)
    requires
        s.no_duplicates(),
        0 <= i < s.len(),
    ensures
        s.remove(i).no_duplicates(),
        forall|x: u64| x != s[i] ==> (s.remove(i).contains(x) <==> s.contains(x)),
        !s.remove(i).contains(s[i]),
{
    let t = s.remove(i);
    assert forall|a: int, b: int| 0 <= a < t.len() && 0 <= b < t.len() && a != b implies t[a]
        != t[b] by {
        let a0 = if a < i {
            a
        } else {
            a + 1
        };
        let b0 = if b < i {
            b
        } else {
            b + 1
        };
        assert(t[a] == s[a0] && t[b] == s[b0]);
    }
    assert forall|x: u64| x != s[i] implies (t.contains(x) <==> s.contains(x)) by {
        if t.contains(x) {
            let a = choose|a: int| 0 <= a < t.len() && t[a] == x;
            let a0 = if a < i {
                a
            } else {
                a + 1
            };
            assert(s[a0] == x);
        }
        if s.contains(x) {
            let a0 = choose|a0: int| 0 <= a0 < s.len() && s[a0] == x;
            let a = if a0 < i {
                a0
            } else {
                a0 - 1
            };
            assert(t[a] == x);
        }
    }
    if t.contains(s[i]) {
        let a = choose|a: int| 0 <= a < t.len() && t[a] == s[i];
        let a0 = if a < i {
            a
        } else {
            a + 1
        };
        assert(s[a0] == s[i]);
    }
}

/// What `removed` keeps: everything but `x`, still without repetition.
proof fn lemma_removed(s: Seq<u64>, x: u64)
    requires
        s.no_duplicates(),
    ensures
        removed(s, x).no_duplicates(),
        !removed(s, x).contains(x),
        forall|y: u64| y != x ==> (removed(s, x).contains(y) <==> s.contains(y)),
{
    if s.contains(x) {
        let i = s.index_of(x);
        lemma_remove_keeps_distinct(s, i);
    }
}

proof fn lemma_push_keeps_distinct(s: Seq<u64>, x: u64)
    requires
        s.no_duplicates(),
        !s.contains(x),
    ensures
        s.push(x).no_duplicates(),
        forall|y: u64| s.push(x).contains(y) <==> (s.contains(y) || y == x),
{
    let t = s.push(x);
    assert forall|a: int, b: int| 0 <= a < t.len() && 0 <= b < t.len() && a != b implies t[a]
        != t[b] by {
        if a < s.len() && b < s.len() {
        } else if a < s.len() {
            assert(s.contains(s[a]));
        } else {
            assert(s.contains(s[b]));
        }
    }
    assert forall|y: u64| t.contains(y) <==> (s.contains(y) || y == x) by {
        if t.contains(y) {
            let a = choose|a: int| 0 <= a < t.len() && t[a] == y;
            if a < s.len() {
                assert(s[a] == y);
            }
        }
        if s.contains(y) {
            let a = choose|a: int| 0 <= a < s.len() && s[a] == y;
            assert(t[a] == y);
        }
        if y == x {
            assert(t[s.len() as int] == x);
        }
    }
}

/// Whether everyone who waits is attached.
spec fn all_attached(sessions: Seq<u64>, waiting: Seq<u64>) -> bool {
    forall|x: u64| waiting.contains(x) ==> sessions.contains(x)
}

/// A session that joins keeps the loop in order.
proof fn lemma_joined(sessions: Seq<u64>, waiting: Seq<u64>, x: u64)
    requires
        sessions.no_duplicates(),
        waiting.no_duplicates(),
        all_attached(sessions, waiting),
        !sessions.contains(x),
    ensures
        sessions.push(x).no_duplicates(),
        waiting.push(x).no_duplicates(),
        all_attached(sessions.push(x), waiting.push(x)),
        waiting.push(x).contains(x),
        sessions.push(x).contains(x),
        forall|y: u64| sessions.push(x).contains(y) <==> (sessions.contains(y) || y == x),
        forall|y: u64| waiting.push(x).contains(y) <==> (waiting.contains(y) || y == x),
{
    if waiting.contains(x) {
        assert(sessions.contains(x));
    }
    lemma_push_keeps_distinct(sessions, x);
    lemma_push_keeps_distinct(waiting, x);
    assert forall|y: u64| waiting.push(x).contains(y) implies sessions.push(x).contains(y) by {
        if y != x {
            assert(waiting.contains(y));
            assert(sessions.contains(y));
        }
    }
}

/// A session that leaves keeps the loop in order.
proof fn lemma_left(sessions: Seq<u64>, waiting: Seq<u64>, x: u64)
    requires
        sessions.no_duplicates(),
        waiting.no_duplicates(),
        all_attached(sessions, waiting),
    ensures
        removed(sessions, x).no_duplicates(),
        removed(waiting, x).no_duplicates(),
        all_attached(removed(sessions, x), removed(waiting, x)),
        all_attached(sessions, removed(waiting, x)),
        !removed(sessions, x).contains(x),
        !removed(waiting, x).contains(x),
        forall|y: u64| y != x ==> (removed(sessions, x).contains(y) <==> sessions.contains(y)),
        forall|y: u64| y != x ==> (removed(waiting, x).contains(y) <==> waiting.contains(y)),
{
    lemma_removed(sessions, x);
    lemma_removed(waiting, x);
    assert forall|y: u64| removed(waiting, x).contains(y) implies removed(sessions, x).contains(
        y,
    ) && sessions.contains(y) by {
        assert(y != x);
        assert(waiting.contains(y));
        assert(sessions.contains(y));
    }
}

/// Who is served: the attached sessions that do not wait.
proof fn lemma_served(sessions: Seq<u64>, waiting: Seq<u64>)
    ensures
        forall|x: u64| #[trigger]
            served(sessions, waiting).contains(x) <==> (sessions.contains(x) && !waiting.contains(
                x,
            )),
    decreases sessions.len(),
{
    if sessions.len() > 0 {
        let front = sessions.drop_last();
        let last = sessions.last();
        let out = served(sessions, waiting);
        let inner = served(front, waiting);
        lemma_served(front, waiting);
        assert forall|x: u64| #[trigger] out.contains(x) <==> (sessions.contains(x)
            && !waiting.contains(x)) by {
            if out.contains(x) {
                let a = choose|a: int| 0 <= a < out.len() && out[a] == x;
                if !waiting.contains(last) && a == inner.len() {
                    assert(x == last);
                    assert(sessions[sessions.len() - 1] == x);
                } else {
                    assert(inner[a] == x);
                    assert(inner.contains(x));
                    assert(front.contains(x) && !waiting.contains(x));
                    let b = choose|b: int| 0 <= b < front.len() && front[b] == x;
                    assert(sessions[b] == x);
                }
            }
            if sessions.contains(x) && !waiting.contains(x) {
                let b = choose|b: int| 0 <= b < sessions.len() && sessions[b] == x;
                if b < front.len() {
                    assert(front[b] == x);
                    assert(front.contains(x));
                    assert(inner.contains(x));
                    let a = choose|a: int| 0 <= a < inner.len() && inner[a] == x;
                    assert(out[a] == x);
                } else {
                    assert(x == last);
                    assert(out[out.len() - 1] == x);
                }
            }
        }
    }
}

/// Two publishes in a row are at least the minimum interval apart. After a
/// frame is published at `first`, the next fetch does not start before the
/// interval has passed; so even where that fetch returns at the instant it
/// starts, at `second`, the frame it brings is published no sooner.
pub proof fn law_publishes_are_spaced(l: PollLoopView, rid: u64, first: u64, second: u64)
    requires
        l.phase == PollPhase::Polling,
        l.published(rid, first).poll_action(second) is Fetch,
    ensures
        second >= time_after(first, l.min_interval_ms),
        first + l.min_interval_ms <= u64::MAX ==> second - first >= l.min_interval_ms,
{
}

/// A failed fetch never moves the cursor, and one that may pass is tried
/// again at the same revision, after the minimum interval.
pub proof fn law_failed_fetch_retries_same_revision(
    l: PollLoopView,
    error: QbtErrorView,
    failed_at: u64,
    now: u64,
)
    requires
        l.phase == PollPhase::Polling,
        error.retryable(),
    ensures
        l.failed(error, failed_at).next_rid() == l.next_rid(),
        l.failed(error, failed_at).rid == l.rid,
        l.failed(error, failed_at).poll_action(now) is Fetch ==> l.failed(
            error,
            failed_at,
        ).poll_action(now) == (PollAction::Fetch { rid: l.next_rid() }) && now >= time_after(
            failed_at,
            l.min_interval_ms,
        ),
{
}

/// Losing one session does not touch another. After `failed` is dropped
/// from the fan-out, `other` is still attached, a frame that would have
/// gone to it still goes to it, and neither the cursor of the other
/// sessions nor the time of the next fetch has moved.
pub proof fn law_fan_out_isolated(l: PollLoopView, failed: u64, other: u64)
    requires
        l.wf(),
        l.sessions.contains(other),
        failed != other,
    ensures
        l.detached(failed).wf(),
        l.detached(failed).sessions.contains(other),
        !l.detached(failed).sessions.contains(failed),
        l.detached(failed).waiting.contains(other) == l.waiting.contains(other),
        l.detached(failed).rid == l.rid,
        l.detached(failed).fetch_rid == l.fetch_rid,
        l.detached(failed).phase == l.phase,
        l.detached(failed).resume_at == l.resume_at,
        l.detached(failed).targets().contains(other) == l.targets().contains(other),
{
    lemma_left(l.sessions, l.waiting, failed);
    lemma_served(l.sessions, l.waiting);
    lemma_served(l.detached(failed).sessions, l.detached(failed).waiting);
}

/// A session that is new to the loop waits for its first frame, and while
/// anyone waits the fetch that starts next asks for a full frame: it names
/// the revision at which a session starts.
pub proof fn law_attach_forces_full_frame(l: PollLoopView, session: u64, now: u64)
    requires
        l.wf(),
        !l.sessions.contains(session),
    ensures
        l.attached(session).wf(),
        l.attached(session).sessions.contains(session),
        l.attached(session).waiting.contains(session),
        l.attached(session).next_rid() == 0,
        l.attached(session).poll_action(now) is Fetch ==> l.attached(session).poll_action(now) == (
        PollAction::Fetch { rid: 0 }) && l.attached(session).polled(now).fetching_full(),
{
    lemma_joined(l.sessions, l.waiting, session);
    assert(l.attached(session).waiting.len() > 0);
}

/// The first frame that goes to a session was brought by a fetch that named
/// revision zero. A session waits from the moment it attaches. While it
/// waits, a frame goes to it only where the fetch that brought the frame
/// asked for a full one; any other frame passes it by and leaves it waiting.
/// A frame that does go to it ends the wait.
pub proof fn law_first_frame_answers_revision_zero(
    l: PollLoopView,
    session: u64,
    rid: u64,
    now: u64,
)
    requires
        l.wf(),
        l.waiting.contains(session),
    ensures
        l.targets().contains(session) ==> l.phase == PollPhase::Polling && l.fetch_rid == 0,
        l.targets().contains(session) ==> !l.published(rid, now).waiting.contains(session),
        !l.targets().contains(session) ==> l.published(rid, now).waiting.contains(session),
        l.published(rid, now).wf(),
{
    lemma_served(l.sessions, l.waiting);
    if l.phase == PollPhase::Polling && !l.fetching_full() {
        assert(!l.targets().contains(session));
    }
    if l.phase == PollPhase::Polling && l.fetching_full() {
        assert(l.sessions.contains(session));
    }
}

/// Nothing but a frame or its own leaving ends a session's wait: asking
/// the loop what to do, a failed fetch, and the coming and going of other
/// sessions leave a waiting session waiting, and the fetch that starts
/// while it waits names revision zero.
pub proof fn law_waiting_persists(
    l: PollLoopView,
    session: u64,
    other: u64,
    error: QbtErrorView,
    now: u64,
)
    requires
        l.wf(),
        l.waiting.contains(session),
        other != session,
    ensures
        l.polled(now).waiting.contains(session),
        l.fetch_due(now) ==> l.polled(now).fetch_rid == 0,
        l.failed(error, now).waiting.contains(session),
        l.attached(other).waiting.contains(session),
        l.detached(other).waiting.contains(session),
{
    assert(l.waiting.len() > 0);
    lemma_left(l.sessions, l.waiting, other);
    if !l.sessions.contains(other) {
        lemma_joined(l.sessions, l.waiting, other);
    }
}

/// A session that joins while a fetch from a later revision is under way is
/// passed by when that fetch returns, and is served by the fetch after it,
/// which names revision zero and whose answer goes to every session.
pub proof fn law_join_during_fetch(
    l: PollLoopView,
    session: u64,
    rid: u64,
    returned_at: u64,
    next_at: u64,
)
    requires
        l.wf(),
        l.phase == PollPhase::Polling,
        l.fetch_rid != 0,
        !l.sessions.contains(session),
        next_at >= time_after(returned_at, l.min_interval_ms),
    ensures
        ({
            let joined = l.attached(session);
            let after = joined.published(rid, returned_at);
            let next = after.polled(next_at);
            &&& !joined.targets().contains(session)
            &&& forall|x: u64| l.targets().contains(x) ==> joined.targets().contains(x)
            &&& after.waiting.contains(session)
            &&& after.poll_action(next_at) == (PollAction::Fetch { rid: 0 })
            &&& next.targets() == next.sessions
            &&& next.targets().contains(session)
        }),
{
    let joined = l.attached(session);
    lemma_joined(l.sessions, l.waiting, session);
    lemma_served(l.sessions, l.waiting);
    lemma_served(joined.sessions, joined.waiting);
    let after = joined.published(rid, returned_at);
    assert(after.waiting.len() > 0);
}

} // verus!
