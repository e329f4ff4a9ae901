//! The connection session and its event producer.
//!
//! A session is a small machine that the transport steps. From rest a step
//! begins a tick: it advances the counter and asks for the one-second wait.
//! The step after it ends the tick: it hands out the event that reports the
//! counter. The transport does the waiting and the sending; the session only
//! decides. Dropping the session is all it takes to stop it.
//!
//! The first part of this module is the machine as mathematics, the second
//! the session that runs it, the third what holds of every run.

use crate::bearer::{extract_token, extracted, header_view, Rejection};
use crate::decimal::{decimal, decimal_value, lemma_decimal_injective, lemma_decimal_value};
use crate::event::CounterEvent;
use vstd::prelude::*;

verus! {

/// Seconds that pass between the start of a tick and its event.
pub const TICK_SECS: u64 = 1;

/// Where a session stands within its cycle.
#[derive(Clone, Copy, Debug, PartialEq, Eq, Structural)]
pub enum Phase {
    /// Between ticks: the next step begins one.
    Idle,
    /// Within a tick: the counter is advanced, the wait was asked for, and
    /// the next step delivers.
    Ticking,
}

/// A session as contracts see it.
pub struct SessionView {
    /// The token that admitted the session.
    pub token: Seq<char>,
    /// The number of ticks begun so far.
    pub counter: nat,
    pub phase: Phase,
}

/// An [`Action`] as contracts see it.
pub enum Output {
    Wait { secs: nat },
    Emit { payload: Seq<char> },
}

/// The state in which the session admitted by `token` starts.
pub open spec fn fresh(token: Seq<char>) -> SessionView {
    SessionView { token, counter: 0, phase: Phase::Idle }
}

/// What a step from state `s` asks of the transport.
pub open spec fn output(s: SessionView) -> Output {
    match s.phase {
        Phase::Idle => Output::Wait { secs: TICK_SECS as nat },
        Phase::Ticking => Output::Emit { payload: decimal(s.counter) },
    }
}

/// The state that a step from state `s` leads to.
pub open spec fn next(s: SessionView) -> SessionView {
    match s.phase {
        Phase::Idle => SessionView { counter: s.counter + 1, phase: Phase::Ticking, ..s },
        Phase::Ticking => SessionView { phase: Phase::Idle, ..s },
    }
}

/// The state after `n` steps from state `s`.
pub open spec fn after(s: SessionView, n: nat) -> SessionView
    decreases n,
{
    if n == 0 {
        s
    } else {
        next(after(s, (n - 1) as nat))
    }
}

/// The payloads of the events that the first `n` steps from state `s` hand
/// out, in the order of their delivery.
pub open spec fn delivered(s: SessionView, n: nat) -> Seq<Seq<char>>
    decreases n,
{
    if n == 0 {
        Seq::empty()
    } else {
        let before: Seq<Seq<char>> = delivered(s, (n - 1) as nat);
        match output(after(s, (n - 1) as nat)) {
            Output::Emit { payload } => before.push(payload),
            Output::Wait { .. } => before,
        }
    }
}

/// The seconds of waiting that the first `n` steps from state `s` ask for.
pub open spec fn waited(s: SessionView, n: nat) -> nat
    decreases n,
{
    if n == 0 {
        0
    } else {
        let before: nat = waited(s, (n - 1) as nat);
        match output(after(s, (n - 1) as nat)) {
            Output::Wait { secs } => before + secs,
            Output::Emit { .. } => before,
        }
    }
}

/// What the transport has to do after a step.
#[derive(Debug)]
pub enum Action {
    /// Let this many seconds pass, then step again.
    Wait { secs: u64 },
    /// Send this event to the client, then step again.
    Emit(CounterEvent),
}

impl View for Action {
    type V = Output;

    open spec fn view(&self) -> Output {
        match self {
            Action::Wait { secs } => Output::Wait { secs: *secs as nat },
            Action::Emit(event) => Output::Emit { payload: event@ },
        }
    }
}

/// One accepted connection: the token that admitted it and its own counter.
#[derive(Debug)]
pub struct Session {
    token: String,
    counter: u64,
    phase: Phase,
}

impl View for Session {
    type V = SessionView;

    closed spec fn view(&self) -> SessionView {
        SessionView { token: self.token@, counter: self.counter as nat, phase: self.phase }
    }
}

impl Session {
    /// Whether the counter has reached the end of its range, so that no
    /// further tick can begin.
    pub open spec fn exhausted(&self) -> bool {
        self@.phase == Phase::Idle && self@.counter >= u64::MAX
    }

    /// Accepts or rejects a request to the streaming endpoint by the raw value
    /// of its `Authorization` header, `None` standing for a request without
    /// one. An accepted request gets a session of its own, with the counter at
    /// zero; a rejected request gets none, so nothing is ever produced for it.
    pub fn connect(header: Option<&[u8]>) -> (outcome: Result<Session, Rejection>)
        ensures
            match outcome {
                Ok(session) => extracted(header_view(header)) is Some && session@ == fresh(
                    extracted(header_view(header)).unwrap(),
                ),
                Err(rejection) => extracted(header_view(header)) is None && rejection
                    == Rejection::Unauthorized,
            },
    {
        match extract_token(header) {
            Ok(token) => Ok(Session { token, counter: 0, phase: Phase::Idle }),
            Err(rejection) => Err(rejection),
        }
    }

    /// Takes one step: begins a tick from rest, or ends the tick under way.
    ///
    /// From rest the counter goes up by one and the transport is asked to wait
    /// [`TICK_SECS`]; within a tick the event that reports the counter is
    /// handed out and the session comes to rest again. The token stays as it
    /// is.
    pub fn step(&mut self) -> (action: Action)
        requires
            !old(self).exhausted(),
        ensures
            action@ == output(old(self)@),
            final(self)@ == next(old(self)@),
    {
        match self.phase {
            Phase::Idle => {
                self.counter = self.counter + 1;
                self.phase = Phase::Ticking;
                Action::Wait { secs: TICK_SECS }
            },
            Phase::Ticking => {
                self.phase = Phase::Idle;
                Action::Emit(CounterEvent::numbered(self.counter))
            },
        }
    }

    /// Whether [`Session::step`] can no longer be taken: the session is at
    /// rest and its counter is at the end of its range.
    pub fn is_exhausted(&self) -> (ended: bool)
        ensures
            ended == self.exhausted(),
    {
        match self.phase {
            Phase::Idle => self.counter == u64::MAX,
            Phase::Ticking => false,
        }
    }

    /// The token that admitted this session.
    pub fn token(&self) -> (token: &str)
        ensures
            token@ == self@.token,
    {
        self.token.as_str()
    }

    /// The number of ticks begun so far.
    pub fn counter(&self) -> (counter: u64)
        ensures
            counter == self@.counter,
    {
        self.counter
    }

    /// The phase the session is in.
    pub fn phase(&self) -> (phase: Phase)
        ensures
            phase == self@.phase,
    {
        self.phase
    }
}

/// After `n` steps a fresh session still has its token, has begun a tick for
/// every two steps, rounded up, and is within a tick exactly when `n` is odd.
pub proof fn lemma_fresh_after(token: Seq<char>, n: nat)
    ensures
        after(fresh(token), n) == (SessionView {
            token,
            counter: (n + 1) / 2,
            phase: if n % 2 == 0 {
                Phase::Idle
            } else {
                Phase::Ticking
            },
        }),
    decreases n,
{
    if n > 0 {
        lemma_fresh_after(token, (n - 1) as nat);
    }
}

/// The events of a fresh session count up from one: after any number of
/// steps, the `k`-th event delivered so far (`k` from 1) carries the decimal
/// text of `k`, and one event has been delivered for every two steps.
pub proof fn lemma_delivery_counts_up(token: Seq<char>, n: nat)
    ensures
        delivered(fresh(token), n) == Seq::new(n / 2, |i: int| decimal((i + 1) as nat)),
    decreases n,
{
    if n > 0 {
        let m: nat = (n - 1) as nat;
        lemma_delivery_counts_up(token, m);
        lemma_fresh_after(token, m);
    }
    assert(delivered(fresh(token), n) =~= Seq::new(n / 2, |i: int| decimal((i + 1) as nat)));
}

/// The events of a fresh session come in strictly increasing order of the
/// numbers they carry, so no two of them carry the same payload.
pub proof fn lemma_delivery_strictly_increases(token: Seq<char>, n: nat, i: int, j: int)
    requires
        0 <= i < j < delivered(fresh(token), n).len(),
    ensures
        decimal_value(delivered(fresh(token), n)[i]) < decimal_value(delivered(fresh(token), n)[j]),
        delivered(fresh(token), n)[i] != delivered(fresh(token), n)[j],
{
    lemma_delivery_counts_up(token, n);
    lemma_decimal_value((i + 1) as nat);
    lemma_decimal_value((j + 1) as nat);
    if decimal((i + 1) as nat) == decimal((j + 1) as nat) {
        lemma_decimal_injective((i + 1) as nat, (j + 1) as nat);
    }
}

/// Every event of a fresh session has been waited for: by the time `k` events
/// are delivered, the session has asked for at least `k` full tick intervals
/// of waiting. The first event, then, never comes before one full interval.
pub proof fn lemma_wait_gates_delivery(token: Seq<char>, n: nat)
    ensures
        waited(fresh(token), n) == ((n + 1) / 2) * TICK_SECS,
        delivered(fresh(token), n).len() * TICK_SECS <= waited(fresh(token), n),
    decreases n,
{
    lemma_delivery_counts_up(token, n);
    if n > 0 {
        let m: nat = (n - 1) as nat;
        lemma_wait_gates_delivery(token, m);
        lemma_fresh_after(token, m);
    }
}

} // verus!
