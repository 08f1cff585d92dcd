use vstd::prelude::*;
use crate::telemetry::{AttitudeWire, Inbound, Kind, PositionWire};

verus! {

/// Pause between keepalive sends after a successful send, in milliseconds.
pub const KEEPALIVE_PERIOD_MS: u64 = 1000;

/// Pause of the ingestion loop when no message is available, in milliseconds.
pub const RECEIVE_BACKOFF_MS: u64 = 10;

/// True when the session must stop: its run budget is spent or the external
/// stop signal has been seen.
pub open spec fn stop_spec(elapsed_ms: u64, budget_ms: u64, stop_flag: bool) -> bool {
    elapsed_ms >= budget_ms || stop_flag
}

/// The stop predicate of the ingestion loop.
pub fn should_stop(elapsed_ms: u64, budget_ms: u64, stop_flag: bool) -> (r: bool)
    ensures
        r == stop_spec(elapsed_ms, budget_ms, stop_flag),
{
    elapsed_ms >= budget_ms || stop_flag
}

/// How long the keepalive driver waits before its next send: a full period
/// after a send that went through, none after one that failed.
pub fn keepalive_delay_ms(last_send_ok: bool) -> (r: u64)
    ensures
        r == if last_send_ok { KEEPALIVE_PERIOD_MS } else { 0 },
{
    if last_send_ok {
        KEEPALIVE_PERIOD_MS
    } else {
        0
    }
}

/// The most recent message of each kind of interest.
#[derive(Clone, Copy, Debug, PartialEq, Eq, Structural)]
pub struct Latest {
    pub attitude: Option<AttitudeWire>,
    pub position: Option<PositionWire>,
}

impl Latest {
    /// Slots with nothing received yet.
    pub fn new() -> (r: Latest)
        ensures
            r.attitude is None,
            r.position is None,
    {
        Latest { attitude: None, position: None }
    }

    /// Keeps `m` in the slot of its kind, replacing what was there; a message
    /// of another kind changes nothing.
    pub fn record(&mut self, m: &Inbound)
        ensures
            match *m {
                Inbound::Attitude(w) => *final(self) == (Latest { attitude: Some(w), ..*old(self) }),
                Inbound::Position(w) => *final(self) == (Latest { position: Some(w), ..*old(self) }),
                Inbound::Other(_) => *final(self) == *old(self),
            },
    {
        match m {
            Inbound::Attitude(w) => {
                self.attitude = Some(*w);
            },
            Inbound::Position(w) => {
                self.position = Some(*w);
            },
            Inbound::Other(_) => {},
        }
    }
}

/// The phases of a session, in the only order in which they are entered.
#[derive(Clone, Copy, Debug, PartialEq, Eq, Structural)]
pub enum Phase {
    Idle,
    Handshaking,
    Armed,
    Running,
    Disarming,
    Closed,
}

/// What the driver of the session reports back to the controller.
#[derive(Clone, Copy, Debug, PartialEq, Eq, Structural)]
pub enum Event {
    /// The transport is connected and its protocol version was accepted.
    Connected,
    /// The last send went through.
    Sent,
    /// The last send failed.
    SendFailed,
    /// Top of an ingestion iteration: time spent running and the stop flag.
    Tick { elapsed_ms: u64, stop_flag: bool },
    /// A message of the given kind was received.
    Received(Kind),
    /// No message was available.
    NothingAvailable,
    /// Receiving failed for another reason.
    TransportFailed,
    /// A message handed to a decoder could not be decoded: a fault of the
    /// session, which ends the loop.
    DecodeFailed,
}

/// What the controller asks its driver to do next.
#[derive(Clone, Copy, Debug, PartialEq, Eq, Structural)]
pub enum Action {
    SendParamRequest,
    SendStreamRequest,
    /// Start the keepalive driver, then send the arm command.
    StartKeepaliveThenArm,
    /// Report the elapsed run time and the stop flag (`Event::Tick`).
    CheckStop,
    /// Receive one message.
    Receive,
    /// Hand the latest message of this kind to its decoder, or drop the
    /// message just received when the kind is `Ignored`; then check the stop
    /// predicate again, or report `Event::DecodeFailed`.
    Dispatch(Kind),
    /// Wait this many milliseconds, then check the stop predicate again.
    Backoff(u64),
    SendDisarm,
    /// The handshake failed: end the session without arming.
    Abort,
    /// The session is over; `disarmed` tells whether the disarm went out.
    Exit { disarmed: bool },
    /// The event does not apply in this phase; nothing to do.
    Ignore,
}

/// The session lifecycle controller.
#[derive(Clone, Copy, Debug, PartialEq, Eq, Structural)]
pub struct Controller {
    pub phase: Phase,
    /// Requests of the handshake already sent (0 or 1).
    pub handshake_sent: u8,
    /// Run budget in milliseconds.
    pub budget_ms: u64,
    /// Disarm commands issued so far.
    pub disarms: u64,
    /// Whether the session has entered `Running`.
    pub ran: bool,
}

impl Controller {
    /// The invariant of a controller: no disarm before the loop ends, exactly
    /// one once a session that ran has left it, none for a session that was
    /// aborted during the handshake.
    pub open spec fn wf(self) -> bool {
        &&& self.handshake_sent <= 1
        &&& self.disarms <= 1
        &&& match self.phase {
            Phase::Idle | Phase::Handshaking | Phase::Armed => !self.ran && self.disarms == 0,
            Phase::Running => self.ran && self.disarms == 0,
            Phase::Disarming => self.ran && self.disarms == 1,
            Phase::Closed => self.disarms == (if self.ran { 1u64 } else { 0u64 }),
        }
    }

    /// The controller with `phase` and otherwise `self`'s fields.
    pub open spec fn enter(self, phase: Phase) -> Controller {
        Controller { phase, ..self }
    }

    /// One step of the controller: the next state and the action to take.
    pub open spec fn step_spec(self, e: Event) -> (Controller, Action) {
        match (self.phase, e) {
            (Phase::Idle, Event::Connected) => (
                Controller { phase: Phase::Handshaking, handshake_sent: 0, ..self },
                Action::SendParamRequest,
            ),
            (Phase::Handshaking, Event::Sent) => if self.handshake_sent == 0 {
                (Controller { handshake_sent: 1, ..self }, Action::SendStreamRequest)
            } else {
                (self.enter(Phase::Armed), Action::StartKeepaliveThenArm)
            },
            (Phase::Handshaking, Event::SendFailed) => (self.enter(Phase::Closed), Action::Abort),
            (Phase::Armed, Event::Sent) => (
                Controller { phase: Phase::Running, ran: true, ..self },
                Action::CheckStop,
            ),
            (Phase::Armed, Event::SendFailed) => (self.enter(Phase::Closed), Action::Abort),
            (Phase::Running, Event::Tick { elapsed_ms, stop_flag }) => if stop_spec(
                elapsed_ms,
                self.budget_ms,
                stop_flag,
            ) {
                (self.disarm_spec(), Action::SendDisarm)
            } else {
                (self, Action::Receive)
            },
            (Phase::Running, Event::Received(k)) => (self, Action::Dispatch(k)),
            (Phase::Running, Event::NothingAvailable) => (self, Action::Backoff(
                RECEIVE_BACKOFF_MS,
            )),
            (Phase::Running, Event::TransportFailed) => (self.disarm_spec(), Action::SendDisarm),
            (Phase::Running, Event::DecodeFailed) => (self.disarm_spec(), Action::SendDisarm),
            (Phase::Disarming, Event::Sent) => (
                self.enter(Phase::Closed),
                Action::Exit { disarmed: true },
            ),
            (Phase::Disarming, Event::SendFailed) => (
                self.enter(Phase::Closed),
                Action::Exit { disarmed: false },
            ),
            _ => (self, Action::Ignore),
        }
    }

    /// The controller once it has issued the disarm command.
    pub open spec fn disarm_spec(self) -> Controller {
        Controller { phase: Phase::Disarming, disarms: (self.disarms + 1) as u64, ..self }
    }

    /// A controller in `Idle` with the given run budget.
    pub fn new(budget_ms: u64) -> (r: Controller)
        ensures
            r.wf(),
            r == (Controller { phase: Phase::Idle, handshake_sent: 0, budget_ms, disarms: 0, ran: false }),
    {
        Controller { phase: Phase::Idle, handshake_sent: 0, budget_ms, disarms: 0, ran: false }
    }

    /// Moves the controller on by one event and returns the action to take.
    pub fn step(&mut self, e: Event) -> (a: Action)
        requires
            old(self).wf(),
        ensures
            final(self).wf(),
            (*final(self), a) == old(self).step_spec(e),
    {
        match (self.phase, e) {
            (Phase::Idle, Event::Connected) => {
                self.phase = Phase::Handshaking;
                self.handshake_sent = 0;
                Action::SendParamRequest
            },
            (Phase::Handshaking, Event::Sent) => {
                if self.handshake_sent == 0 {
                    self.handshake_sent = 1;
                    Action::SendStreamRequest
                } else {
                    self.phase = Phase::Armed;
                    Action::StartKeepaliveThenArm
                }
            },
            (Phase::Handshaking, Event::SendFailed) | (Phase::Armed, Event::SendFailed) => {
                self.phase = Phase::Closed;
                Action::Abort
            },
            (Phase::Armed, Event::Sent) => {
                self.phase = Phase::Running;
                self.ran = true;
                Action::CheckStop
            },
            (Phase::Running, Event::Tick { elapsed_ms, stop_flag }) => {
                if should_stop(elapsed_ms, self.budget_ms, stop_flag) {
                    self.phase = Phase::Disarming;
                    self.disarms = self.disarms + 1;
                    Action::SendDisarm
                } else {
                    Action::Receive
                }
            },
            (Phase::Running, Event::Received(k)) => Action::Dispatch(k),
            (Phase::Running, Event::NothingAvailable) => Action::Backoff(RECEIVE_BACKOFF_MS),
            (Phase::Running, Event::TransportFailed) | (Phase::Running, Event::DecodeFailed) => {
                self.phase = Phase::Disarming;
                self.disarms = self.disarms + 1;
                Action::SendDisarm
            },
            (Phase::Disarming, Event::Sent) => {
                self.phase = Phase::Closed;
                Action::Exit { disarmed: true }
            },
            (Phase::Disarming, Event::SendFailed) => {
                self.phase = Phase::Closed;
                Action::Exit { disarmed: false }
            },
            _ => Action::Ignore,
        }
    }
}

/// The state reached and the actions issued when `c` takes the events `evs` in
/// order.
pub open spec fn run_spec(c: Controller, evs: Seq<Event>) -> (Controller, Seq<Action>)
    decreases evs.len(),
{
    if evs.len() == 0 {
        (c, Seq::empty())
    } else {
        let (c1, a) = c.step_spec(evs[0]);
        let (c2, rest) = run_spec(c1, evs.drop_first());
        (c2, seq![a] + rest)
    }
}

/// The number of disarm commands among `acts`.
pub open spec fn disarm_count(acts: Seq<Action>) -> nat
    decreases acts.len(),
{
    if acts.len() == 0 {
        0
    } else {
        (if acts[0] == Action::SendDisarm { 1nat } else { 0nat }) + disarm_count(acts.drop_first())
    }
}

proof fn lemma_step_counts(c: Controller, e: Event)
    requires
        c.wf(),
    ensures
        c.step_spec(e).0.wf(),
        c.step_spec(e).0.budget_ms == c.budget_ms,
        c.step_spec(e).0.disarms == c.disarms + (if c.step_spec(e).1 == Action::SendDisarm {
            1int
        } else {
            0int
        }),
        c.ran ==> c.step_spec(e).0.ran,
{
}

proof fn lemma_run_counts(c: Controller, evs: Seq<Event>)
    requires
        c.wf(),
    ensures
        run_spec(c, evs).0.wf(),
        run_spec(c, evs).0.disarms == c.disarms + disarm_count(run_spec(c, evs).1),
    decreases evs.len(),
{
    if evs.len() > 0 {
        let (c1, a) = c.step_spec(evs[0]);
        lemma_step_counts(c, evs[0]);
        lemma_run_counts(c1, evs.drop_first());
        let rest = run_spec(c1, evs.drop_first()).1;
        let acts = seq![a] + rest;
        assert(acts[0] == a);
        assert(acts.drop_first() =~= rest);
    }
}

/// Whatever events a session goes through, it issues at most one disarm
/// command; and a session that reached `Running` and has closed issued
/// exactly one.
pub proof fn lemma_disarm_exactly_once(budget_ms: u64, evs: Seq<Event>)
    ensures
        ({
            let (c, acts) = run_spec(
                Controller { phase: Phase::Idle, handshake_sent: 0, budget_ms, disarms: 0, ran: false },
                evs,
            );
            &&& disarm_count(acts) <= 1
            &&& (c.ran && c.phase == Phase::Closed ==> disarm_count(acts) == 1)
            &&& (c.ran && c.phase == Phase::Disarming ==> disarm_count(acts) == 1)
            &&& (!c.ran ==> disarm_count(acts) == 0)
        }),
{
    let c0 = Controller { phase: Phase::Idle, handshake_sent: 0, budget_ms, disarms: 0, ran: false };
    lemma_run_counts(c0, evs);
}

/// A running session that sees the stop signal at the top of an iteration
/// leaves `Running` at that iteration and issues the disarm command, whatever
/// the time spent.
pub proof fn lemma_stop_signal_disarms(c: Controller, elapsed_ms: u64)
    requires
        c.wf(),
        c.phase == Phase::Running,
    ensures
        c.step_spec(Event::Tick { elapsed_ms, stop_flag: true }) == (
            Controller { phase: Phase::Disarming, disarms: 1, ..c },
            Action::SendDisarm,
        ),
{
}

/// With a run budget of zero a running session stops at its first check, with
/// no stop signal, and issues the disarm command: the loop body never runs.
pub proof fn lemma_zero_budget_disarms(c: Controller, elapsed_ms: u64)
    requires
        c.wf(),
        c.phase == Phase::Running,
        c.budget_ms == 0,
    ensures
        c.step_spec(Event::Tick { elapsed_ms, stop_flag: false }) == (
            Controller { phase: Phase::Disarming, disarms: 1, ..c },
            Action::SendDisarm,
        ),
{
}

/// Once running, only a disarm command leads out of `Running`: every step
/// either stays in `Running` or issues the disarm and enters `Disarming`.
pub proof fn lemma_running_exits_through_disarm(c: Controller, e: Event)
    requires
        c.wf(),
        c.phase == Phase::Running,
    ensures
        c.step_spec(e).0.phase == Phase::Running || (c.step_spec(e).0.phase == Phase::Disarming
            && c.step_spec(e).1 == Action::SendDisarm),
{
}

} // verus!
