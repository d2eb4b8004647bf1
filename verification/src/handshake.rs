use vstd::prelude::*;
use crate::error::ApplicationError;
use crate::server::{address_text, make_session, ready_text, AppStatusRes, Session};

verus! {

/// How many times the readiness poll re-reads the handshake record before
/// acquisition gives up with a single timeout error.
pub const POLL_ATTEMPT_BUDGET: u32 = 100;

/// How long the poll suspends between attempts, in milliseconds.
pub const POLL_INTERVAL_MS: u64 = 100;

/// What one poll attempt saw: no record yet, a record still missing its
/// port or token, or a complete record together with the health probe's
/// answer (`None` when the probe could not connect).
#[derive(Debug, Clone, PartialEq)]
pub enum PollObservation {
    NoRecord,
    IncompleteRecord,
    Health { port: i32, token: String, health: Option<AppStatusRes> },
}

/// The handshake as an explicit state machine: nothing observed yet, then
/// waiting for a complete record, then waiting for a healthy probe, then
/// established. Probe failures fall back to re-reading the record, so the
/// two pending states can alternate freely.
#[derive(Debug, Clone, PartialEq)]
pub enum HandshakeState {
    Unestablished,
    PendingRecord,
    PendingHealthy,
    Established(Session),
}

/// An observation completes the handshake exactly when the record is
/// complete and the probe reported ready.
pub open spec fn observation_ready(o: PollObservation) -> bool {
    match o {
        PollObservation::Health { health: Some(h), .. } => h.status@ == ready_text(),
        _ => false,
    }
}

/// The session established by a ready observation, characterised by its
/// fields: the loopback address of the observed port, and the observed
/// token.
pub open spec fn establishes(o: PollObservation, s: Session) -> bool {
    match o {
        PollObservation::Health { port, token, .. } => s.address@ == address_text(port as int)
            && s.token == token,
        _ => false,
    }
}

/// One transition of the handshake state machine.
pub open spec fn handshake_next(s: HandshakeState, o: PollObservation, est: Session) -> HandshakeState {
    match s {
        HandshakeState::Established(sess) => HandshakeState::Established(sess),
        _ => if observation_ready(o) {
            HandshakeState::Established(est)
        } else {
            match o {
                PollObservation::Health { .. } => HandshakeState::PendingHealthy,
                _ => HandshakeState::PendingRecord,
            }
        },
    }
}

/// The poll that drives the handshake state machine, counting attempts
/// against the fixed budget.
pub struct HandshakePoll {
    pub state: HandshakeState,
    pub attempts: u32,
}

impl HandshakePoll {
    pub fn new() -> (r: HandshakePoll)
        ensures
            r.state == HandshakeState::Unestablished,
            r.attempts == 0,
    {
        HandshakePoll { state: HandshakeState::Unestablished, attempts: 0 }
    }

    pub fn budget_left(&self) -> (r: bool)
        ensures
            r == (self.attempts < POLL_ATTEMPT_BUDGET),
    {
        self.attempts < POLL_ATTEMPT_BUDGET
    }

    /// Consumes one attempt and advances the state machine on what the
    /// attempt observed; returns the session exactly when this observation
    /// established it.
    pub fn step(&mut self, obs: &PollObservation) -> (r: Option<Session>)
        requires
            old(self).attempts < POLL_ATTEMPT_BUDGET,
            !(old(self).state is Established),
        ensures
            final(self).attempts == old(self).attempts + 1,
            match r {
                Some(s) => observation_ready(*obs) && establishes(*obs, s) && final(self).state
                    == HandshakeState::Established(s),
                None => !observation_ready(*obs) && final(self).state == handshake_next(
                    old(self).state,
                    *obs,
                    arbitrary(),
                ),
            },
    {
        self.attempts = self.attempts + 1;
        match obs {
            PollObservation::NoRecord => {
                self.state = HandshakeState::PendingRecord;
                None
            },
            PollObservation::IncompleteRecord => {
                self.state = HandshakeState::PendingRecord;
                None
            },
            PollObservation::Health { port, token, health } => {
                let ready = match health {
                    Some(h) => {
                        let ready_word: String = "READY".to_owned();
                        h.status == ready_word
                    },
                    None => false,
                };
                if ready {
                    let sess = make_session(*port, token.clone());
                    self.state = HandshakeState::Established(
                        Session { address: sess.address.clone(), token: sess.token.clone() },
                    );
                    Some(sess)
                } else {
                    self.state = HandshakeState::PendingHealthy;
                    None
                }
            },
        }
    }
}

/// The index of the first ready observation (meaningful when one exists).
pub open spec fn first_ready_index(obs: Seq<PollObservation>) -> int
    decreases obs.len(),
{
    if obs.len() == 0 {
        0
    } else if observation_ready(obs[0]) {
        0
    } else {
        1 + first_ready_index(obs.drop_first())
    }
}

/// Whether some observation among the first `n` completes the handshake.
pub open spec fn any_ready_within(obs: Seq<PollObservation>, n: int) -> bool {
    exists|i: int| 0 <= i < n && observation_ready(obs[i])
}

/// How many attempts the poll makes on this script: up to and including the
/// first ready observation, and the whole budget when none is ready.
pub open spec fn poll_attempts_spec(obs: Seq<PollObservation>) -> int {
    if any_ready_within(obs, POLL_ATTEMPT_BUDGET as int) {
        first_ready_index(obs) + 1
    } else {
        POLL_ATTEMPT_BUDGET as int
    }
}

pub proof fn lemma_first_ready_at(obs: Seq<PollObservation>, i: int)
    requires
        0 <= i < obs.len(),
        forall|j: int| 0 <= j < i ==> !observation_ready(obs[j]),
        observation_ready(obs[i]),
    ensures
        first_ready_index(obs) == i,
    decreases i,
{
    if i == 0 {
    } else {
        assert(!observation_ready(obs[0]));
        let rest = obs.drop_first();
        assert forall|j: int| 0 <= j < i - 1 implies !observation_ready(rest[j]) by {
            assert(rest[j] == obs[j + 1]);
        }
        assert(rest[i - 1] == obs[i]);
        lemma_first_ready_at(rest, i - 1);
    }
}

pub proof fn lemma_first_ready_le(obs: Seq<PollObservation>, i: int)
    requires
        0 <= i < obs.len(),
        observation_ready(obs[i]),
    ensures
        0 <= first_ready_index(obs) <= i,
    decreases i,
{
    if observation_ready(obs[0]) {
    } else {
        let rest = obs.drop_first();
        assert(rest[i - 1] == obs[i]);
        lemma_first_ready_le(rest, i - 1);
    }
}

/// The whole readiness poll never makes more attempts than its budget, so
/// acquisition suspends for at most `POLL_ATTEMPT_BUDGET × POLL_INTERVAL_MS`
/// milliseconds before surfacing its one timeout error.
pub proof fn lemma_poll_within_budget(obs: Seq<PollObservation>)
    requires
        obs.len() >= POLL_ATTEMPT_BUDGET as int,
    ensures
        0 < poll_attempts_spec(obs) <= POLL_ATTEMPT_BUDGET as int,
        poll_attempts_spec(obs) * POLL_INTERVAL_MS as int <= POLL_ATTEMPT_BUDGET as int
            * POLL_INTERVAL_MS as int,
{
    if any_ready_within(obs, POLL_ATTEMPT_BUDGET as int) {
        let i = choose|i: int| 0 <= i < POLL_ATTEMPT_BUDGET as int && observation_ready(obs[i]);
        lemma_first_ready_le(obs, i);
    }
}

/// What one whole acquisition poll did: how many attempts it spent, and
/// either the session it established or the one timeout error.
pub struct AcquireReport {
    pub attempts: u32,
    pub result: Result<Session, ApplicationError>,
}

/// Runs the readiness poll over a script of observations, one per attempt.
/// The script must cover the whole budget; attempts past the first ready
/// observation are never looked at. Probe failures inside the loop are
/// absorbed (the poll just continues); only exhausting the budget surfaces
/// an error, and it is a single timeout.
pub fn run_acquire_poll(observations: &Vec<PollObservation>) -> (r: AcquireReport)
    requires
        observations@.len() >= POLL_ATTEMPT_BUDGET as int,
    ensures
        r.attempts == poll_attempts_spec(observations@),
        match r.result {
            Ok(s) => any_ready_within(observations@, POLL_ATTEMPT_BUDGET as int) && establishes(
                observations@[first_ready_index(observations@)],
                s,
            ),
            Err(e) => !any_ready_within(observations@, POLL_ATTEMPT_BUDGET as int) && e.message@
                == "Check connection failed: timed out."@,
        },
{
    let mut poll = HandshakePoll::new();
    let mut i: usize = 0;
    while i < POLL_ATTEMPT_BUDGET as usize
        invariant
            observations@.len() >= POLL_ATTEMPT_BUDGET as int,
            i <= POLL_ATTEMPT_BUDGET,
            poll.attempts == i,
            !(poll.state is Established),
            forall|j: int| 0 <= j < i ==> !observation_ready(observations@[j]),
        decreases POLL_ATTEMPT_BUDGET as int - i,
    {
        let obs = &observations[i];
        let stepped = poll.step(obs);
        match stepped {
            Some(sess) => {
                proof {
                    lemma_first_ready_at(observations@, i as int);
                }
                return AcquireReport { attempts: i as u32 + 1, result: Ok(sess) };
            },
            None => {
            },
        }
        i = i + 1;
    }
    AcquireReport {
        attempts: POLL_ATTEMPT_BUDGET,
        result: Err(ApplicationError::new("Check connection failed: timed out.")),
    }
}

} // verus!
