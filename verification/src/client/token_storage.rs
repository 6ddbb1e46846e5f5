//! The refresh protocol that one caller of the token cache follows.
//!
//! Asking the cache for a token alternates decisions with work that only the
//! surrounding runtime can do: reading the stored credential under shared
//! access, a compare-and-set on the refresher flag, taking exclusive access,
//! the network exchange, parking until woken. The decisions live here, as a
//! function from the caller's phase and the outcome of the last piece of work
//! to the next phase; [`Phase::action`] names the work that a phase waits for.

use vstd::prelude::*;
use crate::client::access_token::{AccessToken, Credential, expired, Timestamp};
use crate::error::{Error, ErrorKind};

verus! {

/// What a finished caller is handed, as mathematics: the token's characters,
/// or the class of the failure and its message.
pub open spec fn outcome_view(outcome: Result<String, Error>) -> Result<
    Seq<char>,
    (ErrorKind, Seq<char>),
> {
    match outcome {
        Ok(token) => Ok(token@),
        Err(e) => Err(e@),
    }
}

/// What the transport delivered, as mathematics.
pub open spec fn reply_view(reply: Result<AccessToken, Error>) -> Result<
    Credential,
    (ErrorKind, Seq<char>),
> {
    match reply {
        Ok(credential) => Ok(credential@),
        Err(e) => Err(e@),
    }
}

/// The view of an optional credential.
pub open spec fn store_view(store: Option<AccessToken>) -> Option<Credential> {
    match store {
        Some(credential) => Some(credential@),
        None => None,
    }
}

/// Where one caller stands in the protocol.
pub enum Phase {
    /// Nothing has happened yet: the stored credential is to be read under
    /// shared access.
    Start,
    /// The stored credential was stale: the refresher role is to be claimed.
    Contending,
    /// The claim was won: exclusive access is to be taken and the credential
    /// looked at once more.
    Refresher,
    /// Exclusive access is held and the credential is still stale: the
    /// transport is to be asked.
    InFlight,
    /// The result is known. What is left is to store the new credential, if
    /// there is one, and to give up exclusive access and the role.
    Releasing { store: Option<AccessToken>, outcome: Result<String, Error> },
    /// The claim was lost: the caller parks until the refresher wakes it.
    Waiting,
    /// The caller is finished and returns `outcome`.
    Done { outcome: Result<String, Error> },
}

/// The mathematical counterpart of [`Phase`].
pub enum PhaseModel {
    Start,
    Contending,
    Refresher,
    InFlight,
    Releasing { store: Option<Credential>, outcome: Result<Seq<char>, (ErrorKind, Seq<char>)> },
    Waiting,
    Done { outcome: Result<Seq<char>, (ErrorKind, Seq<char>)> },
}

impl View for Phase {
    type V = PhaseModel;

    open spec fn view(&self) -> PhaseModel {
        match *self {
            Phase::Start => PhaseModel::Start,
            Phase::Contending => PhaseModel::Contending,
            Phase::Refresher => PhaseModel::Refresher,
            Phase::InFlight => PhaseModel::InFlight,
            Phase::Releasing { store, outcome } => PhaseModel::Releasing {
                store: store_view(store),
                outcome: outcome_view(outcome),
            },
            Phase::Waiting => PhaseModel::Waiting,
            Phase::Done { outcome } => PhaseModel::Done { outcome: outcome_view(outcome) },
        }
    }
}

/// The outcome of the work that a phase waited for.
pub enum Event {
    /// The stored credential as read under shared access, and the instant of
    /// the read.
    Snapshot { credential: AccessToken, now: Timestamp },
    /// Whether the compare-and-set on the refresher flag succeeded.
    Claim { won: bool },
    /// The stored credential as found under exclusive access, and the instant.
    Exclusive { credential: AccessToken, now: Timestamp },
    /// What the transport answered.
    Transport { reply: Result<AccessToken, Error> },
    /// The new credential, if any, is stored, exclusive access and the role are
    /// given up, and every parked caller has been woken.
    Released,
    /// The caller was woken; the stored credential as read after that.
    Woken { credential: AccessToken },
}

/// The mathematical counterpart of [`Event`].
pub enum EventModel {
    Snapshot { credential: Credential, now: int },
    Claim { won: bool },
    Exclusive { credential: Credential, now: int },
    Transport { reply: Result<Credential, (ErrorKind, Seq<char>)> },
    Released,
    Woken { credential: Credential },
}

impl View for Event {
    type V = EventModel;

    open spec fn view(&self) -> EventModel {
        match *self {
            Event::Snapshot { credential, now } => EventModel::Snapshot {
                credential: credential@,
                now: now@,
            },
            Event::Claim { won } => EventModel::Claim { won },
            Event::Exclusive { credential, now } => EventModel::Exclusive {
                credential: credential@,
                now: now@,
            },
            Event::Transport { reply } => EventModel::Transport { reply: reply_view(reply) },
            Event::Released => EventModel::Released,
            Event::Woken { credential } => EventModel::Woken { credential: credential@ },
        }
    }
}

/// The work that the runtime does on behalf of a caller.
pub enum Action {
    /// Read the stored credential under shared access and report
    /// [`Event::Snapshot`].
    ReadShared,
    /// Try to move the refresher flag from clear to set and report
    /// [`Event::Claim`].
    Claim,
    /// Take exclusive access to the stored credential and report
    /// [`Event::Exclusive`].
    LockExclusive,
    /// Ask the transport for a new credential, still holding exclusive access,
    /// and report [`Event::Transport`].
    CallTransport,
    /// Store `store` if there is one, give up exclusive access, clear the
    /// refresher flag, wake every parked caller, and report
    /// [`Event::Released`].
    Release { store: Option<AccessToken> },
    /// Park until woken, then read the stored credential under shared access
    /// and report [`Event::Woken`].
    Park,
    /// Return `outcome` to whoever asked for the token.
    Finish { outcome: Result<String, Error> },
}

/// The mathematical counterpart of [`Action`].
pub enum ActionModel {
    ReadShared,
    Claim,
    LockExclusive,
    CallTransport,
    Release { store: Option<Credential> },
    Park,
    Finish { outcome: Result<Seq<char>, (ErrorKind, Seq<char>)> },
}

impl View for Action {
    type V = ActionModel;

    open spec fn view(&self) -> ActionModel {
        match *self {
            Action::ReadShared => ActionModel::ReadShared,
            Action::Claim => ActionModel::Claim,
            Action::LockExclusive => ActionModel::LockExclusive,
            Action::CallTransport => ActionModel::CallTransport,
            Action::Release { store } => ActionModel::Release { store: store_view(store) },
            Action::Park => ActionModel::Park,
            Action::Finish { outcome } => ActionModel::Finish { outcome: outcome_view(outcome) },
        }
    }
}

/// The protocol of one caller: the phase that follows `phase` once `event`
/// has been reported. An event that the phase did not wait for changes
/// nothing.
pub open spec fn step(phase: PhaseModel, event: EventModel) -> PhaseModel {
    match (phase, event) {
        (PhaseModel::Start, EventModel::Snapshot { credential, now }) => {
            if expired(credential, now) {
                PhaseModel::Contending
            } else {
                PhaseModel::Done { outcome: Ok(credential.token) }
            }
        },
        (PhaseModel::Contending, EventModel::Claim { won }) => {
            if won {
                PhaseModel::Refresher
            } else {
                PhaseModel::Waiting
            }
        },
        (PhaseModel::Refresher, EventModel::Exclusive { credential, now }) => {
            if expired(credential, now) {
                PhaseModel::InFlight
            } else {
                PhaseModel::Releasing { store: None, outcome: Ok(credential.token) }
            }
        },
        (PhaseModel::InFlight, EventModel::Transport { reply }) => {
            match reply {
                Ok(credential) => PhaseModel::Releasing {
                    store: Some(credential),
                    outcome: Ok(credential.token),
                },
                Err(e) => PhaseModel::Releasing { store: None, outcome: Err(e) },
            }
        },
        (PhaseModel::Releasing { store, outcome }, EventModel::Released) => PhaseModel::Done {
            outcome,
        },
        (PhaseModel::Waiting, EventModel::Woken { credential }) => PhaseModel::Done {
            outcome: Ok(credential.token),
        },
        _ => phase,
    }
}

/// The work that a caller in `phase` waits for.
pub open spec fn pending(phase: PhaseModel) -> ActionModel {
    match phase {
        PhaseModel::Start => ActionModel::ReadShared,
        PhaseModel::Contending => ActionModel::Claim,
        PhaseModel::Refresher => ActionModel::LockExclusive,
        PhaseModel::InFlight => ActionModel::CallTransport,
        PhaseModel::Releasing { store, outcome } => ActionModel::Release { store },
        PhaseModel::Waiting => ActionModel::Park,
        PhaseModel::Done { outcome } => ActionModel::Finish { outcome },
    }
}

fn clone_outcome(outcome: &Result<String, Error>) -> (copy: Result<String, Error>)
    ensures
        outcome_view(copy) == outcome_view(*outcome),
{
    match outcome {
        Ok(token) => Ok(token.clone()),
        Err(e) => Err(e.duplicate()),
    }
}

impl Phase {
    /// The phase in which every caller begins.
    pub fn start() -> (phase: Phase)
        ensures
            phase@ == PhaseModel::Start,
    {
        Phase::Start
    }

    /// The phase of a caller that holds the refresher role already and is
    /// about to take exclusive access.
    pub fn refresher() -> (phase: Phase)
        ensures
            phase@ == PhaseModel::Refresher,
    {
        Phase::Refresher
    }

    /// Whether the caller is finished.
    pub fn is_done(&self) -> (done: bool)
        ensures
            done == (self@ is Done),
    {
        match self {
            Phase::Done { .. } => true,
            _ => false,
        }
    }

    /// The work that this phase waits for.
    pub fn action(&self) -> (action: Action)
        ensures
            action@ == pending(self@),
    {
        match self {
            Phase::Start => Action::ReadShared,
            Phase::Contending => Action::Claim,
            Phase::Refresher => Action::LockExclusive,
            Phase::InFlight => Action::CallTransport,
            Phase::Releasing { store, outcome } => {
                match store {
                    Some(credential) => Action::Release { store: Some(credential.duplicate()) },
                    None => Action::Release { store: None },
                }
            },
            Phase::Waiting => Action::Park,
            Phase::Done { outcome } => Action::Finish { outcome: clone_outcome(outcome) },
        }
    }

    /// The phase that follows this one once `event` has been reported.
    pub fn advance(self, event: Event) -> (next: Phase)
        ensures
            next@ == step(self@, event@),
    {
        match (self, event) {
            (Phase::Start, Event::Snapshot { credential, now }) => {
                if credential.is_expired_at(now) {
                    Phase::Contending
                } else {
                    Phase::Done { outcome: Ok(credential.access_token) }
                }
            },
            (Phase::Contending, Event::Claim { won }) => {
                if won {
                    Phase::Refresher
                } else {
                    Phase::Waiting
                }
            },
            (Phase::Refresher, Event::Exclusive { credential, now }) => {
                if credential.is_expired_at(now) {
                    Phase::InFlight
                } else {
                    Phase::Releasing { store: None, outcome: Ok(credential.access_token) }
                }
            },
            (Phase::InFlight, Event::Transport { reply }) => {
                match reply {
                    Ok(credential) => {
                        let token = credential.token();
                        Phase::Releasing { store: Some(credential), outcome: Ok(token) }
                    },
                    Err(e) => Phase::Releasing { store: None, outcome: Err(e) },
                }
            },
            (Phase::Releasing { store, outcome }, Event::Released) => Phase::Done { outcome },
            (Phase::Waiting, Event::Woken { credential }) => Phase::Done {
                outcome: Ok(credential.access_token),
            },
            (phase, _) => phase,
        }
    }
}

} // verus!
