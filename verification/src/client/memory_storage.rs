//! The token cache for callers that come one after another.
//!
//! [`MemoryTokenStorage`] owns the credential, the refresher flag and the
//! strategy that obtains a new credential, and walks a caller through the
//! protocol of [`token_storage`](crate::client::token_storage) in one call.
//! Exclusive ownership stands in for the locks: between two calls nobody
//! holds the refresher role.

use vstd::prelude::*;
use crate::client::AppConfig;
use crate::client::access_token::{AccessToken, Credential, expired, Timestamp};
use crate::client::token_storage::{Event, outcome_view, Phase, PhaseModel};
use crate::error::{Error, ErrorKind};

verus! {

/// A strategy that obtains a new credential: the standard token, the stable
/// token, or whatever a user of the library supplies.
pub trait TokenType {
    /// Asks for a new credential. Nothing is promised of the answer: it is
    /// the remote's.
    fn token(&self) -> Result<AccessToken, Error>;

    /// The identity on whose behalf the credential is asked for.
    fn app_config(&self) -> AppConfig;
}

/// The token cache in memory.
pub struct MemoryTokenStorage<T: TokenType> {
    access_token: AccessToken,
    refreshing: bool,
    transport_calls: u64,
    token_type: T,
}

/// What a token cache holds, mathematically.
pub struct StorageModel {
    /// The stored credential.
    pub credential: Credential,
    /// Whether a caller holds the refresher role.
    pub refreshing: bool,
    /// How often the transport has been asked, as far as a counter of 64
    /// bits can tell.
    pub transport_calls: u64,
}

impl<T: TokenType> View for MemoryTokenStorage<T> {
    type V = StorageModel;

    closed spec fn view(&self) -> StorageModel {
        StorageModel {
            credential: self.access_token@,
            refreshing: self.refreshing,
            transport_calls: self.transport_calls,
        }
    }
}

/// What a refresh under exclusive access does at the instant `now`: a
/// credential that is fresh after all is handed out as it is; otherwise the
/// transport was asked, and either the token handed out is the token of the
/// credential now stored, or the failure is handed out and the stored
/// credential is what it was.
pub open spec fn refreshed(
    before: Credential,
    after: Credential,
    now: int,
    outcome: Result<Seq<char>, (ErrorKind, Seq<char>)>,
) -> bool {
    if !expired(before, now) {
        after == before && outcome == Ok::<Seq<char>, (ErrorKind, Seq<char>)>(before.token)
    } else {
        match outcome {
            Ok(token) => after.token == token,
            Err(_) => after == before,
        }
    }
}

/// The count that follows `calls`: one more, unless the counter is full.
pub open spec fn counted(calls: u64) -> u64 {
    if calls < u64::MAX {
        (calls + 1) as u64
    } else {
        calls
    }
}

/// Whether the transport was asked exactly as the expiry policy demands on
/// the way from `before` to `after`: not at all where the credential was
/// fresh at `now`, and once where it was stale.
pub open spec fn asked(before: StorageModel, after: StorageModel, now: int) -> bool {
    after.transport_calls == if expired(before.credential, now) {
        counted(before.transport_calls)
    } else {
        before.transport_calls
    }
}

/// What asking the cache for a token at the instant `now` does when nobody
/// holds the refresher role: the same as a refresh under exclusive access,
/// the transport asked once if the credential was stale and not at all if it
/// was fresh, and the role is free again afterwards, whether the refresh
/// succeeded or failed.
pub open spec fn served(
    before: StorageModel,
    after: StorageModel,
    now: int,
    outcome: Result<Seq<char>, (ErrorKind, Seq<char>)>,
) -> bool {
    &&& !after.refreshing
    &&& refreshed(before.credential, after.credential, now, outcome)
    &&& asked(before, after, now)
}

impl<T: TokenType> MemoryTokenStorage<T> {
    /// Whether the cache is at rest: nobody holds the refresher role.
    pub open spec fn wf(&self) -> bool {
        !self@.refreshing
    }

    /// The strategy of this cache.
    pub closed spec fn spec_token_type(&self) -> T {
        self.token_type
    }

    /// A cache that holds the placeholder credential: no token, expired from
    /// the present instant on, so that the first caller refreshes.
    pub fn new(token_type: T) -> (storage: MemoryTokenStorage<T>)
        ensures
            storage.wf(),
            storage@.credential.token == Seq::<char>::empty(),
            storage@.transport_calls == 0,
            storage.spec_token_type() == token_type,
    {
        Self::starting_at(token_type, Timestamp::now())
    }

    /// A cache that holds the placeholder credential of the instant `now`.
    pub fn starting_at(token_type: T, now: Timestamp) -> (storage: MemoryTokenStorage<T>)
        ensures
            storage.wf(),
            storage@.credential == (Credential { token: Seq::<char>::empty(), expires_at: now@ }),
            storage@.transport_calls == 0,
            storage.spec_token_type() == token_type,
    {
        MemoryTokenStorage {
            access_token: AccessToken::placeholder(now),
            refreshing: false,
            transport_calls: 0,
            token_type,
        }
    }

    /// The strategy of this cache.
    pub fn token_type(&self) -> (token_type: &T)
        ensures
            *token_type == self.spec_token_type(),
    {
        &self.token_type
    }

    /// How often the transport has been asked.
    pub fn transport_calls(&self) -> (calls: u64)
        ensures
            calls == self@.transport_calls,
    {
        self.transport_calls
    }

    /// The stored credential.
    pub fn access_token(&self) -> (credential: &AccessToken)
        ensures
            credential@ == self@.credential,
    {
        &self.access_token
    }

    /// Hands out the token at the instant `now`, refreshing the credential
    /// first where it is stale.
    pub fn token_at(&mut self, now: Timestamp) -> (r: Result<String, Error>)
        requires
            old(self).wf(),
        ensures
            served(old(self)@, final(self)@, now@, outcome_view(r)),
            final(self).spec_token_type() == old(self).spec_token_type(),
    {
        let phase = Phase::start();
        let phase = phase.advance(Event::Snapshot { credential: self.access_token.duplicate(), now });
        if let Phase::Done { outcome } = phase {
            return outcome;
        }
        let won = !self.refreshing;
        self.refreshing = true;
        let phase = phase.advance(Event::Claim { won });
        assert(phase@ == PhaseModel::Refresher);
        let outcome = self.refresh_from(phase, now);
        self.refreshing = false;
        outcome
    }

    /// Hands out the token, refreshing the credential first where it is
    /// stale. The instant is read from the system clock, so the contract
    /// speaks of some instant.
    pub fn token(&mut self) -> (r: Result<String, Error>)
        requires
            old(self).wf(),
        ensures
            exists|now: Timestamp| served(old(self)@, final(self)@, now@, outcome_view(r)),
            final(self).spec_token_type() == old(self).spec_token_type(),
    {
        let now = Timestamp::now();
        self.token_at(now)
    }

    /// Refreshes the credential at the instant `now` on behalf of a caller
    /// that holds the refresher role: looks at the credential once more, and
    /// asks the transport only if it is still stale. The flag is not touched.
    pub fn refresh_access_token_at(&mut self, now: Timestamp) -> (r: Result<String, Error>)
        ensures
            refreshed(old(self)@.credential, final(self)@.credential, now@, outcome_view(r)),
            asked(old(self)@, final(self)@, now@),
            final(self)@.refreshing == old(self)@.refreshing,
            final(self).spec_token_type() == old(self).spec_token_type(),
    {
        self.refresh_from(Phase::refresher(), now)
    }

    /// Refreshes the credential on behalf of a caller that holds the
    /// refresher role, at the present instant.
    pub fn refresh_access_token(&mut self) -> (r: Result<String, Error>)
        ensures
            exists|now: Timestamp|
                refreshed(old(self)@.credential, final(self)@.credential, now@, outcome_view(r))
                    && asked(old(self)@, final(self)@, now@),
            final(self)@.refreshing == old(self)@.refreshing,
            final(self).spec_token_type() == old(self).spec_token_type(),
    {
        let now = Timestamp::now();
        self.refresh_access_token_at(now)
    }

    /// Takes in what the transport answered to a refresh: a credential is
    /// stored whole, in place of the old one, and its token handed out; a
    /// failure is handed out and the stored credential stays what it was.
    /// Neither the flag nor the count of calls is touched.
    pub fn settle(&mut self, reply: Result<AccessToken, Error>) -> (r: Result<String, Error>)
        ensures
            reply matches Ok(credential) ==> final(self)@.credential == credential@
                && outcome_view(r) == Ok::<Seq<char>, (ErrorKind, Seq<char>)>(credential@.token),
            reply matches Err(e) ==> final(self)@.credential == old(self)@.credential
                && outcome_view(r) == Err::<Seq<char>, (ErrorKind, Seq<char>)>(e@),
            final(self)@.refreshing == old(self)@.refreshing,
            final(self)@.transport_calls == old(self)@.transport_calls,
            final(self).spec_token_type() == old(self).spec_token_type(),
    {
        let phase = (Phase::InFlight).advance(Event::Transport { reply });
        match phase {
            Phase::Releasing { store, outcome } => {
                if let Some(credential) = store {
                    self.access_token = credential;
                }
                outcome
            },
            _ => {
                // The protocol allows no other phase here.
                proof {
                    assert(false);
                }
                Err(Error::InternalServer(String::new()))
            },
        }
    }

    /// Walks a caller that holds the refresher role through the rest of the
    /// protocol: exclusive access, the second look, the transport, the store.
    fn refresh_from(&mut self, phase: Phase, now: Timestamp) -> (r: Result<String, Error>)
        requires
            phase@ == PhaseModel::Refresher,
        ensures
            refreshed(old(self)@.credential, final(self)@.credential, now@, outcome_view(r)),
            asked(old(self)@, final(self)@, now@),
            final(self)@.refreshing == old(self)@.refreshing,
            final(self).spec_token_type() == old(self).spec_token_type(),
    {
        let phase = phase.advance(
            Event::Exclusive { credential: self.access_token.duplicate(), now },
        );
        match phase {
            Phase::InFlight => {
                if self.transport_calls < u64::MAX {
                    self.transport_calls = self.transport_calls + 1;
                }
                let reply = self.token_type.token();
                self.settle(reply)
            },
            Phase::Releasing { store, outcome } => outcome,
            _ => {
                // The protocol allows no other phase here.
                proof {
                    assert(false);
                }
                Err(Error::InternalServer(String::new()))
            },
        }
    }
}

} // verus!
