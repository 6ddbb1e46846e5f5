//! The access-token cache and the types around it.

pub mod access_token;
pub mod coordination;
pub mod guarantees;
pub mod memory_storage;
pub mod token_storage;
pub mod token_type;

pub use access_token::{is_token_expired, AccessToken, AccessTokenBuilder, Timestamp};
pub use memory_storage::{MemoryTokenStorage, TokenType};
pub use token_storage::{Action, Event, Phase};
pub use token_type::{NonStableToken, RemoteToken, StableToken, TokenFlavour};

use vstd::prelude::*;
use crate::client::memory_storage::{served, StorageModel};
use crate::client::token_storage::outcome_view;
use crate::error::{Error, ErrorKind};
use crate::utils::http::{
    answered, Exchange, HttpClient, HttpRequest, observation, observe,
};

verus! {

/// The identity of a mini-program: its application id and secret. Both are
/// secrets, and the type has no debug output.
#[derive(Clone)]
pub struct AppConfig {
    pub app_id: String,
    pub secret: String,
}

/// Whether an operation that ended with `r` asked the token cache for the
/// access token exactly once on the way from `before` to `after`, and gave
/// up with the cache's failure where the cache failed.
pub open spec fn asked_for_token<T>(before: StorageModel, after: StorageModel, r: Result<T, Error>) -> bool {
    exists|now: Timestamp, outcome: Result<Seq<char>, (ErrorKind, Seq<char>)>|
        #![trigger served(before, after, now@, outcome)]
        served(before, after, now@, outcome) && (outcome matches Err(e) ==> (r matches Err(
            failure,
        ) && failure@ == e))
}

/// The entry point of the library for callers that come one after another:
/// a client that reaches the remote, and the token cache in front of it.
pub struct WechatMinappSDK<C: HttpClient> {
    token_storage: MemoryTokenStorage<RemoteToken<C>>,
}

impl<C: HttpClient> View for WechatMinappSDK<C> {
    type V = StorageModel;

    /// What the token cache holds.
    closed spec fn view(&self) -> StorageModel {
        self.token_storage@
    }
}

impl<C: HttpClient> WechatMinappSDK<C> {
    /// Whether the token cache is at rest: nobody holds the refresher role.
    pub open spec fn wf(&self) -> bool {
        !self@.refreshing
    }

    /// The client that reaches the remote.
    pub closed spec fn spec_client(&self) -> C {
        self.token_storage.spec_token_type().client
    }

    /// The application id and the secret of the mini-program.
    pub closed spec fn identity(&self) -> (Seq<char>, Seq<char>) {
        self.token_storage.spec_token_type().flavour.identity()
    }

    /// The entry point for the application `app_id`, with the stable token
    /// and an empty cache.
    pub fn new(app_id: &str, secret: &str, client: C) -> (sdk: WechatMinappSDK<C>)
        ensures
            sdk.wf(),
            sdk@.credential.token == Seq::<char>::empty(),
            sdk@.transport_calls == 0,
            sdk.identity() == (app_id@, secret@),
    {
        WechatMinappSDK {
            token_storage: MemoryTokenStorage::new(
                RemoteToken::stable(app_id, secret, false, client),
            ),
        }
    }

    /// The entry point around a token cache prepared elsewhere.
    pub fn custom(token_storage: MemoryTokenStorage<RemoteToken<C>>) -> (sdk: WechatMinappSDK<C>)
        requires
            token_storage.wf(),
        ensures
            sdk.wf(),
            sdk@ == token_storage@,
            sdk.identity() == token_storage.spec_token_type().flavour.identity(),
    {
        WechatMinappSDK { token_storage }
    }

    /// The access token, refreshed first where the cached one is stale. The
    /// instant is read from the system clock, so the contract speaks of some
    /// instant.
    pub fn token(&mut self) -> (r: Result<String, Error>)
        requires
            old(self).wf(),
        ensures
            exists|now: Timestamp| served(old(self)@, final(self)@, now@, outcome_view(r)),
            final(self).identity() == old(self).identity(),
    {
        self.token_storage.token()
    }

    /// How often the token endpoint has been asked.
    pub fn transport_calls(&self) -> (calls: u64)
        ensures
            calls == self@.transport_calls,
    {
        self.token_storage.transport_calls()
    }

    /// The identity of the mini-program.
    pub fn app_config(&self) -> (config: AppConfig)
        ensures
            (config.app_id@, config.secret@) == self.identity(),
    {
        self.token_storage.token_type().flavour.app_config()
    }

    /// Sends `request` over the client and reports what was observed: the
    /// client is handed `request` as it is, and what comes back is read by
    /// the rules of [`observe`]. The token cache is not involved.
    pub fn exchange(&self, request: HttpRequest) -> (observed: Exchange<Vec<u8>>)
        ensures
            answered(self.spec_client(), request@, observation(observed)),
    {
        let reply = self.token_storage.token_type().client.execute(request);
        proof {
            assert(call_ensures(C::execute, (&self.spec_client(), request), reply));
        }
        observe(reply)
    }
}

} // verus!
