//! The cached credential and the rule that decides whether it is still usable.

use vstd::prelude::*;
use crate::error::{Error, ErrorKind};

verus! {

/// Nanoseconds in one second.
pub const NANOS_PER_SECOND: i128 = 1_000_000_000;

/// How long before its literal expiry a credential already counts as expired:
/// five minutes, in seconds.
pub const SAFETY_MARGIN_SECONDS: i64 = 300;

/// The safety margin in nanoseconds.
pub open spec fn safety_margin_nanos() -> int {
    300int * 1_000_000_000
}

/// An instant on the UTC time line: whole seconds since the Unix epoch plus a
/// count of nanoseconds on top of them.
#[derive(Debug, Clone, Copy, PartialEq, Eq, Structural)]
pub struct Timestamp {
    pub secs: i64,
    pub nanos: u32,
}

impl View for Timestamp {
    type V = int;

    /// The instant as nanoseconds since the Unix epoch.
    open spec fn view(&self) -> int {
        self.secs * 1_000_000_000 + self.nanos
    }
}

impl Timestamp {
    /// The instant `secs` seconds and `nanos` nanoseconds after the epoch.
    pub fn new(secs: i64, nanos: u32) -> (t: Timestamp)
        ensures
            t.secs == secs,
            t.nanos == nanos,
    {
        Timestamp { secs, nanos }
    }

    /// The instant as nanoseconds since the epoch.
    pub fn as_nanos(&self) -> (n: i128)
        ensures
            n == self@,
    {
        let secs: i128 = self.secs as i128;
        let nanos: i128 = self.nanos as i128;
        secs * NANOS_PER_SECOND + nanos
    }

    /// This instant moved by `seconds`, or `None` where the result cannot be
    /// represented.
    pub fn checked_add_seconds(&self, seconds: i64) -> (r: Option<Timestamp>)
        ensures
            r.is_some() <==> i64::MIN <= self.secs + seconds <= i64::MAX,
            r.is_some() ==> r.unwrap().secs == self.secs + seconds && r.unwrap().nanos
                == self.nanos,
            r.is_some() ==> r.unwrap()@ == self@ + seconds * 1_000_000_000,
    {
        match self.secs.checked_add(seconds) {
            Some(secs) => Some(Timestamp { secs, nanos: self.nanos }),
            None => None,
        }
    }

    /// The current instant, read from the system clock.
    ///
    /// Trusted: calls `chrono::Utc::now` and takes the result apart with
    /// `DateTime::timestamp` and `DateTime::timestamp_subsec_nanos`. Nothing is
    /// claimed of the value: it depends on the clock.
    #[verifier::external_body]
    pub(crate) fn now() -> (t: Timestamp) {
        let now = chrono::Utc::now();
        Timestamp { secs: now.timestamp(), nanos: now.timestamp_subsec_nanos() }
    }
}

/// The bearer credential together with the instant at which it expires.
///
/// The token is a secret. The type has no debug output, so that the token
/// cannot end up in a log by way of a formatted value.
#[derive(Clone)]
pub struct AccessToken {
    pub access_token: String,
    pub expired_at: Timestamp,
}

/// What a credential is, mathematically: its characters and its expiry in
/// nanoseconds since the epoch.
pub struct Credential {
    pub token: Seq<char>,
    pub expires_at: int,
}

impl View for AccessToken {
    type V = Credential;

    open spec fn view(&self) -> Credential {
        Credential { token: self.access_token@, expires_at: self.expired_at@ }
    }
}

/// The expiry policy: a credential counts as expired from five minutes before
/// its expiry instant on. A past expiry gives a negative remainder, which is
/// below the margin as well.
pub open spec fn expired(credential: Credential, now: int) -> bool {
    credential.expires_at - now < safety_margin_nanos()
}

impl AccessToken {
    /// A credential made of `token`, expiring at `expired_at`.
    pub fn new(token: String, expired_at: Timestamp) -> (t: AccessToken)
        ensures
            t.access_token@ == token@,
            t.expired_at == expired_at,
            t@ == (Credential { token: token@, expires_at: expired_at@ }),
    {
        AccessToken { access_token: token, expired_at }
    }

    /// The credential a cache starts with: no token, and an expiry of `now`,
    /// so that it is expired from the first moment.
    pub fn placeholder(now: Timestamp) -> (t: AccessToken)
        ensures
            t@ == (Credential { token: Seq::<char>::empty(), expires_at: now@ }),
            t.expired_at == now,
            forall|later: int| later >= now@ ==> expired(t@, later),
    {
        let t = AccessToken { access_token: String::new(), expired_at: now };
        assert(t.access_token@ =~= Seq::<char>::empty());
        t
    }

    /// Whether this credential counts as expired at the instant `now`.
    pub fn is_expired_at(&self, now: Timestamp) -> (e: bool)
        ensures
            e == expired(self@, now@),
            e == (self.expired_at@ - now@ < 300 * 1_000_000_000),
    {
        let remaining: i128 = self.expired_at.as_nanos() - now.as_nanos();
        let margin: i128 = (SAFETY_MARGIN_SECONDS as i128) * NANOS_PER_SECOND;
        remaining < margin
    }

    /// A copy of this credential, with the same token and expiry.
    pub fn duplicate(&self) -> (copy: AccessToken)
        ensures
            copy@ == self@,
            copy.expired_at == self.expired_at,
    {
        AccessToken { access_token: self.access_token.clone(), expired_at: self.expired_at }
    }

    /// A copy of the token string.
    pub fn token(&self) -> (s: String)
        ensures
            s@ == self@.token,
    {
        self.access_token.clone()
    }
}

/// The message of the failure that an expiry beyond the representable
/// instants gives.
pub open spec fn expiry_out_of_range() -> Seq<char> {
    "expires_in is out of range"@
}

/// A credential as the remote issued it: the token and the instant at which
/// it expires, fixed when the reply was read.
pub struct AccessTokenBuilder {
    pub access_token: String,
    pub expired_at: Timestamp,
}

/// Whether `r` is what a reply with `access_token` and `expires_in`, read at
/// `now`, gives: the credential that expires `expires_in` seconds after
/// `now`, or, where no timestamp can hold that instant, a decoding failure.
pub open spec fn issued(
    r: Result<AccessTokenBuilder, Error>,
    access_token: String,
    expires_in: i64,
    now: Timestamp,
) -> bool {
    &&& r.is_ok() <==> i64::MIN <= now.secs + expires_in <= i64::MAX
    &&& r matches Ok(builder) ==> {
        &&& builder.access_token == access_token
        &&& builder.expired_at@ == now@ + expires_in * 1_000_000_000
        &&& builder.expired_at.secs == now.secs + expires_in
        &&& builder.expired_at.nanos == now.nanos
    }
    &&& r matches Err(e) ==> e@ == (ErrorKind::Decode, expiry_out_of_range())
}

impl AccessTokenBuilder {
    /// The credential that a reply read at `now` describes: `expires_in`
    /// counts the seconds from `now` to the expiry. An expiry that no
    /// timestamp can hold makes the reply undecodable.
    pub fn issued_at(access_token: String, expires_in: i64, now: Timestamp) -> (r: Result<
        AccessTokenBuilder,
        Error,
    >)
        ensures
            issued(r, access_token, expires_in, now),
    {
        match now.checked_add_seconds(expires_in) {
            Some(expired_at) => Ok(AccessTokenBuilder { access_token, expired_at }),
            None => Err(Error::Decode("expires_in is out of range".to_string())),
        }
    }

    /// The credential that a reply read right now describes. The instant is
    /// read from the system clock, so the contract speaks of some instant.
    pub fn issued_now(access_token: String, expires_in: i64) -> (r: Result<
        AccessTokenBuilder,
        Error,
    >)
        ensures
            exists|now: Timestamp| issued(r, access_token, expires_in, now),
    {
        let now = Timestamp::now();
        Self::issued_at(access_token, expires_in, now)
    }

    /// The credential to be cached.
    pub fn build(self) -> (token: AccessToken)
        ensures
            token.access_token == self.access_token,
            token.expired_at == self.expired_at,
            token@ == (Credential { token: self.access_token@, expires_at: self.expired_at@ }),
    {
        AccessToken { access_token: self.access_token, expired_at: self.expired_at }
    }
}

/// Whether `token` counts as expired right now.
///
/// The instant is read from the system clock, so the contract says only that
/// the answer is the expiry policy applied at some instant.
pub fn is_token_expired(token: &AccessToken) -> (e: bool)
    ensures
        exists|now: Timestamp| e == expired(token@, now@),
{
    let now = Timestamp::now();
    token.is_expired_at(now)
}

} // verus!
