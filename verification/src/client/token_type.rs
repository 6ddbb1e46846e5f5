//! The two flavours of access token and the exchange that obtains one.
//!
//! The standard token is renewed by every request for it; the stable token
//! stays the same within its lifetime unless a refresh is forced. The two
//! differ in the endpoint and in one member of the request body.

use vstd::prelude::*;
use crate::client::AppConfig;
use crate::client::access_token::{
    AccessToken, AccessTokenBuilder, Credential, expiry_out_of_range, Timestamp,
};
use crate::client::memory_storage::TokenType;
use crate::constants::{ACCESS_TOKEN_END_POINT, STABLE_ACCESS_TOKEN_END_POINT};
use crate::error::{Error, ErrorKind};
use crate::utils::http::{
    agent_headers, agent_request_headers, answered, conclude_reply, Exchange, HttpClient,
    HttpRequest, HttpResponse, JsonMember, MemberModel, Method, Observation, observation,
    observe, push_text, RequestModel, Response, spec_observe,
};
use crate::utils::json::{
    answer_of, integer_at, member_missing, missing_member, refusal, refused,
    ReplyModel, spec_json_integer, spec_json_text, spec_refusal, text_at,
};

verus! {

/// The decoded body of the token endpoint's answer: the token and the
/// seconds until it expires.
pub struct TokenReply {
    pub access_token: String,
    pub expires_in: i64,
}

/// What the bytes of the token endpoint's answer hold: the remote's refusal
/// where there is one; else the token and its lifetime, as the members
/// `access_token` and `expires_in`; `None` where the answer is neither.
pub open spec fn spec_token_reply(body: Seq<u8>) -> Option<ReplyModel<(Seq<char>, int)>> {
    match spec_refusal(body) {
        Some((code, message)) => Some(ReplyModel::Refusal { code, message }),
        None => match (
            spec_json_text(body, "/access_token"@),
            spec_json_integer(body, "/expires_in"@),
        ) {
            (Some(token), Some(expires_in)) => Some(ReplyModel::Data((token, expires_in))),
            _ => None,
        },
    }
}

/// The view of a decoded token answer.
pub open spec fn token_reply_view(reply: Response<TokenReply>) -> ReplyModel<(Seq<char>, int)> {
    match reply {
        Response::Success { data } => ReplyModel::Data(
            (data.access_token@, data.expires_in as int),
        ),
        Response::Error { code, message } => ReplyModel::Refusal {
            code: code as int,
            message: message@,
        },
    }
}

impl TokenReply {
    /// Decodes the bytes of the token endpoint's answer.
    pub fn decode(body: &[u8]) -> (r: Result<Response<TokenReply>, Error>)
        ensures
            r.is_ok() == spec_token_reply(body@).is_some(),
            r matches Ok(reply) ==> Some(token_reply_view(reply)) == spec_token_reply(body@),
            r matches Err(e) ==> e@ == (ErrorKind::Decode, member_missing()),
    {
        if let Some(refusal) = refusal(body) {
            return Ok(refused(refusal));
        }
        match (text_at(body, "/access_token"), integer_at(body, "/expires_in")) {
            (Some(access_token), Some(expires_in)) => Ok(
                Response::Success { data: TokenReply { access_token, expires_in } },
            ),
            _ => Err(missing_member()),
        }
    }

    /// What was observed of the exchange with the token endpoint, the bytes
    /// of a successful answer decoded.
    pub fn read(exchange: Exchange<Vec<u8>>) -> (r: Exchange<Response<TokenReply>>)
        ensures
            exchange matches Exchange::Decoded { body } ==> match spec_token_reply(body@) {
                Some(reply) => r matches Exchange::Decoded { body: decoded_body }
                    && token_reply_view(decoded_body) == reply,
                None => r matches Exchange::Undecodable { message } && message@
                    == member_missing(),
            },
            exchange matches Exchange::Unreachable { message } ==> r == (Exchange::<
                Response<TokenReply>,
            >::Unreachable { message }),
            exchange matches Exchange::Refused { status, text } ==> r == (Exchange::<
                Response<TokenReply>,
            >::Refused { status, text }),
            exchange matches Exchange::Undecodable { message } ==> r == (Exchange::<
                Response<TokenReply>,
            >::Undecodable { message }),
    {
        match answer_of(exchange) {
            Ok(bytes) => match Self::decode(bytes.as_slice()) {
                Ok(body) => Exchange::Decoded { body },
                Err(e) => Exchange::Undecodable { message: e.message() },
            },
            Err(other) => other,
        }
    }
}

/// The request for a stable access token.
#[derive(Clone)]
pub struct StableToken {
    pub app_id: String,
    pub secret: String,
    pub end_point: String,
    pub force_refresh: bool,
}

/// The request that asks `end_point` for a token on behalf of the given
/// identity: a POST without query, with the agent header, whose body names
/// the grant type, the application id and the secret, and, exactly when a
/// refresh is forced, `force_refresh` with the text `true`.
pub open spec fn token_request(
    end_point: Seq<char>,
    app_id: Seq<char>,
    secret: Seq<char>,
    force_refresh: bool,
) -> RequestModel {
    RequestModel {
        url: end_point,
        query: Seq::empty(),
        method: Method::Post,
        headers: agent_headers(),
        body: Some(
            seq![
                ("grant_type"@, MemberModel::Text("client_credential"@)),
                ("appid"@, MemberModel::Text(app_id)),
                ("secret"@, MemberModel::Text(secret)),
            ] + if force_refresh {
                seq![("force_refresh"@, MemberModel::Text("true"@))]
            } else {
                Seq::empty()
            },
        ),
    }
}

fn token_request_for(end_point: &String, app_id: &String, secret: &String, force_refresh: bool) -> (request:
    HttpRequest)
    ensures
        request@ == token_request(end_point@, app_id@, secret@, force_refresh),
{
    let mut members: Vec<(String, JsonMember)> = Vec::new();
    push_text(&mut members, "grant_type", "client_credential");
    push_text(&mut members, "appid", app_id.as_str());
    push_text(&mut members, "secret", secret.as_str());
    if force_refresh {
        push_text(&mut members, "force_refresh", "true");
    }
    let request = HttpRequest {
        url: end_point.clone(),
        query: Vec::new(),
        method: Method::Post,
        headers: agent_request_headers(),
        body: Some(members),
    };
    assert(request@.query =~= Seq::empty());
    assert(request@.body.unwrap() =~= token_request(
        end_point@,
        app_id@,
        secret@,
        force_refresh,
    ).body.unwrap());
    request
}

impl StableToken {
    /// The request for a stable token of the application `app_id`.
    pub fn new(app_id: &str, secret: &str, force_refresh: bool) -> (token: StableToken)
        ensures
            token.app_id@ == app_id@,
            token.secret@ == secret@,
            token.end_point@ == STABLE_ACCESS_TOKEN_END_POINT@,
            token.force_refresh == force_refresh,
    {
        StableToken {
            app_id: app_id.to_string(),
            secret: secret.to_string(),
            end_point: STABLE_ACCESS_TOKEN_END_POINT.to_string(),
            force_refresh,
        }
    }

    /// The request to send.
    pub fn request(&self) -> (request: HttpRequest)
        ensures
            request@ == token_request(
                self.end_point@,
                self.app_id@,
                self.secret@,
                self.force_refresh,
            ),
    {
        token_request_for(&self.end_point, &self.app_id, &self.secret, self.force_refresh)
    }

    /// The identity on whose behalf the token is asked for.
    pub fn app_config(&self) -> (config: AppConfig)
        ensures
            config.app_id@ == self.app_id@,
            config.secret@ == self.secret@,
    {
        AppConfig { app_id: self.app_id.clone(), secret: self.secret.clone() }
    }
}

/// The request for a standard access token.
#[derive(Clone)]
pub struct NonStableToken {
    pub app_id: String,
    pub secret: String,
    pub end_point: String,
}

impl NonStableToken {
    /// The request for a standard token of the application `app_id`.
    pub fn new(app_id: &str, secret: &str) -> (token: NonStableToken)
        ensures
            token.app_id@ == app_id@,
            token.secret@ == secret@,
            token.end_point@ == ACCESS_TOKEN_END_POINT@,
    {
        NonStableToken {
            app_id: app_id.to_string(),
            secret: secret.to_string(),
            end_point: ACCESS_TOKEN_END_POINT.to_string(),
        }
    }

    /// The request to send. A refresh is never forced.
    pub fn request(&self) -> (request: HttpRequest)
        ensures
            request@ == token_request(self.end_point@, self.app_id@, self.secret@, false),
    {
        token_request_for(&self.end_point, &self.app_id, &self.secret, false)
    }

    /// The identity on whose behalf the token is asked for.
    pub fn app_config(&self) -> (config: AppConfig)
        ensures
            config.app_id@ == self.app_id@,
            config.secret@ == self.secret@,
    {
        AppConfig { app_id: self.app_id.clone(), secret: self.secret.clone() }
    }
}

/// What the refresh transport hands to the cache for an exchange observed at
/// the instant `now`: the credential of a successful answer, its expiry
/// counted from `now`; the failure in every other case. The three kinds of
/// failure are kept apart: the request did not get through, the remote
/// refused, the answer could not be decoded.
pub open spec fn spec_credential(exchange: Exchange<Response<TokenReply>>, now: Timestamp) -> Result<
    Credential,
    (ErrorKind, Seq<char>),
> {
    match exchange {
        Exchange::Unreachable { message } => Err((ErrorKind::Transport, message@)),
        Exchange::Refused { status, text } => Err((ErrorKind::InternalServer, text@)),
        Exchange::Undecodable { message } => Err((ErrorKind::Decode, message@)),
        Exchange::Decoded { body } => match body {
            Response::Error { code, message } => Err((ErrorKind::InternalServer, message@)),
            Response::Success { data } => {
                if i64::MIN <= now.secs + data.expires_in <= i64::MAX {
                    Ok(
                        Credential {
                            token: data.access_token@,
                            expires_at: now@ + data.expires_in * 1_000_000_000,
                        },
                    )
                } else {
                    Err((ErrorKind::Decode, expiry_out_of_range()))
                }
            },
        },
    }
}

/// Turns what was observed of the exchange with the token endpoint, at the
/// instant `now`, into what the cache is handed.
pub fn credential_at(exchange: Exchange<Response<TokenReply>>, now: Timestamp) -> (r: Result<
    AccessToken,
    Error,
>)
    ensures
        crate::client::token_storage::reply_view(r) == spec_credential(exchange, now),
{
    let data = match conclude_reply(exchange) {
        Ok(data) => data,
        Err(e) => {
            return Err(e);
        },
    };
    match AccessTokenBuilder::issued_at(data.access_token, data.expires_in, now) {
        Ok(builder) => Ok(builder.build()),
        Err(e) => Err(e),
    }
}

/// Turns what was observed of the exchange with the token endpoint into what
/// the cache is handed, counting the expiry from the present instant. The
/// instant is read from the system clock, so the contract speaks of some
/// instant.
pub fn credential_now(exchange: Exchange<Response<TokenReply>>) -> (r: Result<AccessToken, Error>)
    ensures
        exists|now: Timestamp|
            crate::client::token_storage::reply_view(r) == #[trigger] spec_credential(
                exchange,
                now,
            ),
{
    let now = Timestamp::now();
    credential_at(exchange, now)
}

/// A flavour of token together with the client that reaches the remote: the
/// refresh transport of a token cache.
pub struct RemoteToken<C: HttpClient> {
    pub flavour: TokenFlavour,
    pub client: C,
}

/// The two flavours of token.
#[derive(Clone)]
pub enum TokenFlavour {
    Stable(StableToken),
    Standard(NonStableToken),
}

impl TokenFlavour {
    /// The request that asks for a token of this flavour.
    pub open spec fn spec_request(&self) -> RequestModel {
        match *self {
            TokenFlavour::Stable(token) => token_request(
                token.end_point@,
                token.app_id@,
                token.secret@,
                token.force_refresh,
            ),
            TokenFlavour::Standard(token) => token_request(
                token.end_point@,
                token.app_id@,
                token.secret@,
                false,
            ),
        }
    }

    /// The application id and the secret on whose behalf the token is asked
    /// for.
    pub open spec fn identity(&self) -> (Seq<char>, Seq<char>) {
        match *self {
            TokenFlavour::Stable(token) => (token.app_id@, token.secret@),
            TokenFlavour::Standard(token) => (token.app_id@, token.secret@),
        }
    }

    /// The request that asks for a token of this flavour.
    pub fn request(&self) -> (request: HttpRequest)
        ensures
            request@ == self.spec_request(),
    {
        match self {
            TokenFlavour::Stable(token) => token.request(),
            TokenFlavour::Standard(token) => token.request(),
        }
    }

    /// The identity on whose behalf the token is asked for.
    pub fn app_config(&self) -> (config: AppConfig)
        ensures
            (config.app_id@, config.secret@) == self.identity(),
    {
        match self {
            TokenFlavour::Stable(token) => token.app_config(),
            TokenFlavour::Standard(token) => token.app_config(),
        }
    }
}

/// What the refresh transport hands to the cache for what was observed of
/// the exchange with the token endpoint, read at the instant `now`. Without
/// an answer the failure is the transport's; a refusal by status or by error
/// code is the server's, with the remote's text; an answer that holds no
/// token, or an expiry that no timestamp can hold, is a decoding failure;
/// else the credential is the token of the answer, expiring `expires_in`
/// seconds after `now`.
pub open spec fn spec_credential_of(observed: Observation, now: Timestamp) -> Result<
    Credential,
    (ErrorKind, Seq<char>),
> {
    match observed {
        Observation::Unreachable { message } => Err((ErrorKind::Transport, message)),
        Observation::Refused { status, text } => Err((ErrorKind::InternalServer, text)),
        Observation::Undecodable { message } => Err((ErrorKind::Decode, message)),
        Observation::Answered { body } => match spec_token_reply(body) {
            Some(ReplyModel::Data((token, expires_in))) => {
                if i64::MIN <= now.secs + expires_in <= i64::MAX {
                    Ok(Credential { token, expires_at: now@ + expires_in * 1_000_000_000 })
                } else {
                    Err((ErrorKind::Decode, expiry_out_of_range()))
                }
            },
            Some(ReplyModel::Refusal { code, message }) => Err(
                (ErrorKind::InternalServer, message),
            ),
            None => Err((ErrorKind::Decode, member_missing())),
        },
    }
}

/// Turns what was observed of the exchange with the token endpoint, the
/// answer still in bytes, into what the cache is handed, counting the expiry
/// from the instant `now`.
pub fn credential_from(observed: Exchange<Vec<u8>>, now: Timestamp) -> (r: Result<
    AccessToken,
    Error,
>)
    ensures
        crate::client::token_storage::reply_view(r) == spec_credential_of(
            observation(observed),
            now,
        ),
{
    credential_at(TokenReply::read(observed), now)
}

/// Turns the answer to a token request, or the lack of one, into what the
/// cache is handed, counting the expiry from the instant `now`.
pub fn credential_of(reply: Result<HttpResponse, Error>, now: Timestamp) -> (r: Result<
    AccessToken,
    Error,
>)
    ensures
        crate::client::token_storage::reply_view(r) == spec_credential_of(
            spec_observe(reply),
            now,
        ),
{
    credential_from(observe(reply), now)
}

impl<C: HttpClient> RemoteToken<C> {
    /// The transport that asks for the stable token of the application
    /// `app_id` over `client`.
    pub fn stable(app_id: &str, secret: &str, force_refresh: bool, client: C) -> (remote: Self)
        ensures
            remote.flavour matches TokenFlavour::Stable(token) && token.app_id@ == app_id@
                && token.secret@ == secret@ && token.force_refresh == force_refresh
                && token.end_point@ == STABLE_ACCESS_TOKEN_END_POINT@,
            remote.client == client,
    {
        RemoteToken {
            flavour: TokenFlavour::Stable(StableToken::new(app_id, secret, force_refresh)),
            client,
        }
    }

    /// The transport that asks for the standard token of the application
    /// `app_id` over `client`.
    pub fn standard(app_id: &str, secret: &str, client: C) -> (remote: Self)
        ensures
            remote.flavour matches TokenFlavour::Standard(token) && token.app_id@ == app_id@
                && token.secret@ == secret@ && token.end_point@ == ACCESS_TOKEN_END_POINT@,
            remote.client == client,
    {
        RemoteToken { flavour: TokenFlavour::Standard(NonStableToken::new(app_id, secret)), client }
    }
}

impl<C: HttpClient> TokenType for RemoteToken<C> {
    /// One exchange with the token endpoint: the client is handed the
    /// request of the flavour, and what comes back is turned into a
    /// credential, or into the failure, by the rules of
    /// [`spec_credential_of`], its expiry counted from the instant at which
    /// the answer arrived. The instant is read from the system clock, so the
    /// contract speaks of some instant.
    fn token(&self) -> (r: Result<AccessToken, Error>)
        ensures
            exists|observed: Observation, now: Timestamp|
                #![trigger spec_credential_of(observed, now)]
                answered(self.client, self.flavour.spec_request(), observed)
                    && crate::client::token_storage::reply_view(r) == spec_credential_of(
                    observed,
                    now,
                ),
    {
        let request = self.flavour.request();
        let reply = self.client.execute(request);
        let now = Timestamp::now();
        proof {
            assert(call_ensures(C::execute, (&self.client, request), reply));
            assert(answered(self.client, self.flavour.spec_request(), spec_observe(reply)));
        }
        credential_of(reply, now)
    }

    fn app_config(&self) -> (config: AppConfig)
        ensures
            (config.app_id@, config.secret@) == self.flavour.identity(),
    {
        self.flavour.app_config()
    }
}

} // verus!
