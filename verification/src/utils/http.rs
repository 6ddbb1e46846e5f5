//! The plain description of an HTTP exchange: what is to be sent, and how
//! what came back is turned into a result.

use vstd::prelude::*;
use crate::constants::HTTP_CLIENT_USER_AGENT;
use crate::error::Error;
use crate::utils::{pairs_view, parse_url, spec_parse_url};

verus! {

/// The request method.
#[derive(Debug, Clone, Copy, PartialEq, Eq, Structural)]
pub enum Method {
    Get,
    Post,
}

/// A JSON value without structure.
#[derive(Debug)]
pub enum JsonScalar {
    Flag(bool),
    Number(i64),
    Text(String),
}

/// The value of a member of a request body: a value without structure, or an
/// object of such values.
#[derive(Debug)]
pub enum JsonMember {
    Flag(bool),
    Number(i64),
    Text(String),
    Object(Vec<(String, JsonScalar)>),
}

/// The mathematical counterpart of [`JsonScalar`].
pub enum ScalarModel {
    Flag(bool),
    Number(int),
    Text(Seq<char>),
}

/// The mathematical counterpart of [`JsonMember`].
pub enum MemberModel {
    Flag(bool),
    Number(int),
    Text(Seq<char>),
    Object(Seq<(Seq<char>, ScalarModel)>),
}

impl View for JsonScalar {
    type V = ScalarModel;

    open spec fn view(&self) -> ScalarModel {
        match *self {
            JsonScalar::Flag(b) => ScalarModel::Flag(b),
            JsonScalar::Number(n) => ScalarModel::Number(n as int),
            JsonScalar::Text(text) => ScalarModel::Text(text@),
        }
    }
}

/// The members of an inner object, as mathematics.
pub open spec fn scalars_view(members: Vec<(String, JsonScalar)>) -> Seq<(Seq<char>, ScalarModel)> {
    members@.map_values(|m: (String, JsonScalar)| (m.0@, m.1@))
}

impl View for JsonMember {
    type V = MemberModel;

    open spec fn view(&self) -> MemberModel {
        match *self {
            JsonMember::Flag(b) => MemberModel::Flag(b),
            JsonMember::Number(n) => MemberModel::Number(n as int),
            JsonMember::Text(text) => MemberModel::Text(text@),
            JsonMember::Object(members) => MemberModel::Object(scalars_view(members)),
        }
    }
}

/// The members of a JSON object, as mathematics: keys and values in order.
pub open spec fn members_view(members: Vec<(String, JsonMember)>) -> Seq<(Seq<char>, MemberModel)> {
    members@.map_values(|m: (String, JsonMember)| (m.0@, m.1@))
}

/// A request body, as mathematics: the members of the object, or `None` for
/// an empty body.
pub open spec fn body_view(body: Option<Vec<(String, JsonMember)>>) -> Option<
    Seq<(Seq<char>, MemberModel)>,
> {
    match body {
        Some(members) => Some(members_view(members)),
        None => None,
    }
}

/// Appends the member `key` with the text `value`.
pub fn push_text(members: &mut Vec<(String, JsonMember)>, key: &str, value: &str)
    ensures
        members_view(*final(members)) == members_view(*old(members)).push(
            (key@, MemberModel::Text(value@)),
        ),
{
    members.push((key.to_string(), JsonMember::Text(value.to_string())));
    assert(members_view(*final(members)) =~= members_view(*old(members)).push(
        (key@, MemberModel::Text(value@)),
    ));
}

/// Appends the member `key` with the number `value`.
pub fn push_number(members: &mut Vec<(String, JsonMember)>, key: &str, value: i64)
    ensures
        members_view(*final(members)) == members_view(*old(members)).push(
            (key@, MemberModel::Number(value as int)),
        ),
{
    members.push((key.to_string(), JsonMember::Number(value)));
    assert(members_view(*final(members)) =~= members_view(*old(members)).push(
        (key@, MemberModel::Number(value as int)),
    ));
}

/// Appends the member `key` with the truth value `value`.
pub fn push_flag(members: &mut Vec<(String, JsonMember)>, key: &str, value: bool)
    ensures
        members_view(*final(members)) == members_view(*old(members)).push(
            (key@, MemberModel::Flag(value)),
        ),
{
    members.push((key.to_string(), JsonMember::Flag(value)));
    assert(members_view(*final(members)) =~= members_view(*old(members)).push(
        (key@, MemberModel::Flag(value)),
    ));
}

/// Appends the member `key` with the inner object `value`.
pub fn push_object(
    members: &mut Vec<(String, JsonMember)>,
    key: &str,
    value: Vec<(String, JsonScalar)>,
)
    ensures
        members_view(*final(members)) == members_view(*old(members)).push(
            (key@, MemberModel::Object(scalars_view(value))),
        ),
{
    members.push((key.to_string(), JsonMember::Object(value)));
    assert(members_view(*final(members)) =~= members_view(*old(members)).push(
        (key@, MemberModel::Object(scalars_view(value))),
    ));
}

/// The members that an optional text adds to an object: one under `key`
/// where there is a text, none where there is not.
pub open spec fn optional_text(key: Seq<char>, value: Option<String>) -> Seq<
    (Seq<char>, MemberModel),
> {
    match value {
        Some(text) => seq![(key, MemberModel::Text(text@))],
        None => Seq::empty(),
    }
}

/// The members that an optional truth value adds to an object.
pub open spec fn optional_flag(key: Seq<char>, value: Option<bool>) -> Seq<
    (Seq<char>, MemberModel),
> {
    match value {
        Some(b) => seq![(key, MemberModel::Flag(b))],
        None => Seq::empty(),
    }
}

/// Appends the member `key` with the text of `value`, where there is one.
pub fn push_optional_text(
    members: &mut Vec<(String, JsonMember)>,
    key: &str,
    value: &Option<String>,
)
    ensures
        members_view(*final(members)) == members_view(*old(members)) + optional_text(key@, *value),
{
    match value {
        Some(text) => {
            push_text(members, key, text.as_str());
            assert(members_view(*final(members)) =~= members_view(*old(members)) + optional_text(
                key@,
                *value,
            ));
        },
        None => {
            assert(members_view(*final(members)) =~= members_view(*old(members)) + optional_text(
                key@,
                *value,
            ));
        },
    }
}

/// Appends the member `key` with the truth value of `value`, where there is
/// one.
pub fn push_optional_flag(members: &mut Vec<(String, JsonMember)>, key: &str, value: Option<bool>)
    ensures
        members_view(*final(members)) == members_view(*old(members)) + optional_flag(key@, value),
{
    match value {
        Some(b) => {
            push_flag(members, key, b);
            assert(members_view(*final(members)) =~= members_view(*old(members)) + optional_flag(
                key@,
                value,
            ));
        },
        None => {
            assert(members_view(*final(members)) =~= members_view(*old(members)) + optional_flag(
                key@,
                value,
            ));
        },
    }
}

/// Appends the pair of `key` and `value` to `pairs`.
pub fn push_pair(pairs: &mut Vec<(String, String)>, key: &str, value: &str)
    ensures
        pairs_view(*final(pairs)) == pairs_view(*old(pairs)).push((key@, value@)),
{
    pairs.push((key.to_string(), value.to_string()));
    assert(pairs_view(*final(pairs)) =~= pairs_view(*old(pairs)).push((key@, value@)));
}

/// A request, ready to be handed to the transport.
pub struct HttpRequest {
    /// The address, without the query.
    pub url: String,
    /// The key and value pairs of the query, in order, not yet encoded.
    pub query: Vec<(String, String)>,
    pub method: Method,
    /// The header names and values, in order.
    pub headers: Vec<(String, String)>,
    /// The members of the JSON object that is the body; `None` stands for an
    /// empty body.
    pub body: Option<Vec<(String, JsonMember)>>,
}

/// What a request is, mathematically.
pub struct RequestModel {
    pub url: Seq<char>,
    pub query: Seq<(Seq<char>, Seq<char>)>,
    pub method: Method,
    pub headers: Seq<(Seq<char>, Seq<char>)>,
    pub body: Option<Seq<(Seq<char>, MemberModel)>>,
}

impl View for HttpRequest {
    type V = RequestModel;

    open spec fn view(&self) -> RequestModel {
        RequestModel {
            url: self.url@,
            query: pairs_view(self.query),
            method: self.method,
            headers: pairs_view(self.headers),
            body: body_view(self.body),
        }
    }
}

impl HttpRequest {
    /// The address that this request goes to, the query included.
    pub fn uri(&self) -> (r: Result<String, Error>)
        ensures
            r.is_ok() == crate::utils::spec_address(self@.url, self@.query).is_some(),
            r matches Ok(text) ==> Some(text@) == crate::utils::spec_address(
                self@.url,
                self@.query,
            ),
            r matches Err(e) ==> e@ == (
                crate::error::ErrorKind::InvalidParameter,
                crate::utils::invalid_url_message(),
            ),
    {
        crate::utils::address(self.url.as_str(), &self.query)
    }
}

/// The name of the header that carries the agent name.
pub open spec fn user_agent_header() -> Seq<char> {
    "user-agent"@
}

/// The agent header alone, which every request carries.
pub open spec fn agent_headers() -> Seq<(Seq<char>, Seq<char>)> {
    seq![(user_agent_header(), HTTP_CLIENT_USER_AGENT@)]
}

/// The headers of a request with a JSON body: the agent name and the content
/// type.
pub open spec fn json_headers() -> Seq<(Seq<char>, Seq<char>)> {
    seq![
        (user_agent_header(), HTTP_CLIENT_USER_AGENT@),
        ("content-type"@, "application/json"@),
    ]
}

/// The headers of a request for an image: those of a JSON body, and an
/// encoding of `null`, which asks for raw bytes.
pub open spec fn image_headers() -> Seq<(Seq<char>, Seq<char>)> {
    seq![
        (user_agent_header(), HTTP_CLIENT_USER_AGENT@),
        ("encoding"@, "null"@),
        ("content-type"@, "application/json"@),
    ]
}

/// The agent header alone.
pub fn agent_request_headers() -> (headers: Vec<(String, String)>)
    ensures
        pairs_view(headers) == agent_headers(),
{
    let mut headers: Vec<(String, String)> = Vec::new();
    push_pair(&mut headers, "user-agent", HTTP_CLIENT_USER_AGENT);
    assert(pairs_view(headers) =~= agent_headers());
    headers
}

/// The headers of a request with a JSON body.
pub fn json_request_headers() -> (headers: Vec<(String, String)>)
    ensures
        pairs_view(headers) == json_headers(),
{
    let mut headers: Vec<(String, String)> = Vec::new();
    push_pair(&mut headers, "user-agent", HTTP_CLIENT_USER_AGENT);
    push_pair(&mut headers, "content-type", "application/json");
    assert(pairs_view(headers) =~= json_headers());
    headers
}

/// The headers of a request for an image.
pub fn image_request_headers() -> (headers: Vec<(String, String)>)
    ensures
        pairs_view(headers) == image_headers(),
{
    let mut headers: Vec<(String, String)> = Vec::new();
    push_pair(&mut headers, "user-agent", HTTP_CLIENT_USER_AGENT);
    push_pair(&mut headers, "encoding", "null");
    push_pair(&mut headers, "content-type", "application/json");
    assert(pairs_view(headers) =~= image_headers());
    headers
}

/// The query that carries the access token and nothing else.
pub open spec fn token_query(access_token: Seq<char>) -> Seq<(Seq<char>, Seq<char>)> {
    seq![("access_token"@, access_token)]
}

/// The query that carries the access token and nothing else.
pub fn access_token_query(access_token: &str) -> (query: Vec<(String, String)>)
    ensures
        pairs_view(query) == token_query(access_token@),
{
    let mut query: Vec<(String, String)> = Vec::new();
    push_pair(&mut query, "access_token", access_token);
    assert(pairs_view(query) =~= token_query(access_token@));
    query
}

/// The request that [`build_request`] assembles for an address whose normal
/// form is `url`: the query pairs as given, the agent header followed by the
/// headers given, and the body as given.
pub open spec fn built_request(
    url: Seq<char>,
    method: Method,
    headers: Option<Vec<(String, String)>>,
    query: Option<Vec<(String, String)>>,
    body: Option<Vec<(String, JsonMember)>>,
) -> RequestModel {
    RequestModel {
        url,
        query: match query {
            Some(given) => pairs_view(given),
            None => Seq::empty(),
        },
        method,
        headers: agent_headers() + match headers {
            Some(given) => pairs_view(given),
            None => Seq::empty(),
        },
        body: body_view(body),
    }
}

/// Assembles a request to `url`. Fails exactly when `url` is no absolute
/// URL; the address of the request is the URL's normal form.
pub fn build_request(
    url: &str,
    method: Method,
    headers: Option<Vec<(String, String)>>,
    query: Option<Vec<(String, String)>>,
    body: Option<Vec<(String, JsonMember)>>,
) -> (r: Result<HttpRequest, Error>)
    ensures
        r.is_ok() == spec_parse_url(url@).is_some(),
        r matches Ok(request) ==> request@ == built_request(
            spec_parse_url(url@).unwrap(),
            method,
            headers,
            query,
            body,
        ),
        r matches Err(e) ==> e@ == (
            crate::error::ErrorKind::InvalidParameter,
            crate::utils::invalid_url_message(),
        ),
{
    let address = match parse_url(url) {
        Ok(address) => address,
        Err(e) => {
            return Err(e);
        },
    };
    let query_pairs = match query {
        Some(given) => given,
        None => Vec::new(),
    };
    assert(pairs_view(query_pairs) =~= match query {
        Some(given) => pairs_view(given),
        None => Seq::empty(),
    });
    let mut all_headers = agent_request_headers();
    let ghost first = all_headers@;
    match headers {
        Some(mut given) => {
            let ghost rest = given@;
            all_headers.append(&mut given);
            assert(all_headers@ == first + rest);
            assert(pairs_view(all_headers) =~= agent_headers() + pairs_view(headers.unwrap()));
        },
        None => {
            assert(pairs_view(all_headers) =~= agent_headers() + Seq::empty());
        },
    }
    Ok(HttpRequest { url: address, query: query_pairs, method, headers: all_headers, body })
}

/// What a decoded reply body says: the data asked for, or the remote's
/// refusal with its code and message.
#[derive(Debug)]
pub enum Response<T> {
    Success { data: T },
    Error { code: i64, message: String },
}

impl<T> Response<T> {
    /// The data of a successful reply; a refusal becomes a server-side
    /// failure that carries the remote's message.
    pub fn extract(self) -> (r: Result<T, Error>)
        ensures
            self matches Response::Success { data } ==> r == Ok::<T, Error>(data),
            self matches Response::Error { code, message } ==> r == Err::<T, Error>(
                Error::InternalServer(message),
            ),
    {
        match self {
            Response::Success { data } => Ok(data),
            Response::Error { code, message } => Err(Error::InternalServer(message)),
        }
    }
}

/// Whether an HTTP status code reports success: 200 to 299.
pub open spec fn spec_is_success(status: u16) -> bool {
    200 <= status < 300
}

/// Whether an HTTP status code reports success.
pub fn is_success(status: u16) -> (b: bool)
    ensures
        b == spec_is_success(status),
{
    200 <= status && status < 300
}

/// What the runtime observed of one exchange with the remote API.
#[derive(Debug)]
pub enum Exchange<T> {
    /// The request did not get through; the transport's message.
    Unreachable { message: String },
    /// The remote answered with a status that does not report success; the
    /// status and the text of the body.
    Refused { status: u16, text: String },
    /// The remote answered with a success status, and the body could not be
    /// decoded; the decoder's message.
    Undecodable { message: String },
    /// The remote answered with a success status and this body.
    Decoded { body: T },
}

/// An answer of the remote as it came over the wire.
#[derive(Debug)]
pub struct HttpResponse {
    pub status: u16,
    pub body: Vec<u8>,
}

/// What performs an HTTP exchange.
pub trait HttpClient {
    /// Sends `request` and waits for the answer. An error means that no
    /// answer arrived. Nothing is promised of the answer: it is the
    /// remote's.
    fn execute(&self, request: HttpRequest) -> Result<HttpResponse, Error>;
}

/// What was observed of one exchange, as mathematics.
pub enum Observation {
    /// The request did not get through; the transport's message.
    Unreachable { message: Seq<char> },
    /// The remote answered with a status that does not report success.
    Refused { status: u16, text: Seq<char> },
    /// The answer could not be decoded; the decoder's message.
    Undecodable { message: Seq<char> },
    /// The remote answered with a success status and these bytes.
    Answered { body: Seq<u8> },
}

/// The view of what was observed of an exchange whose answer is still bytes.
pub open spec fn observation(exchange: Exchange<Vec<u8>>) -> Observation {
    match exchange {
        Exchange::Unreachable { message } => Observation::Unreachable { message: message@ },
        Exchange::Refused { status, text } => Observation::Refused { status, text: text@ },
        Exchange::Undecodable { message } => Observation::Undecodable { message: message@ },
        Exchange::Decoded { body } => Observation::Answered { body: body@ },
    }
}

/// What an answer, or the lack of one, means for an exchange: without an
/// answer the remote was unreachable, and the message of the failure says
/// why; an answer with a success status is taken with its bytes; any other
/// answer is a refusal, with its status and the text of its body.
pub open spec fn spec_observe(reply: Result<HttpResponse, Error>) -> Observation {
    match reply {
        Err(e) => Observation::Unreachable { message: e@.1 },
        Ok(response) => if spec_is_success(response.status) {
            Observation::Answered { body: response.body@ }
        } else {
            Observation::Refused {
                status: response.status,
                text: crate::utils::text::spec_lossy_text(response.body@),
            }
        },
    }
}

/// Whether `client` was handed a request that is `request`, and `observed`
/// is what its answer, or the lack of one, means. Nothing is said of the
/// answer itself: it is the remote's.
pub open spec fn answered<C: HttpClient>(
    client: C,
    request: RequestModel,
    observed: Observation,
) -> bool {
    exists|sent: HttpRequest, reply: Result<HttpResponse, Error>|
        #![trigger call_ensures(C::execute, (&client, sent), reply)]
        sent@ == request && call_ensures(C::execute, (&client, sent), reply) && observed
            == spec_observe(reply)
}

/// What an answer, or the lack of one, means for an exchange: without an
/// answer the remote was unreachable; an answer with a success status is
/// taken with its bytes; any other answer is a refusal, with the text of its
/// body.
pub fn observe(reply: Result<HttpResponse, Error>) -> (r: Exchange<Vec<u8>>)
    ensures
        observation(r) == spec_observe(reply),
        reply matches Err(e) ==> r matches Exchange::Unreachable { message } && message@ == e@.1,
        reply matches Ok(response) ==> if spec_is_success(response.status) {
            r == (Exchange::Decoded { body: response.body })
        } else {
            r matches Exchange::Refused { status, text } && status == response.status && text@
                == crate::utils::text::spec_lossy_text(response.body@)
        },
{
    match reply {
        Err(e) => Exchange::Unreachable { message: e.message() },
        Ok(response) => {
            if is_success(response.status) {
                Exchange::Decoded { body: response.body }
            } else {
                Exchange::Refused {
                    status: response.status,
                    text: crate::utils::text::lossy_text(response.body.as_slice()),
                }
            }
        },
    }
}

/// The result of an exchange: the decoded body of a successful answer, and a
/// failure in every other case.
pub open spec fn spec_conclude<T>(exchange: Exchange<T>) -> Result<T, Error> {
    match exchange {
        Exchange::Unreachable { message } => Err(Error::Transport(message)),
        Exchange::Refused { status, text } => Err(Error::InternalServer(text)),
        Exchange::Undecodable { message } => Err(Error::Decode(message)),
        Exchange::Decoded { body } => Ok(body),
    }
}

/// Turns what was observed of an exchange into a result.
pub fn conclude<T>(exchange: Exchange<T>) -> (r: Result<T, Error>)
    ensures
        r == spec_conclude(exchange),
{
    match exchange {
        Exchange::Unreachable { message } => Err(Error::Transport(message)),
        Exchange::Refused { status, text } => Err(Error::InternalServer(text)),
        Exchange::Undecodable { message } => Err(Error::Decode(message)),
        Exchange::Decoded { body } => Ok(body),
    }
}

/// Turns what was observed of an exchange whose body may itself report a
/// refusal into a result.
pub fn conclude_reply<T>(exchange: Exchange<Response<T>>) -> (r: Result<T, Error>)
    ensures
        exchange matches Exchange::Decoded { body: Response::Success { data } } ==> r == Ok::<
            T,
            Error,
        >(data),
        exchange matches Exchange::Decoded { body: Response::Error { code, message } } ==> r
            == Err::<T, Error>(Error::InternalServer(message)),
        exchange matches Exchange::Unreachable { message } ==> r == Err::<T, Error>(
            Error::Transport(message),
        ),
        exchange matches Exchange::Refused { status, text } ==> r == Err::<T, Error>(
            Error::InternalServer(text),
        ),
        exchange matches Exchange::Undecodable { message } ==> r == Err::<T, Error>(
            Error::Decode(message),
        ),
{
    match conclude(exchange) {
        Ok(reply) => reply.extract(),
        Err(e) => Err(e),
    }
}

} // verus!
