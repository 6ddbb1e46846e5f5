//! The session of a logged-in user: its key, the data it decrypts and the
//! signature it gives.

use vstd::prelude::*;
use aes::cipher::{BlockDecryptMut, KeyIvInit};
use base64::Engine;
use hmac::Mac;
use crate::client::{asked_for_token, Timestamp, WechatMinappSDK};
use crate::client::memory_storage::served;
use crate::client::token_storage::outcome_view;
use crate::constants::{CHECK_SESSION_KEY_END_POINT, RESET_SESSION_KEY_END_POINT};
use crate::error::{Error, ErrorKind};
use crate::user::User;
use crate::user::user_info::{spec_user, UserBuilder, UserInfo, UserInfoModel};
use crate::utils::pairs_view;
use crate::utils::http::{
    agent_headers, agent_request_headers, conclude, conclude_reply, Exchange, HttpClient,
    HttpRequest, JsonMember, MemberModel, members_view, Method, Observation, push_pair,
    push_text, RequestModel, Response, spec_conclude,
};
use crate::utils::json::{
    answer_of, member_missing, missing_member, refusal, refused, ReplyModel,
    spec_json_text, spec_refusal, text_at,
};
use crate::utils::text::optional_chars;

verus! {

/// The bytes that `text` stands for in standard base64 with padding, as the
/// `STANDARD` engine of the `base64` crate decodes it, or `None` where `text`
/// is no such encoding.
pub uninterp spec fn spec_base64_decode(text: Seq<char>) -> Option<Seq<u8>>;

/// What AES-128 in CBC mode, as the `cbc` and `aes` crates compute it, makes
/// of `data` under `key` and `iv`, with the PKCS#7 padding taken off; `None`
/// where the length of `data` is no multiple of the block size or the padding
/// is malformed.
pub uninterp spec fn spec_aes128_cbc_decrypt(key: Seq<u8>, iv: Seq<u8>, data: Seq<u8>) -> Option<
    Seq<u8>,
>;

/// The HMAC-SHA256 code of `message` under `key`, as the `hmac` and `sha2`
/// crates compute it; `None` where the key is refused.
pub uninterp spec fn spec_hmac_sha256(key: Seq<u8>, message: Seq<u8>) -> Option<Seq<u8>>;

/// The view of an optional byte vector.
pub open spec fn optional_bytes(bytes: Option<Vec<u8>>) -> Option<Seq<u8>> {
    match bytes {
        Some(bytes) => Some(bytes@),
        None => None,
    }
}

/// Trusted: `base64::Engine::decode` on the engine
/// `base64::engine::general_purpose::STANDARD`. The result is named by
/// [`spec_base64_decode`].
#[verifier::external_body]
fn base64_decode(text: &str) -> (r: Option<Vec<u8>>)
    ensures
        optional_bytes(r) == spec_base64_decode(text@),
{
    match base64::engine::general_purpose::STANDARD.decode(text.as_bytes()) {
        Ok(bytes) => Some(bytes),
        Err(_) => None,
    }
}

/// Trusted: `cbc::Decryptor::<aes::Aes128>::new_from_slices`, followed by
/// `decrypt_padded_vec_mut` with `Pkcs7` padding. Key and vector of 16 bytes
/// are always accepted; the result is named by [`spec_aes128_cbc_decrypt`].
#[verifier::external_body]
fn aes128_cbc_decrypt(key: &Vec<u8>, iv: &Vec<u8>, data: &Vec<u8>) -> (r: Option<Vec<u8>>)
    requires
        key@.len() == 16,
        iv@.len() == 16,
    ensures
        optional_bytes(r) == spec_aes128_cbc_decrypt(key@, iv@, data@),
{
    match cbc::Decryptor::<aes::Aes128>::new_from_slices(key, iv) {
        Ok(decryptor) => match decryptor.decrypt_padded_vec_mut::<aes::cipher::block_padding::Pkcs7>(
            data,
        ) {
            Ok(plain) => Some(plain),
            Err(_) => None,
        },
        Err(_) => None,
    }
}

/// Trusted: `hmac::Mac::new_from_slice` for `Hmac<Sha256>`, then `update`
/// with the message, `finalize` and `into_bytes`. The result is named by
/// [`spec_hmac_sha256`].
#[verifier::external_body]
fn hmac_sha256(key: &[u8], message: &[u8]) -> (r: Option<Vec<u8>>)
    ensures
        optional_bytes(r) == spec_hmac_sha256(key@, message@),
{
    match <hmac::Hmac<sha2::Sha256> as Mac>::new_from_slice(key) {
        Ok(mut mac) => {
            mac.update(message);
            Some(mac.finalize().into_bytes().to_vec())
        },
        Err(_) => None,
    }
}

/// The lowercase hexadecimal digit that stands for `n`, a number below 16.
pub open spec fn hex_digit(n: int) -> char {
    if n == 0 {
        '0'
    } else if n == 1 {
        '1'
    } else if n == 2 {
        '2'
    } else if n == 3 {
        '3'
    } else if n == 4 {
        '4'
    } else if n == 5 {
        '5'
    } else if n == 6 {
        '6'
    } else if n == 7 {
        '7'
    } else if n == 8 {
        '8'
    } else if n == 9 {
        '9'
    } else if n == 10 {
        'a'
    } else if n == 11 {
        'b'
    } else if n == 12 {
        'c'
    } else if n == 13 {
        'd'
    } else if n == 14 {
        'e'
    } else {
        'f'
    }
}

/// The hexadecimal text of `bytes`: two lowercase digits for each byte, the
/// high half first.
pub open spec fn hex_text(bytes: Seq<u8>) -> Seq<char>
    decreases bytes.len(),
{
    if bytes.len() == 0 {
        Seq::empty()
    } else {
        hex_text(bytes.drop_last()).push(hex_digit(bytes.last() as int / 16)).push(
            hex_digit(bytes.last() as int % 16),
        )
    }
}

/// Trusted: `hex::encode`, which writes each byte as two lowercase
/// hexadecimal digits.
#[verifier::external_body]
fn hex_encode(bytes: &Vec<u8>) -> (text: String)
    ensures
        text@ == hex_text(bytes@),
{
    hex::encode(bytes)
}

/// The session of a logged-in user. The session key is a secret, and the
/// type has no debug output.
#[derive(Clone)]
pub struct Credential {
    open_id: String,
    session_key: String,
    union_id: Option<String>,
}

/// What a session is, mathematically.
pub struct SessionModel {
    /// The user's id within the mini-program.
    pub open_id: Seq<char>,
    /// The key of the session, in base64.
    pub session_key: Seq<char>,
    /// The user's id across the applications of one owner, if known.
    pub union_id: Option<Seq<char>>,
}

impl View for Credential {
    type V = SessionModel;

    closed spec fn view(&self) -> SessionModel {
        SessionModel {
            open_id: self.open_id@,
            session_key: self.session_key@,
            union_id: optional_chars(self.union_id),
        }
    }
}

/// A session as it arrives.
pub struct CredentialBuilder {
    pub open_id: String,
    pub session_key: String,
    pub union_id: Option<String>,
}

impl View for CredentialBuilder {
    type V = SessionModel;

    open spec fn view(&self) -> SessionModel {
        SessionModel {
            open_id: self.open_id@,
            session_key: self.session_key@,
            union_id: optional_chars(self.union_id),
        }
    }
}

/// What the bytes of an answer that carries a session hold: the remote's
/// refusal where there is one; else the session, from the members `openid`,
/// `session_key` and, where it is there, `unionid`; `None` where the answer
/// is neither.
pub open spec fn spec_session_reply(body: Seq<u8>) -> Option<ReplyModel<SessionModel>> {
    match spec_refusal(body) {
        Some((code, message)) => Some(ReplyModel::Refusal { code, message }),
        None => match (spec_json_text(body, "/openid"@), spec_json_text(body, "/session_key"@)) {
            (Some(open_id), Some(session_key)) => Some(
                ReplyModel::Data(
                    SessionModel {
                        open_id,
                        session_key,
                        union_id: spec_json_text(body, "/unionid"@),
                    },
                ),
            ),
            _ => None,
        },
    }
}

/// What an exchange that answers with a session comes to, for what was
/// observed of it. Without an answer the failure is the transport's; a
/// refusal by status or by error code is the server's, with the remote's
/// text; an answer that holds no session is a decoding failure; else the
/// result is the session of the answer.
pub open spec fn spec_session_outcome(observed: Observation) -> Result<
    SessionModel,
    (ErrorKind, Seq<char>),
> {
    match observed {
        Observation::Unreachable { message } => Err((ErrorKind::Transport, message)),
        Observation::Refused { status, text } => Err((ErrorKind::InternalServer, text)),
        Observation::Undecodable { message } => Err((ErrorKind::Decode, message)),
        Observation::Answered { body } => match spec_session_reply(body) {
            Some(ReplyModel::Data(session)) => Ok(session),
            Some(ReplyModel::Refusal { code, message }) => Err(
                (ErrorKind::InternalServer, message),
            ),
            None => Err((ErrorKind::Decode, member_missing())),
        },
    }
}

/// The view of a session or of the failure to obtain one.
pub open spec fn session_view(r: Result<Credential, Error>) -> Result<
    SessionModel,
    (ErrorKind, Seq<char>),
> {
    match r {
        Ok(credential) => Ok(credential@),
        Err(e) => Err(e@),
    }
}

/// The view of a decoded answer that carries a session.
pub open spec fn session_reply_view(reply: Response<CredentialBuilder>) -> ReplyModel<SessionModel> {
    match reply {
        Response::Success { data } => ReplyModel::Data(data@),
        Response::Error { code, message } => ReplyModel::Refusal {
            code: code as int,
            message: message@,
        },
    }
}

impl CredentialBuilder {
    /// Decodes the bytes of an answer that carries a session.
    pub fn decode(body: &[u8]) -> (r: Result<Response<CredentialBuilder>, Error>)
        ensures
            r.is_ok() == spec_session_reply(body@).is_some(),
            r matches Ok(reply) ==> Some(session_reply_view(reply)) == spec_session_reply(body@),
            r matches Err(e) ==> e@ == (ErrorKind::Decode, member_missing()),
    {
        if let Some(refusal) = refusal(body) {
            return Ok(refused(refusal));
        }
        match (text_at(body, "/openid"), text_at(body, "/session_key")) {
            (Some(open_id), Some(session_key)) => {
                let union_id = text_at(body, "/unionid");
                Ok(
                    Response::Success {
                        data: CredentialBuilder { open_id, session_key, union_id },
                    },
                )
            },
            _ => Err(missing_member()),
        }
    }

    /// What was observed of an exchange that answers with a session, the
    /// bytes of a successful answer decoded.
    pub fn read(exchange: Exchange<Vec<u8>>) -> (r: Exchange<Response<CredentialBuilder>>)
        ensures
            exchange matches Exchange::Decoded { body } ==> match spec_session_reply(body@) {
                Some(reply) => r matches Exchange::Decoded { body: decoded_body }
                    && session_reply_view(decoded_body) == reply,
                None => r matches Exchange::Undecodable { message } && message@
                    == member_missing(),
            },
            exchange matches Exchange::Unreachable { message } ==> r == (Exchange::<
                Response<CredentialBuilder>,
            >::Unreachable { message }),
            exchange matches Exchange::Refused { status, text } ==> r == (Exchange::<
                Response<CredentialBuilder>,
            >::Refused { status, text }),
            exchange matches Exchange::Undecodable { message } ==> r == (Exchange::<
                Response<CredentialBuilder>,
            >::Undecodable { message }),
    {
        match answer_of(exchange) {
            Ok(bytes) => match Self::decode(bytes.as_slice()) {
                Ok(body) => Exchange::Decoded { body },
                Err(e) => Exchange::Undecodable { message: e.message() },
            },
            Err(other) => other,
        }
    }

    /// The session with the same data.
    pub fn build(self) -> (credential: Credential)
        ensures
            credential@ == self@,
    {
        Credential {
            open_id: self.open_id,
            session_key: self.session_key,
            union_id: self.union_id,
        }
    }
}

/// The message of the failure that text which is no base64 gives.
pub open spec fn not_base64() -> Seq<char> {
    "invalid base64"@
}

/// The message of the failure that a key or vector of the wrong length
/// gives.
pub open spec fn wrong_key_length() -> Seq<char> {
    "key and iv must be 16 bytes long"@
}

/// The message of the failure that undecryptable data gives.
pub open spec fn bad_padding() -> Seq<char> {
    "invalid padding"@
}

/// What decrypting `encrypted_data` under the session key `session_key` and
/// the vector `iv`, all three in base64, gives: the plain bytes, or the class
/// and message of the failure. In this order: the key, the vector and the
/// data must be base64; key and vector must be 16 bytes long; the data must
/// decrypt with well-formed padding.
pub open spec fn spec_decrypt(session_key: Seq<char>, encrypted_data: Seq<char>, iv: Seq<char>) -> Result<
    Seq<u8>,
    (ErrorKind, Seq<char>),
> {
    match (
        spec_base64_decode(session_key),
        spec_base64_decode(iv),
        spec_base64_decode(encrypted_data),
    ) {
        (Some(key), Some(vector), Some(data)) => {
            if key.len() != 16 || vector.len() != 16 {
                Err((ErrorKind::InvalidParameter, wrong_key_length()))
            } else {
                match spec_aes128_cbc_decrypt(key, vector, data) {
                    Some(plain) => Ok(plain),
                    None => Err((ErrorKind::Decode, bad_padding())),
                }
            }
        },
        _ => Err((ErrorKind::Decode, not_base64())),
    }
}

/// What decrypting a profile gives: the profile that the plain bytes hold,
/// the failure of the decryption, or the failure to decode the plain bytes.
pub open spec fn spec_decrypt_user(
    session_key: Seq<char>,
    encrypted_data: Seq<char>,
    iv: Seq<char>,
) -> Result<UserInfoModel, (ErrorKind, Seq<char>)> {
    match spec_decrypt(session_key, encrypted_data, iv) {
        Ok(plain) => match spec_user(plain) {
            Some(info) => Ok(info),
            None => Err((ErrorKind::Decode, member_missing())),
        },
        Err(e) => Err(e),
    }
}

/// The view of the result of a decryption.
pub open spec fn plain_view(r: Result<Vec<u8>, Error>) -> Result<Seq<u8>, (ErrorKind, Seq<char>)> {
    match r {
        Ok(bytes) => Ok(bytes@),
        Err(e) => Err(e@),
    }
}

/// Decrypts `data` with AES-128 in CBC mode under `key` and `iv` and takes
/// the PKCS#7 padding off.
pub fn decrypt_with(key: &Vec<u8>, iv: &Vec<u8>, data: &Vec<u8>) -> (r: Result<Vec<u8>, Error>)
    requires
        key@.len() == 16,
        iv@.len() == 16,
    ensures
        plain_view(r) == match spec_aes128_cbc_decrypt(key@, iv@, data@) {
            Some(plain) => Ok::<Seq<u8>, (ErrorKind, Seq<char>)>(plain),
            None => Err((ErrorKind::Decode, bad_padding())),
        },
{
    match aes128_cbc_decrypt(key, iv, data) {
        Some(plain) => Ok(plain),
        None => Err(Error::Decode("invalid padding".to_string())),
    }
}

/// The signature of the empty message under the session key `session_key`:
/// the HMAC-SHA256 code in lowercase hexadecimal, or `None` where the key is
/// refused.
pub open spec fn spec_signature(session_key: Seq<char>) -> Option<Seq<char>> {
    match spec_hmac_sha256(vstd::utf8::encode_utf8(session_key), Seq::empty()) {
        Some(code) => Some(hex_text(code)),
        None => None,
    }
}

/// The message of the failure that a refused key gives.
pub open spec fn key_refused() -> Seq<char> {
    "invalid key length"@
}

/// The signature of the empty message under `session_key`. A refused key is
/// an invalid parameter.
pub fn session_signature(session_key: &str) -> (r: Result<String, Error>)
    ensures
        r.is_ok() == spec_signature(session_key@).is_some(),
        r matches Ok(signature) ==> Some(signature@) == spec_signature(session_key@),
        r matches Err(e) ==> e@ == (ErrorKind::InvalidParameter, key_refused()),
{
    let empty: Vec<u8> = Vec::new();
    match hmac_sha256(session_key.as_bytes(), empty.as_slice()) {
        Some(code) => Ok(hex_encode(&code)),
        None => Err(Error::InvalidParameter("invalid key length".to_string())),
    }
}

/// The pairs that authenticate a request about the session of `open_id`: the
/// openid, the signature and the method of the signature.
pub open spec fn signed_pairs(open_id: Seq<char>, signature: Seq<char>) -> Seq<
    (Seq<char>, Seq<char>),
> {
    seq![("openid"@, open_id), ("signature"@, signature), ("sig_method"@, "hmac_sha256"@)]
}

/// The same pairs as the members of a JSON object.
pub open spec fn signed_members(open_id: Seq<char>, signature: Seq<char>) -> Seq<
    (Seq<char>, MemberModel),
> {
    seq![
        ("openid"@, MemberModel::Text(open_id)),
        ("signature"@, MemberModel::Text(signature)),
        ("sig_method"@, MemberModel::Text("hmac_sha256"@)),
    ]
}

/// The request that asks whether the session of `open_id` is still alive: a
/// GET that carries the signed pairs in the query and again in the body.
pub open spec fn check_session_request(open_id: Seq<char>, signature: Seq<char>) -> RequestModel {
    RequestModel {
        url: CHECK_SESSION_KEY_END_POINT@,
        query: signed_pairs(open_id, signature),
        method: Method::Get,
        headers: agent_headers(),
        body: Some(signed_members(open_id, signature)),
    }
}

/// The request that asks for a new session key for `open_id`, authorised by
/// `access_token`: a GET that carries the access token and the signed pairs
/// in the query and again in the body.
pub open spec fn reset_session_request(
    open_id: Seq<char>,
    signature: Seq<char>,
    access_token: Seq<char>,
) -> RequestModel {
    RequestModel {
        url: RESET_SESSION_KEY_END_POINT@,
        query: seq![("access_token"@, access_token)] + signed_pairs(open_id, signature),
        method: Method::Get,
        headers: agent_headers(),
        body: Some(
            seq![("access_token"@, MemberModel::Text(access_token))] + signed_members(
                open_id,
                signature,
            ),
        ),
    }
}

impl Credential {
    /// The user's id within the mini-program.
    pub fn open_id(&self) -> (s: &str)
        ensures
            s@ == self@.open_id,
    {
        self.open_id.as_str()
    }

    /// The key of the session, in base64.
    pub fn session_key(&self) -> (s: &str)
        ensures
            s@ == self@.session_key,
    {
        self.session_key.as_str()
    }

    /// The user's id across the applications of one owner, if known.
    pub fn union_id(&self) -> (s: Option<&str>)
        ensures
            crate::user::user_info::optional_str(s) == self@.union_id,
    {
        match &self.union_id {
            Some(id) => Some(id.as_str()),
            None => None,
        }
    }

    /// Decrypts the profile that the front end obtained, with the key of
    /// this session, and decodes it.
    pub fn decrypt(&self, encrypted_data: &str, iv: &str) -> (r: Result<UserInfo, Error>)
        ensures
            r.is_ok() == spec_decrypt_user(self@.session_key, encrypted_data@, iv@).is_ok(),
            r matches Ok(info) ==> Ok::<UserInfoModel, (ErrorKind, Seq<char>)>(info@)
                == spec_decrypt_user(self@.session_key, encrypted_data@, iv@),
            r matches Err(e) ==> Err::<UserInfoModel, (ErrorKind, Seq<char>)>(e@)
                == spec_decrypt_user(self@.session_key, encrypted_data@, iv@),
    {
        let plain = match self.decrypt_bytes(encrypted_data, iv) {
            Ok(plain) => plain,
            Err(e) => {
                return Err(e);
            },
        };
        match UserBuilder::decode(plain.as_slice()) {
            Ok(builder) => Ok(builder.build()),
            Err(e) => Err(e),
        }
    }

    /// Decrypts user data that the front end obtained, with the key of this
    /// session: AES-128 in CBC mode with PKCS#7 padding, everything handed
    /// over in base64. The result is the plain text, the JSON of the data.
    pub fn decrypt_bytes(&self, encrypted_data: &str, iv: &str) -> (r: Result<Vec<u8>, Error>)
        ensures
            plain_view(r) == spec_decrypt(self@.session_key, encrypted_data@, iv@),
    {
        let key = match base64_decode(self.session_key.as_str()) {
            Some(key) => key,
            None => {
                return Err(Error::Decode("invalid base64".to_string()));
            },
        };
        let vector = match base64_decode(iv) {
            Some(vector) => vector,
            None => {
                return Err(Error::Decode("invalid base64".to_string()));
            },
        };
        let data = match base64_decode(encrypted_data) {
            Some(data) => data,
            None => {
                return Err(Error::Decode("invalid base64".to_string()));
            },
        };
        if key.len() != 16 || vector.len() != 16 {
            return Err(Error::InvalidParameter("key and iv must be 16 bytes long".to_string()));
        }
        decrypt_with(&key, &vector, &data)
    }
}

impl User {
    /// The request that asks whether the session of `open_id` is still
    /// alive, signed with `session_key`. Fails exactly when the key is
    /// refused.
    pub fn check_session_key_request(session_key: &str, open_id: &str) -> (r: Result<
        HttpRequest,
        Error,
    >)
        ensures
            r.is_ok() == spec_signature(session_key@).is_some(),
            r matches Ok(request) ==> request@ == check_session_request(
                open_id@,
                spec_signature(session_key@).unwrap(),
            ),
            r matches Err(e) ==> e@ == (ErrorKind::InvalidParameter, key_refused()),
    {
        let signature = match session_signature(session_key) {
            Ok(signature) => signature,
            Err(e) => {
                return Err(e);
            },
        };
        let mut query: Vec<(String, String)> = Vec::new();
        push_pair(&mut query, "openid", open_id);
        push_pair(&mut query, "signature", signature.as_str());
        push_pair(&mut query, "sig_method", "hmac_sha256");
        assert(pairs_view(query) =~= signed_pairs(open_id@, signature@));
        let mut body: Vec<(String, JsonMember)> = Vec::new();
        push_text(&mut body, "openid", open_id);
        push_text(&mut body, "signature", signature.as_str());
        push_text(&mut body, "sig_method", "hmac_sha256");
        assert(members_view(body) =~= signed_members(open_id@, signature@));
        Ok(
            HttpRequest {
                url: CHECK_SESSION_KEY_END_POINT.to_string(),
                query,
                method: Method::Get,
                headers: agent_request_headers(),
                body: Some(body),
            },
        )
    }

    /// Turns what was observed of the session check into its result: a
    /// success status means that the session is alive; everything else is
    /// the failure of the exchange. The body of the answer is not looked at.
    pub fn check_session_key_result(exchange: Exchange<()>) -> (r: Result<(), Error>)
        ensures
            r == spec_conclude(exchange),
    {
        conclude(exchange)
    }

    /// The request that asks for a new session key for `open_id`, signed
    /// with `session_key` and authorised by `access_token`. Fails exactly
    /// when the key is refused.
    pub fn reset_session_key_request(session_key: &str, open_id: &str, access_token: &str) -> (r:
        Result<HttpRequest, Error>)
        ensures
            r.is_ok() == spec_signature(session_key@).is_some(),
            r matches Ok(request) ==> request@ == reset_session_request(
                open_id@,
                spec_signature(session_key@).unwrap(),
                access_token@,
            ),
            r matches Err(e) ==> e@ == (ErrorKind::InvalidParameter, key_refused()),
    {
        let signature = match session_signature(session_key) {
            Ok(signature) => signature,
            Err(e) => {
                return Err(e);
            },
        };
        let mut query: Vec<(String, String)> = Vec::new();
        push_pair(&mut query, "access_token", access_token);
        push_pair(&mut query, "openid", open_id);
        push_pair(&mut query, "signature", signature.as_str());
        push_pair(&mut query, "sig_method", "hmac_sha256");
        assert(pairs_view(query) =~= reset_session_request(
            open_id@,
            signature@,
            access_token@,
        ).query);
        let mut body: Vec<(String, JsonMember)> = Vec::new();
        push_text(&mut body, "access_token", access_token);
        push_text(&mut body, "openid", open_id);
        push_text(&mut body, "signature", signature.as_str());
        push_text(&mut body, "sig_method", "hmac_sha256");
        assert(members_view(body) =~= reset_session_request(
            open_id@,
            signature@,
            access_token@,
        ).body.unwrap());
        Ok(
            HttpRequest {
                url: RESET_SESSION_KEY_END_POINT.to_string(),
                query,
                method: Method::Get,
                headers: agent_request_headers(),
                body: Some(body),
            },
        )
    }

    /// Turns what was observed of the key reset into its result: the new
    /// session of a successful answer, the remote's refusal, or the failure
    /// of the exchange.
    pub fn reset_session_key_result(exchange: Exchange<Response<CredentialBuilder>>) -> (r: Result<
        Credential,
        Error,
    >)
        ensures
            exchange matches Exchange::Decoded { body: Response::Success { data } } ==> r
                matches Ok(credential) && credential@ == data@,
            exchange matches Exchange::Decoded { body: Response::Error { code, message } } ==> r
                == Err::<Credential, Error>(Error::InternalServer(message)),
            exchange matches Exchange::Unreachable { message } ==> r == Err::<Credential, Error>(
                Error::Transport(message),
            ),
            exchange matches Exchange::Refused { status, text } ==> r == Err::<Credential, Error>(
                Error::InternalServer(text),
            ),
            exchange matches Exchange::Undecodable { message } ==> r == Err::<Credential, Error>(
                Error::Decode(message),
            ),
    {
        match conclude_reply(exchange) {
            Ok(builder) => Ok(builder.build()),
            Err(e) => Err(e),
        }
    }
}

/// What was observed of an exchange, with the bytes of a successful answer
/// dropped.
fn without_body(exchange: Exchange<Vec<u8>>) -> (r: Exchange<()>)
    ensures
        exchange is Decoded ==> r == (Exchange::Decoded { body: () }),
        exchange matches Exchange::Unreachable { message } ==> r == (Exchange::<
            (),
        >::Unreachable { message }),
        exchange matches Exchange::Refused { status, text } ==> r == (Exchange::<()>::Refused {
            status,
            text,
        }),
        exchange matches Exchange::Undecodable { message } ==> r == (Exchange::<
            (),
        >::Undecodable { message }),
{
    match answer_of(exchange) {
        Ok(_) => Exchange::Decoded { body: () },
        Err(other) => other,
    }
}

impl<C: HttpClient> WechatMinappSDK<C> {
    /// Asks the remote whether the session of `open_id` is still alive. A
    /// session key that cannot sign is refused before anything is sent. The
    /// token cache is not involved.
    pub fn check_session_key(&self, session_key: &str, open_id: &str) -> (r: Result<(), Error>)
        ensures
            spec_signature(session_key@) is None ==> (r matches Err(e) && e@ == (
                ErrorKind::InvalidParameter,
                key_refused(),
            )),
    {
        let request = match User::check_session_key_request(session_key, open_id) {
            Ok(request) => request,
            Err(e) => {
                return Err(e);
            },
        };
        User::check_session_key_result(without_body(self.exchange(request)))
    }

    /// Asks the remote for a new session key for `open_id`. A session key
    /// that cannot sign is refused before the token cache or the remote is
    /// touched; otherwise the access token is obtained, the request sent and
    /// the answer decoded. The refresher role is free again afterwards,
    /// whatever happened.
    pub fn reset_session_key(&mut self, session_key: &str, open_id: &str) -> (r: Result<
        Credential,
        Error,
    >)
        requires
            old(self).wf(),
        ensures
            final(self).wf(),
            spec_signature(session_key@) is Some ==> asked_for_token(old(self)@, final(self)@, r),
            spec_signature(session_key@) is None ==> (final(self)@ == old(self)@ && (r matches Err(
                e,
            ) && e@ == (ErrorKind::InvalidParameter, key_refused()))),
    {
        match session_signature(session_key) {
            Ok(_) => {},
            Err(e) => {
                return Err(e);
            },
        }
        let ghost before = self@;
        let fetched = self.token();
        proof {
            let now = choose|now: Timestamp| served(before, self@, now@, outcome_view(fetched));
            assert(served(before, self@, now@, outcome_view(fetched)));
        }
        let token = match fetched {
            Ok(token) => token,
            Err(e) => {
                return Err(e);
            },
        };
        let request = match User::reset_session_key_request(
            session_key,
            open_id,
            token.as_str(),
        ) {
            Ok(request) => request,
            Err(e) => {
                return Err(e);
            },
        };
        User::reset_session_key_result(CredentialBuilder::read(self.exchange(request)))
    }
}

} // verus!
