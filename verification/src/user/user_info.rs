//! Profile data and phone numbers, and the exchanges that obtain them.

use vstd::prelude::*;
use crate::client::{asked_for_token, Timestamp, WechatMinappSDK};
use crate::client::memory_storage::served;
use crate::client::token_storage::outcome_view;
use crate::constants::{AUTHENTICATION_END_POINT, PHONE_END_POINT};
use crate::error::{Error, ErrorKind};
use crate::user::User;
use crate::user::credential::{
    Credential, CredentialBuilder, session_view, spec_session_outcome,
};
use crate::utils::pairs_view;
use crate::utils::http::{
    access_token_query, agent_headers, agent_request_headers, answered, conclude_reply, Exchange,
    Observation, observation,
    HttpClient, HttpRequest, json_headers, json_request_headers, JsonMember, MemberModel,
    members_view, Method, push_pair, push_text, RequestModel, Response, token_query,
};
use crate::utils::json::{
    answer_of, integer_at, member_missing, missing_member, refusal, refused,
    ReplyModel, spec_json_integer, spec_json_text, spec_json_unsigned, spec_refusal, text_at,
    unsigned_at,
};

verus! {

/// The mark that the platform puts on data it hands out: the application the
/// data was made for, and when.
#[derive(Debug, Clone)]
pub struct Watermark {
    app_id: String,
    timestamp: u64,
}

/// A watermark as it arrives.
#[derive(Debug, Clone)]
pub struct WatermarkBuilder {
    pub app_id: String,
    pub timestamp: u64,
}

impl WatermarkBuilder {
    /// The watermark with the same application and time.
    pub fn build(self) -> (mark: Watermark)
        ensures
            mark.spec_app_id() == self.app_id@,
            mark.spec_timestamp() == self.timestamp,
    {
        Watermark { app_id: self.app_id, timestamp: self.timestamp }
    }
}

impl Watermark {
    pub closed spec fn spec_app_id(&self) -> Seq<char> {
        self.app_id@
    }

    pub closed spec fn spec_timestamp(&self) -> u64 {
        self.timestamp
    }
}

/// The profile of a user.
#[derive(Debug, Clone)]
pub struct UserInfo {
    nickname: String,
    gender: u8,
    country: String,
    province: String,
    city: String,
    avatar: String,
    watermark: Watermark,
}

/// What a profile is, mathematically.
pub struct UserInfoModel {
    pub nickname: Seq<char>,
    /// 0 for unknown, 1 for male, 2 for female.
    pub gender: u8,
    pub country: Seq<char>,
    pub province: Seq<char>,
    pub city: Seq<char>,
    /// The address of the avatar image.
    pub avatar: Seq<char>,
    pub app_id: Seq<char>,
    pub timestamp: u64,
}

impl View for UserInfo {
    type V = UserInfoModel;

    closed spec fn view(&self) -> UserInfoModel {
        UserInfoModel {
            nickname: self.nickname@,
            gender: self.gender,
            country: self.country@,
            province: self.province@,
            city: self.city@,
            avatar: self.avatar@,
            app_id: self.watermark.spec_app_id(),
            timestamp: self.watermark.spec_timestamp(),
        }
    }
}

impl UserInfo {
    pub fn nickname(&self) -> (s: &str)
        ensures
            s@ == self@.nickname,
    {
        self.nickname.as_str()
    }

    pub fn gender(&self) -> (g: u8)
        ensures
            g == self@.gender,
    {
        self.gender
    }

    pub fn country(&self) -> (s: &str)
        ensures
            s@ == self@.country,
    {
        self.country.as_str()
    }

    pub fn province(&self) -> (s: &str)
        ensures
            s@ == self@.province,
    {
        self.province.as_str()
    }

    pub fn city(&self) -> (s: &str)
        ensures
            s@ == self@.city,
    {
        self.city.as_str()
    }

    pub fn avatar(&self) -> (s: &str)
        ensures
            s@ == self@.avatar,
    {
        self.avatar.as_str()
    }

    pub fn app_id(&self) -> (s: &str)
        ensures
            s@ == self@.app_id,
    {
        self.watermark.app_id.as_str()
    }

    pub fn timestamp(&self) -> (t: u64)
        ensures
            t == self@.timestamp,
    {
        self.watermark.timestamp
    }
}

/// A profile as it arrives, decrypted and decoded.
#[derive(Debug)]
pub struct UserBuilder {
    pub nickname: String,
    pub gender: u8,
    pub country: String,
    pub province: String,
    pub city: String,
    pub avatar: String,
    pub watermark: WatermarkBuilder,
}

impl View for UserBuilder {
    type V = UserInfoModel;

    open spec fn view(&self) -> UserInfoModel {
        UserInfoModel {
            nickname: self.nickname@,
            gender: self.gender,
            country: self.country@,
            province: self.province@,
            city: self.city@,
            avatar: self.avatar@,
            app_id: self.watermark.app_id@,
            timestamp: self.watermark.timestamp,
        }
    }
}

/// The profile that the bytes of a decrypted answer hold, from the members
/// `nickName`, `gender`, `country`, `province`, `city` and `avatarUrl` and,
/// inside `watermark`, `appid` and `timestamp`; `None` where one of them is
/// missing or of another kind, or the gender is no number from 0 to 255.
pub open spec fn spec_user(body: Seq<u8>) -> Option<UserInfoModel> {
    let nickname = spec_json_text(body, "/nickName"@);
    let gender = spec_json_integer(body, "/gender"@);
    let country = spec_json_text(body, "/country"@);
    let province = spec_json_text(body, "/province"@);
    let city = spec_json_text(body, "/city"@);
    let avatar = spec_json_text(body, "/avatarUrl"@);
    let app_id = spec_json_text(body, "/watermark/appid"@);
    let timestamp = spec_json_unsigned(body, "/watermark/timestamp"@);
    if nickname is Some && gender is Some && 0 <= gender.unwrap() <= 255 && country is Some
        && province is Some && city is Some && avatar is Some && app_id is Some && timestamp
        is Some {
        Some(
            UserInfoModel {
                nickname: nickname.unwrap(),
                gender: gender.unwrap() as u8,
                country: country.unwrap(),
                province: province.unwrap(),
                city: city.unwrap(),
                avatar: avatar.unwrap(),
                app_id: app_id.unwrap(),
                timestamp: timestamp.unwrap() as u64,
            },
        )
    } else {
        None
    }
}

impl UserBuilder {
    /// Decodes the bytes of a decrypted profile.
    pub fn decode(body: &[u8]) -> (r: Result<UserBuilder, Error>)
        ensures
            r.is_ok() == spec_user(body@).is_some(),
            r matches Ok(builder) ==> Some(builder@) == spec_user(body@),
            r matches Err(e) ==> e@ == (ErrorKind::Decode, member_missing()),
    {
        let nickname = match text_at(body, "/nickName") {
            Some(text) => text,
            None => {
                return Err(missing_member());
            },
        };
        let gender = match integer_at(body, "/gender") {
            Some(n) => {
                if 0 <= n && n <= 255 {
                    n as u8
                } else {
                    return Err(missing_member());
                }
            },
            None => {
                return Err(missing_member());
            },
        };
        let country = match text_at(body, "/country") {
            Some(text) => text,
            None => {
                return Err(missing_member());
            },
        };
        let province = match text_at(body, "/province") {
            Some(text) => text,
            None => {
                return Err(missing_member());
            },
        };
        let city = match text_at(body, "/city") {
            Some(text) => text,
            None => {
                return Err(missing_member());
            },
        };
        let avatar = match text_at(body, "/avatarUrl") {
            Some(text) => text,
            None => {
                return Err(missing_member());
            },
        };
        let app_id = match text_at(body, "/watermark/appid") {
            Some(text) => text,
            None => {
                return Err(missing_member());
            },
        };
        let timestamp = match unsigned_at(body, "/watermark/timestamp") {
            Some(n) => n,
            None => {
                return Err(missing_member());
            },
        };
        Ok(
            UserBuilder {
                nickname,
                gender,
                country,
                province,
                city,
                avatar,
                watermark: WatermarkBuilder { app_id, timestamp },
            },
        )
    }

    /// The profile with the same data.
    pub fn build(self) -> (info: UserInfo)
        ensures
            info@ == self@,
    {
        UserInfo {
            nickname: self.nickname,
            gender: self.gender,
            country: self.country,
            province: self.province,
            city: self.city,
            avatar: self.avatar,
            watermark: self.watermark.build(),
        }
    }
}

/// The phone number of a user.
#[derive(Debug, Clone)]
pub struct Contact {
    phone_number: String,
    pure_phone_number: String,
    country_code: String,
    watermark: Watermark,
}

/// What a phone number is, mathematically.
pub struct ContactModel {
    /// The number with its country code.
    pub phone_number: Seq<char>,
    /// The number without a country code.
    pub pure_phone_number: Seq<char>,
    pub country_code: Seq<char>,
    pub app_id: Seq<char>,
    pub timestamp: u64,
}

impl View for Contact {
    type V = ContactModel;

    closed spec fn view(&self) -> ContactModel {
        ContactModel {
            phone_number: self.phone_number@,
            pure_phone_number: self.pure_phone_number@,
            country_code: self.country_code@,
            app_id: self.watermark.spec_app_id(),
            timestamp: self.watermark.spec_timestamp(),
        }
    }
}

impl Contact {
    pub fn phone_number(&self) -> (s: &str)
        ensures
            s@ == self@.phone_number,
    {
        self.phone_number.as_str()
    }

    pub fn pure_phone_number(&self) -> (s: &str)
        ensures
            s@ == self@.pure_phone_number,
    {
        self.pure_phone_number.as_str()
    }

    pub fn country_code(&self) -> (s: &str)
        ensures
            s@ == self@.country_code,
    {
        self.country_code.as_str()
    }

    pub fn app_id(&self) -> (s: &str)
        ensures
            s@ == self@.app_id,
    {
        self.watermark.app_id.as_str()
    }

    pub fn timestamp(&self) -> (t: u64)
        ensures
            t == self@.timestamp,
    {
        self.watermark.timestamp
    }
}

/// The part of the phone endpoint's answer that holds the number.
#[derive(Debug, Clone)]
pub struct PhoneInner {
    pub phone_number: String,
    pub pure_phone_number: String,
    pub country_code: String,
    pub watermark: WatermarkBuilder,
}

/// A phone number as it arrives.
#[derive(Debug, Clone)]
pub struct ContactBuilder {
    pub inner: PhoneInner,
}

impl View for ContactBuilder {
    type V = ContactModel;

    open spec fn view(&self) -> ContactModel {
        ContactModel {
            phone_number: self.inner.phone_number@,
            pure_phone_number: self.inner.pure_phone_number@,
            country_code: self.inner.country_code@,
            app_id: self.inner.watermark.app_id@,
            timestamp: self.inner.watermark.timestamp,
        }
    }
}

/// What the bytes of the phone endpoint's answer hold: the remote's refusal
/// where there is one; else the number, from the members `phoneNumber`,
/// `purePhoneNumber`, `countryCode` and `watermark` inside `phone_info`;
/// `None` where the answer is neither.
pub open spec fn spec_contact_reply(body: Seq<u8>) -> Option<ReplyModel<ContactModel>> {
    match spec_refusal(body) {
        Some((code, message)) => Some(ReplyModel::Refusal { code, message }),
        None => {
            let phone_number = spec_json_text(body, "/phone_info/phoneNumber"@);
            let pure_phone_number = spec_json_text(body, "/phone_info/purePhoneNumber"@);
            let country_code = spec_json_text(body, "/phone_info/countryCode"@);
            let app_id = spec_json_text(body, "/phone_info/watermark/appid"@);
            let timestamp = spec_json_unsigned(body, "/phone_info/watermark/timestamp"@);
            if phone_number is Some && pure_phone_number is Some && country_code is Some && app_id
                is Some && timestamp is Some {
                Some(
                    ReplyModel::Data(
                        ContactModel {
                            phone_number: phone_number.unwrap(),
                            pure_phone_number: pure_phone_number.unwrap(),
                            country_code: country_code.unwrap(),
                            app_id: app_id.unwrap(),
                            timestamp: timestamp.unwrap() as u64,
                        },
                    ),
                )
            } else {
                None
            }
        },
    }
}

/// The view of a decoded answer of the phone endpoint.
pub open spec fn contact_reply_view(reply: Response<ContactBuilder>) -> ReplyModel<ContactModel> {
    match reply {
        Response::Success { data } => ReplyModel::Data(data@),
        Response::Error { code, message } => ReplyModel::Refusal {
            code: code as int,
            message: message@,
        },
    }
}

impl ContactBuilder {
    /// Decodes the bytes of the phone endpoint's answer.
    pub fn decode(body: &[u8]) -> (r: Result<Response<ContactBuilder>, Error>)
        ensures
            r.is_ok() == spec_contact_reply(body@).is_some(),
            r matches Ok(reply) ==> Some(contact_reply_view(reply)) == spec_contact_reply(body@),
            r matches Err(e) ==> e@ == (ErrorKind::Decode, member_missing()),
    {
        if let Some(refusal) = refusal(body) {
            return Ok(refused(refusal));
        }
        let phone_number = match text_at(body, "/phone_info/phoneNumber") {
            Some(text) => text,
            None => {
                return Err(missing_member());
            },
        };
        let pure_phone_number = match text_at(body, "/phone_info/purePhoneNumber") {
            Some(text) => text,
            None => {
                return Err(missing_member());
            },
        };
        let country_code = match text_at(body, "/phone_info/countryCode") {
            Some(text) => text,
            None => {
                return Err(missing_member());
            },
        };
        let app_id = match text_at(body, "/phone_info/watermark/appid") {
            Some(text) => text,
            None => {
                return Err(missing_member());
            },
        };
        let timestamp = match unsigned_at(body, "/phone_info/watermark/timestamp") {
            Some(n) => n,
            None => {
                return Err(missing_member());
            },
        };
        Ok(
            Response::Success {
                data: ContactBuilder {
                    inner: PhoneInner {
                        phone_number,
                        pure_phone_number,
                        country_code,
                        watermark: WatermarkBuilder { app_id, timestamp },
                    },
                },
            },
        )
    }

    /// What was observed of the exchange with the phone endpoint, the bytes
    /// of a successful answer decoded.
    pub fn read(exchange: Exchange<Vec<u8>>) -> (r: Exchange<Response<ContactBuilder>>)
        ensures
            exchange matches Exchange::Decoded { body } ==> match spec_contact_reply(body@) {
                Some(reply) => r matches Exchange::Decoded { body: decoded_body }
                    && contact_reply_view(decoded_body) == reply,
                None => r matches Exchange::Undecodable { message } && message@
                    == member_missing(),
            },
            exchange matches Exchange::Unreachable { message } ==> r == (Exchange::<
                Response<ContactBuilder>,
            >::Unreachable { message }),
            exchange matches Exchange::Refused { status, text } ==> r == (Exchange::<
                Response<ContactBuilder>,
            >::Refused { status, text }),
            exchange matches Exchange::Undecodable { message } ==> r == (Exchange::<
                Response<ContactBuilder>,
            >::Undecodable { message }),
    {
        match answer_of(exchange) {
            Ok(bytes) => match Self::decode(bytes.as_slice()) {
                Ok(body) => Exchange::Decoded { body },
                Err(e) => Exchange::Undecodable { message: e.message() },
            },
            Err(other) => other,
        }
    }

    /// The phone number with the same data.
    pub fn build(self) -> (contact: Contact)
        ensures
            contact@ == self@,
    {
        Contact {
            phone_number: self.inner.phone_number,
            pure_phone_number: self.inner.pure_phone_number,
            country_code: self.inner.country_code,
            watermark: self.inner.watermark.build(),
        }
    }
}

/// The request that exchanges the login code `code` for a session, on behalf
/// of the application `app_id`: a GET whose query names the application, its
/// secret, the code and the grant type.
pub open spec fn login_request(app_id: Seq<char>, secret: Seq<char>, code: Seq<char>) -> RequestModel {
    RequestModel {
        url: AUTHENTICATION_END_POINT@,
        query: seq![
            ("appid"@, app_id),
            ("secret"@, secret),
            ("js_code"@, code),
            ("grant_type"@, "authorization_code"@),
        ],
        method: Method::Get,
        headers: agent_headers(),
        body: None,
    }
}

/// The request that exchanges the phone code `code` for the user's number,
/// authorised by `access_token`: a POST whose body names the code and, where
/// it is given, the user's openid.
pub open spec fn contact_request(
    code: Seq<char>,
    open_id: Option<Seq<char>>,
    access_token: Seq<char>,
) -> RequestModel {
    RequestModel {
        url: PHONE_END_POINT@,
        query: token_query(access_token),
        method: Method::Post,
        headers: json_headers(),
        body: Some(
            seq![("code"@, MemberModel::Text(code))] + match open_id {
                Some(id) => seq![("openid"@, MemberModel::Text(id))],
                None => Seq::empty(),
            },
        ),
    }
}

/// The characters of an optional string slice.
pub open spec fn optional_str(text: Option<&str>) -> Option<Seq<char>> {
    match text {
        Some(text) => Some(text@),
        None => None,
    }
}

impl User {
    /// The request that exchanges the login code `code` for a session.
    pub fn login_request(&self, code: &str) -> (request: HttpRequest)
        ensures
            request@ == login_request(self.config.app_id@, self.config.secret@, code@),
    {
        let mut query: Vec<(String, String)> = Vec::new();
        push_pair(&mut query, "appid", self.config.app_id.as_str());
        push_pair(&mut query, "secret", self.config.secret.as_str());
        push_pair(&mut query, "js_code", code);
        push_pair(&mut query, "grant_type", "authorization_code");
        assert(pairs_view(query) =~= login_request(
            self.config.app_id@,
            self.config.secret@,
            code@,
        ).query);
        HttpRequest {
            url: AUTHENTICATION_END_POINT.to_string(),
            query,
            method: Method::Get,
            headers: agent_request_headers(),
            body: None,
        }
    }

    /// Turns what was observed of the login exchange into its result: the
    /// session of a successful answer, the remote's refusal, or the failure
    /// of the exchange.
    pub fn login_result(exchange: Exchange<Response<CredentialBuilder>>) -> (r: Result<
        Credential,
        Error,
    >)
        ensures
            exchange matches Exchange::Decoded { body: Response::Success { data } } ==> r
                matches Ok(credential) && credential@ == data@,
            exchange matches Exchange::Decoded { body: Response::Error { code, message } } ==> r
                == Err::<Credential, Error>(Error::InternalServer(message)),
            exchange matches Exchange::Unreachable { message } ==> r == Err::<Credential, Error>(
                Error::Transport(message),
            ),
            exchange matches Exchange::Refused { status, text } ==> r == Err::<Credential, Error>(
                Error::InternalServer(text),
            ),
            exchange matches Exchange::Undecodable { message } ==> r == Err::<Credential, Error>(
                Error::Decode(message),
            ),
    {
        match conclude_reply(exchange) {
            Ok(builder) => Ok(builder.build()),
            Err(e) => Err(e),
        }
    }

    /// The request that exchanges the phone code `code` for the user's
    /// number.
    pub fn contact_request(code: &str, open_id: Option<&str>, access_token: &str) -> (request:
        HttpRequest)
        ensures
            request@ == contact_request(code@, optional_str(open_id), access_token@),
    {
        let mut body: Vec<(String, JsonMember)> = Vec::new();
        push_text(&mut body, "code", code);
        if let Some(id) = open_id {
            push_text(&mut body, "openid", id);
        }
        assert(members_view(body) =~= contact_request(
            code@,
            optional_str(open_id),
            access_token@,
        ).body.unwrap());
        HttpRequest {
            url: PHONE_END_POINT.to_string(),
            query: access_token_query(access_token),
            method: Method::Post,
            headers: json_request_headers(),
            body: Some(body),
        }
    }

    /// Turns what was observed of the phone exchange into its result: the
    /// number of a successful answer, the remote's refusal, or the failure of
    /// the exchange.
    pub fn contact_result(exchange: Exchange<Response<ContactBuilder>>) -> (r: Result<
        Contact,
        Error,
    >)
        ensures
            exchange matches Exchange::Decoded { body: Response::Success { data } } ==> r
                matches Ok(contact) && contact@ == data@,
            exchange matches Exchange::Decoded { body: Response::Error { code, message } } ==> r
                == Err::<Contact, Error>(Error::InternalServer(message)),
            exchange matches Exchange::Unreachable { message } ==> r == Err::<Contact, Error>(
                Error::Transport(message),
            ),
            exchange matches Exchange::Refused { status, text } ==> r == Err::<Contact, Error>(
                Error::InternalServer(text),
            ),
            exchange matches Exchange::Undecodable { message } ==> r == Err::<Contact, Error>(
                Error::Decode(message),
            ),
    {
        match conclude_reply(exchange) {
            Ok(builder) => Ok(builder.build()),
            Err(e) => Err(e),
        }
    }
}

impl<C: HttpClient> WechatMinappSDK<C> {
    /// Exchanges the login code `code` for a session: the client is handed
    /// the login request of this mini-program for `code`, and what comes
    /// back is turned into the session, or into the failure, by the rules of
    /// [`spec_session_outcome`]. The token cache is not involved: a login
    /// code is used once and needs no access token.
    pub fn login(&self, code: &str) -> (r: Result<Credential, Error>)
        ensures
            exists|observed: Observation|
                #![trigger spec_session_outcome(observed)]
                answered(
                    self.spec_client(),
                    login_request(self.identity().0, self.identity().1, code@),
                    observed,
                ) && session_view(r) == spec_session_outcome(observed),
    {
        let request = User::new(self.app_config()).login_request(code);
        let observed = self.exchange(request);
        let ghost seen = observation(observed);
        let r = User::login_result(CredentialBuilder::read(observed));
        proof {
            assert(session_view(r) == spec_session_outcome(seen));
        }
        r
    }

    /// Exchanges the phone code `code` for the user's number: obtains the
    /// access token, sends the request and decodes the answer. The refresher
    /// role is free again afterwards, whatever happened.
    pub fn get_contact(&mut self, code: &str, open_id: Option<&str>) -> (r: Result<Contact, Error>)
        requires
            old(self).wf(),
        ensures
            final(self).wf(),
            asked_for_token(old(self)@, final(self)@, r),
    {
        let ghost before = self@;
        let fetched = self.token();
        proof {
            let now = choose|now: Timestamp| served(before, self@, now@, outcome_view(fetched));
            assert(served(before, self@, now@, outcome_view(fetched)));
        }
        let token = match fetched {
            Ok(token) => token,
            Err(e) => {
                return Err(e);
            },
        };
        let request = User::contact_request(code, open_id, token.as_str());
        User::contact_result(ContactBuilder::read(self.exchange(request)))
    }
}

} // verus!
