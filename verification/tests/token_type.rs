use std::cell::RefCell;
use std::rc::Rc;
use wechat_minapp::client::token_type::{
    credential_at, credential_from, credential_now, credential_of, TokenReply,
};
use wechat_minapp::client::{
    is_token_expired, MemoryTokenStorage, NonStableToken, RemoteToken, StableToken, Timestamp,
    TokenFlavour, TokenType, WechatMinappSDK,
};
use wechat_minapp::error::{Error, ErrorKind};
use wechat_minapp::link::ShortLinkArgs;
use wechat_minapp::minapp_security::{Args, Scene};
use wechat_minapp::qr::{QrCodeArgs, UnlimitedQrCodeArgs};
use wechat_minapp::utils::http::{
    observe, Exchange, HttpClient, HttpRequest, HttpResponse, JsonMember, Method, Response,
};

fn text_members(request: &HttpRequest) -> Vec<(String, String)> {
    request
        .body
        .as_ref()
        .unwrap()
        .iter()
        .map(|m| match &m.1 {
            JsonMember::Text(t) => (m.0.clone(), t.clone()),
            other => panic!("{} is no text: {:?}", m.0, other),
        })
        .collect()
}

fn pairs(list: &[(&str, &str)]) -> Vec<(String, String)> {
    list.iter().map(|(k, v)| (k.to_string(), v.to_string())).collect()
}

#[test]
fn stable_token_request_names_the_identity() {
    let token = StableToken::new("wx123", "s3cret", false);
    assert_eq!(token.app_id, "wx123");
    assert_eq!(token.secret, "s3cret");
    assert_eq!(token.end_point, "https://api.weixin.qq.com/cgi-bin/stable_token");
    assert!(!token.force_refresh);
    let request = token.request();
    assert_eq!(request.url, "https://api.weixin.qq.com/cgi-bin/stable_token");
    assert_eq!(request.method, Method::Post);
    assert!(request.query.is_empty());
    assert_eq!(request.headers, pairs(&[("user-agent", "wechat-minapp")]));
    assert_eq!(
        text_members(&request),
        pairs(&[
            ("grant_type", "client_credential"),
            ("appid", "wx123"),
            ("secret", "s3cret"),
        ])
    );
    let config = token.app_config();
    assert_eq!(config.app_id, "wx123");
    assert_eq!(config.secret, "s3cret");
}

#[test]
fn stable_token_request_can_force_a_refresh() {
    let request = StableToken::new("wx123", "s3cret", true).request();
    assert_eq!(
        text_members(&request),
        pairs(&[
            ("grant_type", "client_credential"),
            ("appid", "wx123"),
            ("secret", "s3cret"),
            ("force_refresh", "true"),
        ])
    );
}

#[test]
fn standard_token_request_goes_to_its_own_endpoint() {
    let token = NonStableToken::new("wx123", "s3cret");
    let request = token.request();
    assert_eq!(request.url, "https://api.weixin.qq.com/cgi-bin/token");
    assert_eq!(request.method, Method::Post);
    assert_eq!(
        text_members(&request),
        pairs(&[
            ("grant_type", "client_credential"),
            ("appid", "wx123"),
            ("secret", "s3cret"),
        ])
    );
    assert_eq!(token.app_config().app_id, "wx123");
}

fn success(token: &str, expires_in: i64) -> Exchange<Response<TokenReply>> {
    Exchange::Decoded {
        body: Response::Success {
            data: TokenReply { access_token: token.to_string(), expires_in },
        },
    }
}

#[test]
fn credential_expires_the_given_seconds_after_the_reply() {
    let now = Timestamp::new(1_700_000_000, 42);
    let credential = credential_at(success("abc123", 7200), now).unwrap();
    assert_eq!(credential.access_token, "abc123");
    assert_eq!(credential.expired_at, Timestamp::new(1_700_007_200, 42));
}

#[test]
fn each_kind_of_refresh_failure_is_kept_apart() {
    let now = Timestamp::new(1_700_000_000, 0);

    let e = credential_at(Exchange::Unreachable { message: "timeout".to_string() }, now)
        .err().unwrap();
    assert_eq!((e.kind(), e.message()), (ErrorKind::Transport, "timeout".to_string()));

    let e = credential_at(Exchange::Refused { status: 502, text: "bad gateway".to_string() }, now)
        .err().unwrap();
    assert_eq!((e.kind(), e.message()), (ErrorKind::InternalServer, "bad gateway".to_string()));

    let e = credential_at(
        Exchange::Decoded {
            body: Response::Error { code: 40013, message: "invalid appid".to_string() },
        },
        now,
    )
    .err().unwrap();
    assert_eq!((e.kind(), e.message()), (ErrorKind::InternalServer, "invalid appid".to_string()));

    let e = credential_at(Exchange::Undecodable { message: "missing field".to_string() }, now)
        .err().unwrap();
    assert_eq!((e.kind(), e.message()), (ErrorKind::Decode, "missing field".to_string()));

    let e = credential_at(success("t", i64::MAX), now).err().unwrap();
    assert_eq!(
        (e.kind(), e.message()),
        (ErrorKind::Decode, "expires_in is out of range".to_string())
    );
}

#[test]
fn credential_read_now_is_fresh_for_its_lifetime() {
    let credential = credential_now(success("abc123", 7200)).unwrap();
    assert_eq!(credential.access_token, "abc123");
    assert!(!is_token_expired(&credential));
    assert!(credential.expired_at.secs > 1_600_000_000 + 7200);
    assert!(credential_now(Exchange::Unreachable { message: "x".to_string() }).is_err());
}

/// A client that records what it is asked and answers from a prepared list.
struct Recorder {
    seen: Rc<RefCell<Vec<(String, Method, Vec<(String, String)>)>>>,
    answers: RefCell<Vec<Result<HttpResponse, Error>>>,
}

impl Recorder {
    fn new(answers: Vec<Result<HttpResponse, Error>>) -> Self {
        Recorder::sharing(answers, Rc::new(RefCell::new(Vec::new())))
    }

    /// A recorder that writes what it is asked into `seen`.
    fn sharing(
        mut answers: Vec<Result<HttpResponse, Error>>,
        seen: Rc<RefCell<Vec<(String, Method, Vec<(String, String)>)>>>,
    ) -> Self {
        answers.reverse();
        Recorder { seen, answers: RefCell::new(answers) }
    }

    fn urls(&self) -> Vec<String> {
        self.seen.borrow().iter().map(|r| r.0.clone()).collect()
    }
}

impl HttpClient for Recorder {
    fn execute(&self, request: HttpRequest) -> Result<HttpResponse, Error> {
        self.seen.borrow_mut().push((request.url, request.method, request.query));
        self.answers.borrow_mut().pop().expect("the client was asked once too often")
    }
}

fn answer(status: u16, body: &str) -> Result<HttpResponse, Error> {
    Ok(HttpResponse { status, body: body.as_bytes().to_vec() })
}

const TOKEN_ANSWER: &str = r#"{"access_token":"abc123","expires_in":7200}"#;

#[test]
fn answers_are_classified_by_their_status() {
    assert!(matches!(
        observe(answer(200, "x")),
        Exchange::Decoded { body } if body == b"x".to_vec()
    ));
    assert!(matches!(
        observe(answer(299, "")),
        Exchange::Decoded { body } if body.is_empty()
    ));
    assert!(matches!(
        observe(answer(404, "not found")),
        Exchange::Refused { status: 404, text } if text == "not found"
    ));
    assert!(matches!(
        observe(Ok(HttpResponse { status: 500, body: vec![b'a', 0xff, b'b'] })),
        Exchange::Refused { status: 500, text } if text == "a\u{fffd}b"
    ));
    assert!(matches!(
        observe(Err(Error::Transport("timeout".to_string()))),
        Exchange::Unreachable { message } if message == "timeout"
    ));
}

#[test]
fn credential_of_an_answer() {
    let now = Timestamp::new(1_700_000_000, 0);
    let credential = credential_of(answer(200, TOKEN_ANSWER), now).unwrap();
    assert_eq!(credential.access_token, "abc123");
    assert_eq!(credential.expired_at, Timestamp::new(1_700_007_200, 0));

    let e = credential_of(answer(503, "busy"), now).err().unwrap();
    assert_eq!((e.kind(), e.message()), (ErrorKind::InternalServer, "busy".to_string()));
    let e = credential_of(answer(200, "busy"), now).err().unwrap();
    assert_eq!(e.kind(), ErrorKind::Decode);
    let e = credential_of(answer(200, r#"{"errcode":40001,"errmsg":"bad"}"#), now).err().unwrap();
    assert_eq!((e.kind(), e.message()), (ErrorKind::InternalServer, "bad".to_string()));
    let e = credential_of(Err(Error::InternalServer("refused".to_string())), now).err().unwrap();
    assert_eq!((e.kind(), e.message()), (ErrorKind::Transport, "refused".to_string()));
}

#[test]
fn remote_token_sends_the_request_of_its_flavour() {
    let remote = RemoteToken::stable("wx1", "sec", true, Recorder::new(vec![answer(200, TOKEN_ANSWER)]));
    assert!(matches!(&remote.flavour, TokenFlavour::Stable(t) if t.force_refresh));
    let credential = remote.token().unwrap();
    assert_eq!(credential.access_token, "abc123");
    assert!(!is_token_expired(&credential));
    assert_eq!(remote.client.urls(), vec!["https://api.weixin.qq.com/cgi-bin/stable_token"]);
    assert_eq!(remote.app_config().app_id, "wx1");

    let remote = RemoteToken::standard("wx2", "sec", Recorder::new(vec![answer(500, "oops")]));
    let e = remote.token().err().unwrap();
    assert_eq!((e.kind(), e.message()), (ErrorKind::InternalServer, "oops".to_string()));
    assert_eq!(remote.client.urls(), vec!["https://api.weixin.qq.com/cgi-bin/token"]);
    assert_eq!(remote.app_config().secret, "sec");
    assert_eq!(remote.flavour.request().method, Method::Post);
}

#[test]
fn sdk_fetches_the_token_once_and_attaches_it() {
    let client = Recorder::new(vec![
        answer(200, TOKEN_ANSWER),
        answer(200, "PNG"),
        answer(200, r#"{"errcode":0,"errmsg":"ok","link":"https://wxaurl.cn/x"}"#),
        answer(200, r#"{"errcode":0,"errmsg":"ok"}"#),
        answer(200, "PNG2"),
    ]);
    let mut sdk = WechatMinappSDK::new("wx1", "sec", client);
    assert_eq!(sdk.app_config().app_id, "wx1");

    let args = QrCodeArgs::builder().path("pages/index").build().unwrap();
    assert_eq!(sdk.qr_code(args).unwrap().buffer(), &b"PNG".to_vec());

    let args = ShortLinkArgs::builder().path("pages/index").build().unwrap();
    assert_eq!(sdk.short_link(args).unwrap().link(), "https://wxaurl.cn/x");

    let args = Args::new("text", Scene::Comment, "oid");
    assert!(sdk.msg_sec_check(&args).unwrap().is_success());

    let args = UnlimitedQrCodeArgs::builder().page("pages/index").scene("a=1").build().unwrap();
    assert_eq!(sdk.unlimited_qr_code(args).unwrap().buffer(), &b"PNG2".to_vec());

    assert_eq!(sdk.token().unwrap(), "abc123");
    assert_eq!(sdk.transport_calls(), 1);
    let storage = MemoryTokenStorage::starting_at(
        RemoteToken::standard("wx1", "sec", Recorder::new(vec![])),
        Timestamp::new(0, 0),
    );
    let sdk2 = WechatMinappSDK::custom(storage);
    assert_eq!(sdk2.app_config().app_id, "wx1");
}

#[test]
fn sdk_requests_carry_the_cached_token() {
    let client = Recorder::new(vec![
        answer(200, TOKEN_ANSWER),
        answer(
            200,
            r#"{"phone_info":{"phoneNumber":"+861","purePhoneNumber":"1","countryCode":"86","watermark":{"timestamp":1,"appid":"wx1"}}}"#,
        ),
        answer(200, r#"{"openid":"o","session_key":"k2"}"#),
        answer(200, r#"{"openid":"o","session_key":"k"}"#),
        answer(200, ""),
    ]);
    let storage =
        MemoryTokenStorage::starting_at(RemoteToken::stable("wx1", "sec", false, client), Timestamp::new(0, 0));
    let mut sdk = WechatMinappSDK::custom(storage);

    assert_eq!(sdk.get_contact("CODE", None).unwrap().country_code(), "86");
    assert_eq!(sdk.reset_session_key("abc", "o").unwrap().session_key(), "k2");
    assert_eq!(sdk.login("CODE").unwrap().session_key(), "k");
    assert!(sdk.check_session_key("abc", "o").is_ok());
}

#[test]
fn sdk_refuses_invalid_arguments_before_it_asks_anything() {
    let mut sdk = WechatMinappSDK::new("wx1", "sec", Recorder::new(vec![]));
    let mut args = Args::new("text", Scene::Comment, "oid");
    args.signature = Some("s".to_string());
    let e = sdk.msg_sec_check(&args).err().unwrap();
    assert_eq!(e.kind(), ErrorKind::InvalidParameter);
    assert_eq!(sdk.transport_calls(), 0);
}

#[test]
fn sdk_passes_a_failed_refresh_on_and_recovers() {
    let client = Recorder::new(vec![
        answer(500, "down"),
        answer(200, TOKEN_ANSWER),
        answer(200, "PNG"),
    ]);
    let mut sdk = WechatMinappSDK::new("wx1", "sec", client);
    let args = QrCodeArgs::builder().path("pages/index").build().unwrap();
    let e = sdk.qr_code(args).err().unwrap();
    assert_eq!((e.kind(), e.message()), (ErrorKind::InternalServer, "down".to_string()));
    let args = QrCodeArgs::builder().path("pages/index").build().unwrap();
    assert_eq!(sdk.qr_code(args).unwrap().buffer(), &b"PNG".to_vec());
    assert_eq!(sdk.transport_calls(), 2);
}

#[test]
fn credential_from_an_observed_exchange() {
    let now = Timestamp::new(1_700_000_000, 7);
    let credential =
        credential_from(Exchange::Decoded { body: TOKEN_ANSWER.as_bytes().to_vec() }, now)
            .unwrap();
    assert_eq!(credential.access_token, "abc123");
    assert_eq!(credential.expired_at, Timestamp::new(1_700_007_200, 7));

    let e = credential_from(Exchange::Refused { status: 401, text: "no".to_string() }, now)
        .err()
        .unwrap();
    assert_eq!((e.kind(), e.message()), (ErrorKind::InternalServer, "no".to_string()));
    let e = credential_from(Exchange::Unreachable { message: "dns".to_string() }, now)
        .err()
        .unwrap();
    assert_eq!((e.kind(), e.message()), (ErrorKind::Transport, "dns".to_string()));
    let e = credential_from(Exchange::Undecodable { message: "bad".to_string() }, now)
        .err()
        .unwrap();
    assert_eq!((e.kind(), e.message()), (ErrorKind::Decode, "bad".to_string()));
    let e = credential_from(Exchange::Decoded { body: b"{}".to_vec() }, now).err().unwrap();
    assert_eq!(e.kind(), ErrorKind::Decode);
}

#[test]
fn login_hands_the_login_request_to_the_client() {
    let client = Recorder::new(vec![
        answer(200, r#"{"openid":"o","session_key":"k","unionid":"u"}"#),
        answer(200, r#"{"errcode":40029,"errmsg":"invalid code"}"#),
        answer(500, "down"),
        Err(Error::Transport("timeout".to_string())),
    ]);
    let sdk = WechatMinappSDK::new("wx1", "sec", client);
    let session = sdk.login("CODE").unwrap();
    assert_eq!(session.open_id(), "o");
    assert_eq!(session.union_id(), Some("u"));
    let e = sdk.login("CODE").err().unwrap();
    assert_eq!((e.kind(), e.message()), (ErrorKind::InternalServer, "invalid code".to_string()));
    let e = sdk.login("CODE").err().unwrap();
    assert_eq!((e.kind(), e.message()), (ErrorKind::InternalServer, "down".to_string()));
    let e = sdk.login("CODE").err().unwrap();
    assert_eq!((e.kind(), e.message()), (ErrorKind::Transport, "timeout".to_string()));
    assert_eq!(sdk.transport_calls(), 0);

    let seen = Rc::new(RefCell::new(Vec::new()));
    let sdk = WechatMinappSDK::new(
        "wx1",
        "sec",
        Recorder::sharing(vec![answer(404, "nf")], seen.clone()),
    );
    let request = QrCodeArgs::builder().path("p").build().unwrap().request("T");
    let observed = sdk.exchange(request);
    assert!(matches!(observed, Exchange::Refused { status: 404, text } if text == "nf"));
    // The client saw the request as it was built.
    let seen = seen.borrow();
    assert_eq!(seen.len(), 1);
    assert_eq!(seen[0].0, "https://api.weixin.qq.com/wxa/getwxacode");
    assert_eq!(seen[0].1, Method::Post);
    assert_eq!(seen[0].2, vec![("access_token".to_string(), "T".to_string())]);
}
