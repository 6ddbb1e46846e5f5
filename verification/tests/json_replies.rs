use wechat_minapp::client::token_type::{credential_at, TokenReply};
use wechat_minapp::client::Timestamp;
use wechat_minapp::error::ErrorKind;
use wechat_minapp::link::ShortLink;
use wechat_minapp::user::{CredentialBuilder, User};
use wechat_minapp::utils::http::{Exchange, Response};
use wechat_minapp::utils::json::refusal;

#[test]
fn token_answer_is_decoded_from_its_members() {
    let body = br#"{"access_token":"abc123","expires_in":7200}"#;
    match TokenReply::decode(body).unwrap() {
        Response::Success { data } => {
            assert_eq!(data.access_token, "abc123");
            assert_eq!(data.expires_in, 7200);
        }
        _ => panic!("unexpected answer"),
    }
    // Members in another order, with more beside them, and an error code of 0.
    let body = br#"{"errmsg":"ok","expires_in":-5,"errcode":0,"x":[1,2],"access_token":"t"}"#;
    match TokenReply::decode(body).unwrap() {
        Response::Success { data } => {
            assert_eq!(data.access_token, "t");
            assert_eq!(data.expires_in, -5);
        }
        _ => panic!("unexpected answer"),
    }
}

#[test]
fn token_answer_with_an_error_code_is_a_refusal() {
    let body = br#"{"errcode":40013,"errmsg":"invalid appid"}"#;
    match TokenReply::decode(body).unwrap() {
        Response::Error { code, message } => {
            assert_eq!(code, 40013);
            assert_eq!(message, "invalid appid");
        }
        _ => panic!("unexpected answer"),
    }
    // The refusal wins over data beside it, and may come without a message.
    let body = br#"{"errcode":-1,"access_token":"t","expires_in":1}"#;
    match TokenReply::decode(body).unwrap() {
        Response::Error { code, message } => {
            assert_eq!(code, -1);
            assert_eq!(message, "");
        }
        _ => panic!("unexpected answer"),
    }
    assert_eq!(refusal(br#"{"errcode":7,"errmsg":"m"}"#), Some((7, "m".to_string())));
    assert_eq!(refusal(br#"{"errcode":0,"errmsg":"ok"}"#), None);
    assert_eq!(refusal(br#"{"errcode":"7"}"#), None);
    assert_eq!(refusal(b"not json"), None);
}

#[test]
fn malformed_token_answers_are_undecodable() {
    for body in [
        &b""[..],
        b"not json",
        b"[]",
        b"null",
        br#"{"access_token":"t"}"#,
        br#"{"expires_in":7200}"#,
        br#"{"access_token":5,"expires_in":7200}"#,
        br#"{"access_token":"t","expires_in":"7200"}"#,
        br#"{"access_token":"t","expires_in":7200.5}"#,
        br#"{"access_token":"t","expires_in":99999999999999999999}"#,
        br#"{"access_token":"t","expires_in":7200"#,
    ] {
        let e = TokenReply::decode(body).err().unwrap();
        assert_eq!(e.kind(), ErrorKind::Decode);
        assert_eq!(e.message(), "the answer lacks an expected member");
    }
}

#[test]
fn token_exchange_is_read_into_a_credential() {
    let now = Timestamp::new(1_700_000_000, 0);
    let observed = Exchange::Decoded {
        body: br#"{"access_token":"abc123","expires_in":7200}"#.to_vec(),
    };
    let credential = credential_at(TokenReply::read(observed), now).unwrap();
    assert_eq!(credential.access_token, "abc123");
    assert_eq!(credential.expired_at, Timestamp::new(1_700_007_200, 0));

    let observed = Exchange::Decoded { body: b"<html>".to_vec() };
    let e = credential_at(TokenReply::read(observed), now).err().unwrap();
    assert_eq!(e.kind(), ErrorKind::Decode);

    let observed = Exchange::Decoded {
        body: br#"{"errcode":40125,"errmsg":"invalid appsecret"}"#.to_vec(),
    };
    let e = credential_at(TokenReply::read(observed), now).err().unwrap();
    assert_eq!(
        (e.kind(), e.message()),
        (ErrorKind::InternalServer, "invalid appsecret".to_string())
    );

    let observed = Exchange::Refused { status: 500, text: "oops".to_string() };
    let e = credential_at(TokenReply::read(observed), now).err().unwrap();
    assert_eq!((e.kind(), e.message()), (ErrorKind::InternalServer, "oops".to_string()));

    let observed = Exchange::Unreachable { message: "dns".to_string() };
    let e = credential_at(TokenReply::read(observed), now).err().unwrap();
    assert_eq!((e.kind(), e.message()), (ErrorKind::Transport, "dns".to_string()));
}

#[test]
fn session_answer_is_decoded_from_its_members() {
    let body = br#"{"openid":"oid","session_key":"key","unionid":"uid"}"#;
    let session = User::login_result(CredentialBuilder::read(Exchange::Decoded {
        body: body.to_vec(),
    }))
    .unwrap();
    assert_eq!(session.open_id(), "oid");
    assert_eq!(session.session_key(), "key");
    assert_eq!(session.union_id(), Some("uid"));

    let body = br#"{"session_key":"key","openid":"oid"}"#;
    match CredentialBuilder::decode(body).unwrap() {
        Response::Success { data } => assert_eq!(data.union_id, None),
        _ => panic!("unexpected answer"),
    }

    let body = br#"{"errcode":40029,"errmsg":"invalid code"}"#;
    let e = User::login_result(CredentialBuilder::read(Exchange::Decoded {
        body: body.to_vec(),
    }))
    .err().unwrap();
    assert_eq!((e.kind(), e.message()), (ErrorKind::InternalServer, "invalid code".to_string()));

    let e = CredentialBuilder::decode(br#"{"openid":"oid"}"#).err().unwrap();
    assert_eq!(e.kind(), ErrorKind::Decode);
}

#[test]
fn short_link_answer_is_decoded_from_its_member() {
    let body = br#"{"errcode":0,"errmsg":"ok","link":"https://wxaurl.cn/abc"}"#;
    assert_eq!(ShortLink::decode(body).unwrap().link(), "https://wxaurl.cn/abc");
    let link = ShortLink::from_exchange(ShortLink::read(Exchange::Decoded {
        body: body.to_vec(),
    }))
    .unwrap();
    assert_eq!(link.link(), "https://wxaurl.cn/abc");

    let e = ShortLink::from_exchange(ShortLink::read(Exchange::Decoded {
        body: br#"{"errcode":45009,"errmsg":"reach max api daily quota limit"}"#.to_vec(),
    }))
    .err().unwrap();
    assert_eq!(e.kind(), ErrorKind::Decode);
    assert_eq!(e.message(), "the answer lacks an expected member");
}
