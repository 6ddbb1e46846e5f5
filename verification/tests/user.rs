use wechat_minapp::client::AppConfig;
use wechat_minapp::error::ErrorKind;
use wechat_minapp::user::credential::{decrypt_with, session_signature};
use wechat_minapp::user::{
    ContactBuilder, CredentialBuilder, PhoneInner, User, UserBuilder, WatermarkBuilder,
};
use wechat_minapp::utils::http::{Exchange, JsonMember, Method, Response};

const SESSION_KEY: &str = "tiihtNczf5v6AKRyjwEUhQ==";
const IV: &str = "AAECAwQFBgcICQoLDA0ODw==";
const ENCRYPTED: &str = "qlJn3yjQ/h1fvEi2eaIZifV+64fzPmQ267Nd6LZom4ooSWoHX/BcgKnD+bbnfyNjE8fI1Dbylm2CBiulfxlSiKslO8kTPKfiWfTGpENvgXdYC7B80KsWNRZlvOJSBIhswd643uO4BEK38pDLz5ydj8hViYRpqQvMxDMGCvyL1d5uacaTSDn9D2rhHFuZTI12OnP8C3mJEgxMzmv3UawxzUcqo1GQ11gu4WRQOPrVxw2b78qaFLEGtQHiYWX7CcgSZfDnZtyZnvYGv50Z/bIGXA==";
const PLAIN: &str = "{\"nickName\":\"Band\",\"gender\":1,\"country\":\"CN\",\"province\":\"Guangdong\",\"city\":\"Guangzhou\",\"avatarUrl\":\"http://example.com/a.png\",\"watermark\":{\"appid\":\"wx4f4bc4dec97d474b\",\"timestamp\":1477314187}}";

fn session(key: &str) -> wechat_minapp::user::Credential {
    CredentialBuilder {
        open_id: "oGZUI0egBJY1zhBYw2KhdUfwVJJE".to_string(),
        session_key: key.to_string(),
        union_id: None,
    }
    .build()
}

fn pairs(list: &[(&str, &str)]) -> Vec<(String, String)> {
    list.iter().map(|(k, v)| (k.to_string(), v.to_string())).collect()
}

#[test]
fn decrypt_recovers_the_plain_text() {
    let plain = session(SESSION_KEY).decrypt_bytes(ENCRYPTED, IV).unwrap();
    assert_eq!(String::from_utf8(plain).unwrap(), PLAIN);
}

#[test]
fn decrypt_recovers_the_profile() {
    let info = session(SESSION_KEY).decrypt(ENCRYPTED, IV).unwrap();
    assert_eq!(info.nickname(), "Band");
    assert_eq!(info.gender(), 1);
    assert_eq!(info.country(), "CN");
    assert_eq!(info.province(), "Guangdong");
    assert_eq!(info.city(), "Guangzhou");
    assert_eq!(info.avatar(), "http://example.com/a.png");
    assert_eq!(info.app_id(), "wx4f4bc4dec97d474b");
    assert_eq!(info.timestamp(), 1477314187);
}

#[test]
fn profile_is_decoded_from_its_members() {
    let info = UserBuilder::decode(PLAIN.as_bytes()).unwrap().build();
    assert_eq!(info.nickname(), "Band");
    assert_eq!(info.timestamp(), 1477314187);
    for body in [
        "",
        "{}",
        &PLAIN.replace("nickName", "nickname"),
        &PLAIN.replace("\"gender\":1", "\"gender\":256"),
        &PLAIN.replace("\"gender\":1", "\"gender\":-1"),
        &PLAIN.replace("\"gender\":1", "\"gender\":\"1\""),
        &PLAIN.replace("1477314187", "-5"),
        &PLAIN.replace("appid", "app_id"),
        &PLAIN.replace("watermark", "mark"),
    ] {
        let e = UserBuilder::decode(body.as_bytes()).err().unwrap();
        assert_eq!(e.kind(), ErrorKind::Decode);
        assert_eq!(e.message(), "the answer lacks an expected member");
    }
}

#[test]
fn phone_answer_is_decoded_from_its_members() {
    let body = r#"{"errcode":0,"errmsg":"ok","phone_info":{"phoneNumber":"+8613800000000","purePhoneNumber":"13800000000","countryCode":"86","watermark":{"timestamp":1637744274,"appid":"wxabc"}}}"#;
    let contact = User::contact_result(ContactBuilder::read(Exchange::Decoded {
        body: body.as_bytes().to_vec(),
    }))
    .unwrap();
    assert_eq!(contact.phone_number(), "+8613800000000");
    assert_eq!(contact.pure_phone_number(), "13800000000");
    assert_eq!(contact.country_code(), "86");
    assert_eq!(contact.app_id(), "wxabc");
    assert_eq!(contact.timestamp(), 1637744274);

    let refused = r#"{"errcode":40029,"errmsg":"code invalid"}"#;
    let e = User::contact_result(ContactBuilder::read(Exchange::Decoded {
        body: refused.as_bytes().to_vec(),
    }))
    .err().unwrap();
    assert_eq!((e.kind(), e.message()), (ErrorKind::InternalServer, "code invalid".to_string()));

    let e = ContactBuilder::decode(&body.replace("phone_info", "phone").into_bytes())
        .err().unwrap();
    assert_eq!(e.kind(), ErrorKind::Decode);
}

#[test]
fn decrypt_rejects_what_is_no_base64() {
    for (key, data, iv) in [
        ("not base64!", ENCRYPTED, IV),
        (SESSION_KEY, "not base64!", IV),
        (SESSION_KEY, ENCRYPTED, "not base64!"),
    ] {
        let e = session(key).decrypt_bytes(data, iv).err().unwrap();
        assert_eq!(e.kind(), ErrorKind::Decode);
        assert_eq!(e.message(), "invalid base64");
    }
}

#[test]
fn decrypt_rejects_keys_and_vectors_of_the_wrong_length() {
    // Eight bytes in base64.
    let short = "AAECAwQFBgc=";
    let e = session(short).decrypt(ENCRYPTED, IV).err().unwrap();
    assert_eq!(e.kind(), ErrorKind::InvalidParameter);
    assert_eq!(e.message(), "key and iv must be 16 bytes long");
    let e = session(SESSION_KEY).decrypt(ENCRYPTED, short).err().unwrap();
    assert_eq!(e.kind(), ErrorKind::InvalidParameter);
}

#[test]
fn decrypt_rejects_data_that_does_not_unpad() {
    // A wrong vector garbles only the first block; a wrong key garbles the
    // padding as well.
    let other_key = "AAECAwQFBgcICQoLDA0ODw==";
    let e = session(other_key).decrypt_bytes(ENCRYPTED, IV).err().unwrap();
    assert_eq!(e.kind(), ErrorKind::Decode);
    assert_eq!(e.message(), "invalid padding");
    // Data whose length is no multiple of the block size.
    let e = session(SESSION_KEY).decrypt("AAECAwQ=", IV).err().unwrap();
    assert_eq!(e.message(), "invalid padding");
    // Data that decrypts to something that is no profile.
    let e = session(SESSION_KEY)
        .decrypt("pqT9abR2YiUlr5ljHvJbew==", IV)
        .err().unwrap();
    assert_eq!(e.kind(), ErrorKind::Decode);
    assert_eq!(e.message(), "the answer lacks an expected member");
    assert_eq!(
        session(SESSION_KEY).decrypt_bytes("pqT9abR2YiUlr5ljHvJbew==", IV).unwrap(),
        b"hello".to_vec()
    );
}

#[test]
fn decrypt_with_raw_key_and_vector() {
    let key: Vec<u8> = vec![
        0xb6, 0x28, 0xa1, 0xb4, 0xd7, 0x33, 0x7f, 0x9b, 0xfa, 0x00, 0xa4, 0x72, 0x8f, 0x01, 0x14,
        0x85,
    ];
    let iv: Vec<u8> = (0u8..16).collect();
    // One block that decrypts to sixteen bytes of padding is the empty text.
    let e = decrypt_with(&key, &iv, &vec![0u8; 16]);
    assert!(e.is_err() || e.unwrap().len() < 16);
    let e = decrypt_with(&key, &iv, &vec![0u8; 15]).err().unwrap();
    assert_eq!(e.kind(), ErrorKind::Decode);
}

#[test]
fn signature_is_the_hex_of_the_hmac_of_the_empty_message() {
    assert_eq!(
        session_signature(SESSION_KEY).unwrap(),
        "7154f9f8b4b76b92f541cbf0e37d48840fa06e5e42da92a6f80168a1516a4735"
    );
    assert_eq!(
        session_signature("abc").unwrap(),
        "e2636077506729a8f61aff2441332e40e844a8ad44489efd80210ea6d1f51088"
    );
}

#[test]
fn check_session_request_is_signed() {
    let request = User::check_session_key_request(SESSION_KEY, "OPENID").unwrap();
    assert_eq!(request.url, "https://api.weixin.qq.com/wxa/checksession");
    assert_eq!(request.method, Method::Get);
    let signed = pairs(&[
        ("openid", "OPENID"),
        (
            "signature",
            "7154f9f8b4b76b92f541cbf0e37d48840fa06e5e42da92a6f80168a1516a4735",
        ),
        ("sig_method", "hmac_sha256"),
    ]);
    assert_eq!(request.query, signed);
    let body: Vec<(String, String)> = request
        .body
        .unwrap()
        .into_iter()
        .map(|m| match m.1 {
            JsonMember::Text(t) => (m.0, t),
            other => panic!("no text: {:?}", other),
        })
        .collect();
    assert_eq!(body, signed);
}

#[test]
fn reset_session_request_carries_the_access_token_first() {
    let request = User::reset_session_key_request("abc", "OPENID", "TOKEN").unwrap();
    assert_eq!(request.url, "https://api.weixin.qq.com/wxa/resetusersessionkey");
    assert_eq!(request.method, Method::Get);
    assert_eq!(
        request.query,
        pairs(&[
            ("access_token", "TOKEN"),
            ("openid", "OPENID"),
            (
                "signature",
                "e2636077506729a8f61aff2441332e40e844a8ad44489efd80210ea6d1f51088",
            ),
            ("sig_method", "hmac_sha256"),
        ])
    );
    assert_eq!(request.body.unwrap().len(), 4);
}

#[test]
fn session_check_succeeds_on_a_success_status_only() {
    assert!(User::check_session_key_result(Exchange::Decoded { body: () }).is_ok());
    let e = User::check_session_key_result(Exchange::Refused {
        status: 401,
        text: "expired".to_string(),
    })
    .err().unwrap();
    assert_eq!((e.kind(), e.message()), (ErrorKind::InternalServer, "expired".to_string()));
}

#[test]
fn login_request_names_code_and_identity() {
    let user = User::new(AppConfig { app_id: "wx1".to_string(), secret: "sec".to_string() });
    let request = user.login_request("0816abc");
    assert_eq!(request.url, "https://api.weixin.qq.com/sns/jscode2session");
    assert_eq!(request.method, Method::Get);
    assert_eq!(
        request.query,
        pairs(&[
            ("appid", "wx1"),
            ("secret", "sec"),
            ("js_code", "0816abc"),
            ("grant_type", "authorization_code"),
        ])
    );
    assert!(request.body.is_none());
}

#[test]
fn login_answer_becomes_a_session() {
    let credential = User::login_result(Exchange::Decoded {
        body: Response::Success {
            data: CredentialBuilder {
                open_id: "oid".to_string(),
                session_key: "key".to_string(),
                union_id: Some("uid".to_string()),
            },
        },
    })
    .unwrap();
    assert_eq!(credential.open_id(), "oid");
    assert_eq!(credential.session_key(), "key");
    assert_eq!(credential.union_id(), Some("uid"));
    assert_eq!(session("k").union_id(), None);

    let e = User::login_result(Exchange::Decoded {
        body: Response::Error { code: 40029, message: "invalid code".to_string() },
    })
    .err().unwrap();
    assert_eq!((e.kind(), e.message()), (ErrorKind::InternalServer, "invalid code".to_string()));

    let reset = User::reset_session_key_result(Exchange::Decoded {
        body: Response::Success {
            data: CredentialBuilder {
                open_id: "oid".to_string(),
                session_key: "new".to_string(),
                union_id: None,
            },
        },
    })
    .unwrap();
    assert_eq!(reset.session_key(), "new");
    assert!(User::reset_session_key_result(Exchange::Undecodable { message: "x".to_string() })
        .is_err());
}

fn watermark() -> WatermarkBuilder {
    WatermarkBuilder { app_id: "wx4f4bc4dec97d474b".to_string(), timestamp: 1477314187 }
}

#[test]
fn contact_request_and_answer() {
    let request = User::contact_request("CODE", Some("OPENID"), "TOKEN");
    assert_eq!(request.url, "https://api.weixin.qq.com/wxa/business/getuserphonenumber");
    assert_eq!(request.method, Method::Post);
    assert_eq!(request.query, pairs(&[("access_token", "TOKEN")]));
    let body = request.body.unwrap();
    assert_eq!(body.len(), 2);
    assert_eq!(body[0].0, "code");
    assert!(matches!(&body[0].1, JsonMember::Text(t) if t == "CODE"));
    assert_eq!(body[1].0, "openid");
    assert!(matches!(&body[1].1, JsonMember::Text(t) if t == "OPENID"));
    assert_eq!(User::contact_request("CODE", None, "TOKEN").body.unwrap().len(), 1);

    let contact = User::contact_result(Exchange::Decoded {
        body: Response::Success {
            data: ContactBuilder {
                inner: PhoneInner {
                    phone_number: "+8613800000000".to_string(),
                    pure_phone_number: "13800000000".to_string(),
                    country_code: "86".to_string(),
                    watermark: watermark(),
                },
            },
        },
    })
    .unwrap();
    assert_eq!(contact.phone_number(), "+8613800000000");
    assert_eq!(contact.pure_phone_number(), "13800000000");
    assert_eq!(contact.country_code(), "86");
    assert_eq!(contact.app_id(), "wx4f4bc4dec97d474b");
    assert_eq!(contact.timestamp(), 1477314187);
    let e = User::contact_result(Exchange::Unreachable { message: "down".to_string() })
        .err().unwrap();
    assert_eq!(e.kind(), ErrorKind::Transport);
}

#[test]
fn user_info_keeps_every_field() {
    let info = UserBuilder {
        nickname: "Band".to_string(),
        gender: 1,
        country: "CN".to_string(),
        province: "Guangdong".to_string(),
        city: "Guangzhou".to_string(),
        avatar: "http://example.com/a.png".to_string(),
        watermark: watermark(),
    }
    .build();
    assert_eq!(info.nickname(), "Band");
    assert_eq!(info.gender(), 1);
    assert_eq!(info.country(), "CN");
    assert_eq!(info.province(), "Guangdong");
    assert_eq!(info.city(), "Guangzhou");
    assert_eq!(info.avatar(), "http://example.com/a.png");
    assert_eq!(info.app_id(), "wx4f4bc4dec97d474b");
    assert_eq!(info.timestamp(), 1477314187);
}
