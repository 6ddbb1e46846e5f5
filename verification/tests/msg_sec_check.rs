use wechat_minapp::error::ErrorKind;
use wechat_minapp::minapp_security::{
    Args, ComprehensiveResult, DetailResult, Label, MsgSecCheckResult, Scene, Suggest,
};
use wechat_minapp::utils::http::{Exchange, MemberModel, Method};

#[test]
fn test_args_builder() {
    let args = Args::builder()
        .content("测试内容")
        .scene(Scene::Comment)
        .openid("test_openid")
        .build()
        .unwrap();

    assert_eq!(args.content, "测试内容");
    assert_eq!(args.version, 2);
    assert_eq!(args.scene, Scene::Comment);
    assert_eq!(args.openid, "test_openid");
}

#[test]
fn test_args_builder_validation() {
    let result = Args::builder()
        .scene(Scene::Comment)
        .openid("test_openid")
        .build();
    assert!(result.is_err());

    let long_content = "a".repeat(2501);
    let result = Args::builder()
        .content(&long_content)
        .scene(Scene::Comment)
        .openid("openid")
        .build();
    assert!(result.is_err());

    let result = Args::builder()
        .content("内容")
        .scene(Scene::Comment)
        .openid("openid")
        .signature("签名")
        .build();
    assert!(result.is_err());
}

#[test]
fn test_scene_enum() {
    assert_eq!(Scene::from_value(1), Some(Scene::Profile));
    assert_eq!(Scene::Profile.description(), "资料");
    assert_eq!(Scene::Profile.value(), 1);
}

fn passing_result() -> MsgSecCheckResult {
    MsgSecCheckResult {
        errcode: 0,
        errmsg: "ok".to_string(),
        detail: Some(vec![DetailResult {
            strategy: "content_model".to_string(),
            errcode: 0,
            suggest: Some(Suggest::Pass),
            label: Some(Label { code: 100 }),
            keyword: None,
        }]),
        result: Some(ComprehensiveResult {
            suggest: Suggest::Pass,
            label: Label { code: 100 },
        }),
        trace_id: Some("test_trace_id".to_string()),
    }
}

#[test]
fn test_msg_sec_check_result() {
    let result = passing_result();

    assert!(result.is_success());
    assert!(result.is_pass());
    assert!(!result.is_risky());
    assert!(!result.needs_review());
    assert_eq!(result.get_valid_details().len(), 1);
    assert_eq!(result.trace_id, Some("test_trace_id".to_string()));
}

#[test]
fn test_msg_sec_check_result_with_risk() {
    let result = MsgSecCheckResult {
        errcode: 0,
        errmsg: "ok".to_string(),
        detail: Some(vec![DetailResult {
            strategy: "content_model".to_string(),
            errcode: 0,
            suggest: Some(Suggest::Risky),
            label: Some(Label { code: 20001 }),
            keyword: Some("敏感词".to_string()),
        }]),
        result: Some(ComprehensiveResult {
            suggest: Suggest::Risky,
            label: Label { code: 20001 },
        }),
        trace_id: None,
    };

    assert!(result.is_success());
    assert!(!result.is_pass());
    assert!(result.is_risky());
    assert!(!result.needs_review());
    assert_eq!(
        result.get_valid_details()[0].keyword,
        Some("敏感词".to_string())
    );
}

#[test]
fn args_builder_reports_each_missing_field_in_order() {
    let e = Args::builder().build().err().unwrap();
    assert_eq!(e.kind(), ErrorKind::InvalidParameter);
    assert_eq!(e.message(), "content 是必填参数");

    let e = Args::builder().content("x").build().err().unwrap();
    assert_eq!(e.message(), "scene 是必填参数");

    let e = Args::builder()
        .content("x")
        .scene(Scene::Forum)
        .build()
        .err().unwrap();
    assert_eq!(e.message(), "openid 是必填参数");
}

#[test]
fn args_builder_content_length_is_counted_in_bytes() {
    let exact = "a".repeat(2500);
    let args = Args::builder()
        .content(&exact)
        .scene(Scene::Comment)
        .openid("o")
        .build()
        .unwrap();
    assert_eq!(args.content_length(), 2500);

    // 834 characters of three bytes each are 2502 bytes.
    let wide = "中".repeat(834);
    let e = Args::builder()
        .content(&wide)
        .scene(Scene::Comment)
        .openid("o")
        .build()
        .err().unwrap();
    assert_eq!(e.message(), "content 长度不能超过2500字");
}

#[test]
fn signature_is_accepted_in_the_profile_scene_only() {
    let args = Args::builder()
        .content("x")
        .scene(Scene::Profile)
        .openid("o")
        .signature("s")
        .version(3)
        .title("t")
        .nickname("n")
        .build()
        .unwrap();
    assert!(args.is_profile_scene());
    assert_eq!(args.version, 3);
    assert_eq!(args.title, Some("t".to_string()));
    assert_eq!(args.nickname, Some("n".to_string()));
    assert_eq!(args.signature, Some("s".to_string()));

    let e = Args::builder()
        .content("x")
        .scene(Scene::SocialLog)
        .openid("o")
        .signature("s")
        .build()
        .err().unwrap();
    assert_eq!(e.message(), "signature 仅在资料场景(scene=1)下有效");
}

#[test]
fn args_new_validates_nothing_and_validate_does() {
    let mut args = Args::new("内容", Scene::Comment, "openid");
    assert_eq!(args.version, 2);
    assert!(!args.is_profile_scene());
    assert_eq!(args.content_length(), 6);
    assert!(args.validate().is_ok());

    args.signature = Some("s".to_string());
    let e = args.validate().err().unwrap();
    assert_eq!(e.kind(), ErrorKind::InvalidParameter);
    assert_eq!(e.message(), "signature 仅在资料场景(scene=1)下有效");
    assert!(args.request("token").is_err());
}

#[test]
fn scene_values_round_trip() {
    for value in 1..=4u32 {
        assert_eq!(Scene::from_value(value).unwrap().value(), value);
    }
    assert_eq!(Scene::from_value(0), None);
    assert_eq!(Scene::from_value(5), None);
    assert_eq!(Scene::Comment.description(), "评论");
    assert_eq!(Scene::Forum.description(), "论坛");
    assert_eq!(Scene::SocialLog.description(), "社交日志");
}

fn text(members: &[(String, wechat_minapp::utils::http::JsonMember)], i: usize) -> (String, String) {
    match &members[i].1 {
        wechat_minapp::utils::http::JsonMember::Text(t) => (members[i].0.clone(), t.clone()),
        other => panic!("member {} is no text: {:?}", i, other),
    }
}

#[test]
fn check_request_names_every_member() {
    let args = Args::builder()
        .content("hello")
        .scene(Scene::Forum)
        .openid("oid")
        .nickname("nick")
        .build()
        .unwrap();
    let request = args.request("TOKEN").unwrap();
    assert_eq!(request.url, "https://api.weixin.qq.com/wxa/msg_sec_check");
    assert_eq!(request.method, Method::Post);
    assert_eq!(
        request.query,
        vec![("access_token".to_string(), "TOKEN".to_string())]
    );
    assert_eq!(
        request.headers[1],
        ("content-type".to_string(), "application/json".to_string())
    );
    let body = request.body.unwrap();
    assert_eq!(body.len(), 5);
    assert_eq!(text(&body, 0), ("content".to_string(), "hello".to_string()));
    assert_eq!(text(&body, 1), ("version".to_string(), "2".to_string()));
    assert_eq!(text(&body, 2), ("scene".to_string(), "3".to_string()));
    assert_eq!(text(&body, 3), ("openid".to_string(), "oid".to_string()));
    assert_eq!(text(&body, 4), ("nickname".to_string(), "nick".to_string()));
    let _ = MemberModel::Flag(true);
}

#[test]
fn check_answer_with_error_code_is_a_server_failure() {
    let mut answer = passing_result();
    answer.errcode = -1;
    answer.errmsg = "system busy".to_string();
    let e = MsgSecCheckResult::from_exchange(Exchange::Decoded { body: answer }).err().unwrap();
    assert_eq!(e.kind(), ErrorKind::InternalServer);
    assert_eq!(e.message(), "微信内容安全检测API错误: -1 - system busy");

    let mut answer = passing_result();
    answer.errcode = 87014;
    answer.errmsg = "risky content".to_string();
    let e = MsgSecCheckResult::from_exchange(Exchange::Decoded { body: answer }).err().unwrap();
    assert_eq!(e.message(), "微信内容安全检测API错误: 87014 - risky content");

    let ok = MsgSecCheckResult::from_exchange(Exchange::Decoded {
        body: passing_result(),
    })
    .unwrap();
    assert!(ok.is_pass());
}

#[test]
fn check_exchange_failures_keep_their_class() {
    let e = MsgSecCheckResult::from_exchange(Exchange::Unreachable {
        message: "timeout".to_string(),
    })
    .err().unwrap();
    assert_eq!(e.kind(), ErrorKind::Transport);
    assert_eq!(e.message(), "timeout");

    let e = MsgSecCheckResult::from_exchange(Exchange::Refused {
        status: 500,
        text: "oops".to_string(),
    })
    .err().unwrap();
    assert_eq!(e.kind(), ErrorKind::InternalServer);
    assert_eq!(e.message(), "oops");

    let e = MsgSecCheckResult::from_exchange(Exchange::Undecodable {
        message: "eof".to_string(),
    })
    .err().unwrap();
    assert_eq!(e.kind(), ErrorKind::Decode);
    assert_eq!(e.message(), "eof");
}

#[test]
fn valid_details_keep_order_and_skip_failed_strategies() {
    let detail = |strategy: &str, errcode: i32| DetailResult {
        strategy: strategy.to_string(),
        errcode,
        suggest: None,
        label: None,
        keyword: None,
    };
    let mut result = passing_result();
    result.detail = Some(vec![
        detail("a", 0),
        detail("b", 1),
        detail("c", 0),
        detail("d", -3),
    ]);
    let valid = result.get_valid_details();
    assert_eq!(valid.len(), 2);
    assert_eq!(valid[0].strategy, "a");
    assert_eq!(valid[1].strategy, "c");

    result.detail = None;
    assert!(result.get_valid_details().is_empty());
    result.result = None;
    assert!(!result.is_pass());
    assert!(!result.is_risky());
    assert!(!result.needs_review());
    assert_eq!(result.get_suggest(), None);
    assert_eq!(result.get_label(), None);
}

#[test]
fn review_verdict_needs_review() {
    let mut result = passing_result();
    result.result = Some(ComprehensiveResult {
        suggest: Suggest::Review,
        label: Label { code: 21000 },
    });
    assert!(result.needs_review());
    assert!(!result.is_pass());
    assert_eq!(result.get_label(), Some(Label { code: 21000 }));
    assert!(!Label { code: 21000 }.is_normal());
    assert!(Label { code: 100 }.is_normal());
}

#[test]
fn check_answer_is_decoded_from_its_members() {
    let body = r#"
        {
            "errcode": 0,
            "errmsg": "ok",
            "detail": [
                {
                    "strategy": "content_model",
                    "errcode": 0,
                    "suggest": "pass",
                    "label": 100,
                    "prob": 90.5
                },
                {
                    "strategy": "keyword",
                    "errcode": 0,
                    "suggest": "risky",
                    "label": 20006,
                    "level": 20,
                    "keyword": "敏感词"
                },
                { "strategy": "other", "errcode": -1008 }
            ],
            "result": {
                "suggest": "review",
                "label": 20001
            },
            "trace_id": "test_trace_id"
        }"#;
    let result = MsgSecCheckResult::decode(body.as_bytes()).unwrap();
    assert!(result.is_success());
    assert_eq!(result.errmsg, "ok");
    assert!(result.needs_review());
    assert_eq!(result.get_label(), Some(Label { code: 20001 }));
    assert_eq!(result.trace_id, Some("test_trace_id".to_string()));
    let details = result.detail.as_ref().unwrap();
    assert_eq!(details.len(), 3);
    assert_eq!(details[0].strategy, "content_model");
    assert_eq!(details[0].suggest, Some(Suggest::Pass));
    assert_eq!(details[0].label, Some(Label { code: 100 }));
    assert_eq!(details[0].keyword, None);
    assert_eq!(details[1].strategy, "keyword");
    assert_eq!(details[1].suggest, Some(Suggest::Risky));
    assert_eq!(details[1].keyword, Some("敏感词".to_string()));
    assert_eq!(details[2].errcode, -1008);
    assert_eq!(details[2].suggest, None);
    assert_eq!(details[2].label, None);
    assert_eq!(result.get_valid_details().len(), 2);

    let read = MsgSecCheckResult::from_exchange(MsgSecCheckResult::read(Exchange::Decoded {
        body: body.as_bytes().to_vec(),
    }))
    .unwrap();
    assert_eq!(read.detail.unwrap().len(), 3);
}

#[test]
fn check_answer_without_the_optional_parts() {
    let result = MsgSecCheckResult::decode(br#"{"errcode":0,"errmsg":"ok"}"#).unwrap();
    assert!(result.detail.is_none());
    assert!(result.result.is_none());
    assert!(result.trace_id.is_none());
    let result =
        MsgSecCheckResult::decode(br#"{"errcode":0,"errmsg":"ok","detail":[]}"#).unwrap();
    assert_eq!(result.detail.unwrap().len(), 0);
    // Many verdicts: the positions are written as decimal numerals.
    let many: Vec<String> = (0..12)
        .map(|i| format!(r#"{{"strategy":"s{}","errcode":{}}}"#, i, i))
        .collect();
    let body = format!(r#"{{"errcode":0,"errmsg":"ok","detail":[{}]}}"#, many.join(","));
    let result = MsgSecCheckResult::decode(body.as_bytes()).unwrap();
    let details = result.detail.unwrap();
    assert_eq!(details.len(), 12);
    assert_eq!(details[11].strategy, "s11");
    assert_eq!(details[11].errcode, 11);
}

#[test]
fn malformed_check_answers_are_undecodable() {
    for body in [
        r#"{"errmsg":"ok"}"#,
        r#"{"errcode":0}"#,
        r#"{"errcode":4294967296,"errmsg":"ok"}"#,
        r#"{"errcode":0,"errmsg":"ok","detail":[{"errcode":0}]}"#,
        r#"{"errcode":0,"errmsg":"ok","detail":[{"strategy":"a","errcode":0},{"strategy":"b"}]}"#,
        "[]",
    ] {
        let e = MsgSecCheckResult::decode(body.as_bytes()).err().unwrap();
        assert_eq!(e.kind(), ErrorKind::Decode);
        assert_eq!(e.message(), "the answer lacks an expected member");
    }
    let e = MsgSecCheckResult::from_exchange(MsgSecCheckResult::read(Exchange::Decoded {
        body: b"oops".to_vec(),
    }))
    .err().unwrap();
    assert_eq!(e.kind(), ErrorKind::Decode);
}

#[test]
fn advice_and_labels_are_named_by_the_remote() {
    assert_eq!(Suggest::named("risky"), Some(Suggest::Risky));
    assert_eq!(Suggest::named("pass"), Some(Suggest::Pass));
    assert_eq!(Suggest::named("review"), Some(Suggest::Review));
    assert_eq!(Suggest::named("Pass"), None);
    assert_eq!(Suggest::named(""), None);
    assert_eq!(Label::coded(Some(100)), Some(Label { code: 100 }));
    assert_eq!(Label::coded(Some(4294967295)), Some(Label { code: u32::MAX }));
    assert_eq!(Label::coded(Some(4294967296)), None);
    assert_eq!(Label::coded(Some(-1)), None);
    assert_eq!(Label::coded(None), None);
}
