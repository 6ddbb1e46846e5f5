use wechat_minapp::error::ErrorKind;
use wechat_minapp::qr::{MinappEnvVersion, QrCode, QrCodeArgs, Rgb, UnlimitedQrCodeArgs};
use wechat_minapp::utils::http::{Exchange, JsonMember, JsonScalar, Method};

fn get_test_openid() -> String {
    "test_openid_placeholder".to_string()
}

#[test]
fn test_minapp_env_version_conversion() {
    let develop: String = MinappEnvVersion::Develop.into();
    let release: String = MinappEnvVersion::Release.into();
    let trial: String = MinappEnvVersion::Trial.into();

    assert_eq!(develop, "develop");
    assert_eq!(release, "release");
    assert_eq!(trial, "trial");
}

#[test]
fn test_unlimited_qr_code_args_build_success() {
    let args = UnlimitedQrCodeArgs::builder()
        .page("pages/index/index")
        .scene(&format!("invite={}", get_test_openid()))
        .build()
        .expect("构建应该成功");

    assert_eq!(args.page(), "pages/index/index");
    assert!(args.width().is_none());
    assert!(args.auto_color().is_none());
    assert!(args.line_color().is_none());
    assert!(args.is_hyaline().is_none());
    assert!(args.env_version().is_none());
}

#[test]
fn test_unlimited_qr_code_args_build_with_all_fields() {
    let args = UnlimitedQrCodeArgs::builder()
        .page("pages/detail/detail")
        .scene(&format!("invite={}", get_test_openid()))
        .width(400)
        .line_color(Rgb::new(0, 255, 0))
        .with_is_hyaline()
        .env_version(MinappEnvVersion::Develop)
        .build()
        .expect("构建应该成功");

    assert_eq!(args.page(), "pages/detail/detail");
    assert_eq!(args.width(), Some(400));
    assert!(args.line_color().is_some());
    assert_eq!(args.is_hyaline(), Some(true));
    assert!(matches!(
        args.env_version(),
        Some(MinappEnvVersion::Develop)
    ));
}

#[test]
fn test_unlimited_qr_code_args_build_missing_path() {
    let result = UnlimitedQrCodeArgs::builder()
        .scene(&format!("invite={}", get_test_openid()))
        .build();
    assert!(result.is_err());

    if let Err(err) = result {
        assert!(err.message().contains("小程序页面路径不能为空"));
    }
}

#[test]
fn test_unlimited_qr_code_args_build_missing_scene() {
    let result = UnlimitedQrCodeArgs::builder()
        .page("page/index/index")
        .build();
    assert!(result.is_err());

    if let Err(err) = result {
        assert!(err.message().contains("scene 不能为空"));
    }
}

#[test]
fn test_unlimited_qr_code_args_build_path_boundary() {
    let boundary_path = "a".repeat(1024);
    let result = UnlimitedQrCodeArgs::builder()
        .page(&boundary_path)
        .scene(&format!("invite={}", get_test_openid()))
        .build();
    assert!(result.is_ok());
}

#[test]
fn unlimited_build_validates_page_then_scene_then_colours() {
    let e = UnlimitedQrCodeArgs::builder()
        .page("/pages/index")
        .scene("中")
        .build()
        .err().unwrap();
    assert_eq!(e.kind(), ErrorKind::InvalidParameter);
    assert_eq!(e.message(), "页面路径不能以斜杠开头");

    let e = UnlimitedQrCodeArgs::builder()
        .page("pages/index?a=1")
        .scene("a=1")
        .build()
        .err().unwrap();
    assert_eq!(e.message(), "页面路径不能携带参数，参数请放在scene字段里");

    let e = UnlimitedQrCodeArgs::builder()
        .page("pages//index")
        .scene("a=1")
        .build()
        .err().unwrap();
    assert_eq!(e.message(), "页面路径格式不正确");

    let long_scene = "a".repeat(33);
    let e = UnlimitedQrCodeArgs::builder()
        .page("pages/index")
        .scene(&long_scene)
        .with_auto_color()
        .line_color(Rgb::new(1, 2, 3))
        .build()
        .err().unwrap();
    assert_eq!(e.message(), "字符串长度超过32个字符限制");

    let e = UnlimitedQrCodeArgs::builder()
        .page("pages/index")
        .scene("a b")
        .build()
        .err().unwrap();
    assert_eq!(e.message(), "包含非法字符:  ");

    let e = UnlimitedQrCodeArgs::builder()
        .page("pages/index")
        .scene("a=1")
        .with_auto_color()
        .line_color(Rgb::new(1, 2, 3))
        .build()
        .err().unwrap();
    assert_eq!(e.message(), "auto_color 为 true 时，line_color 不能设置");

    let args = UnlimitedQrCodeArgs::builder()
        .page("pages/index")
        .scene("a=1")
        .with_auto_color()
        .build()
        .unwrap();
    assert_eq!(args.auto_color(), Some(true));
}

#[test]
fn unlimited_request_types_every_member() {
    let args = UnlimitedQrCodeArgs::builder()
        .page("pages/index/index")
        .scene("a=1")
        .width(300)
        .line_color(Rgb::new(255, 0, -1))
        .with_is_hyaline()
        .env_version(MinappEnvVersion::Trial)
        .build()
        .unwrap();
    let request = args.request("TOKEN");
    assert_eq!(request.method, Method::Post);
    assert_eq!(
        request.query,
        vec![("access_token".to_string(), "TOKEN".to_string())]
    );
    assert_eq!(
        request.headers,
        vec![
            ("user-agent".to_string(), "wechat-minapp".to_string()),
            ("encoding".to_string(), "null".to_string()),
            ("content-type".to_string(), "application/json".to_string()),
        ]
    );
    let body = request.body.unwrap();
    let keys: Vec<&str> = body.iter().map(|m| m.0.as_str()).collect();
    assert_eq!(
        keys,
        vec!["page", "scene", "width", "line_color", "is_hyaline", "env_version"]
    );
    assert!(matches!(&body[0].1, JsonMember::Text(t) if t == "pages/index/index"));
    assert!(matches!(&body[1].1, JsonMember::Text(t) if t == "a=1"));
    assert!(matches!(&body[2].1, JsonMember::Number(300)));
    match &body[3].1 {
        JsonMember::Object(members) => {
            assert_eq!(members.len(), 3);
            assert_eq!(members[0].0, "r");
            assert!(matches!(members[0].1, JsonScalar::Number(255)));
            assert_eq!(members[1].0, "g");
            assert!(matches!(members[1].1, JsonScalar::Number(0)));
            assert_eq!(members[2].0, "b");
            assert!(matches!(members[2].1, JsonScalar::Number(-1)));
        }
        other => panic!("line_color is no object: {:?}", other),
    }
    assert!(matches!(&body[4].1, JsonMember::Flag(true)));
    assert!(matches!(&body[5].1, JsonMember::Text(t) if t == "trial"));
}

#[test]
fn unlimited_request_holds_only_what_is_set() {
    let args = UnlimitedQrCodeArgs::builder()
        .page("pages/index/index")
        .scene("a=1")
        .build()
        .unwrap();
    let body = args.request("T").body.unwrap();
    assert_eq!(body.len(), 2);
}

#[test]
fn qr_code_args_build_checks_the_path_only() {
    let e = QrCodeArgs::builder().width(10).build().err().unwrap();
    assert_eq!(e.kind(), ErrorKind::InvalidParameter);
    assert_eq!(e.message(), "小程序页面路径不能为空");

    let long_path = "a".repeat(1025);
    let e = QrCodeArgs::builder().path(&long_path).build().err().unwrap();
    assert_eq!(e.message(), "页面路径最大长度 1024 个字符");

    let exact = "a".repeat(1024);
    assert!(QrCodeArgs::builder().path(&exact).build().is_ok());

    let args = QrCodeArgs::builder()
        .path("/any thing?goes=1")
        .width(430)
        .with_auto_color()
        .line_color(Rgb::new(1, 2, 3))
        .with_is_hyaline()
        .env_version(MinappEnvVersion::Release)
        .build()
        .unwrap();
    assert_eq!(args.path(), "/any thing?goes=1");
    assert_eq!(args.width(), Some(430));
    assert_eq!(args.auto_color(), Some(true));
    assert_eq!(args.line_color(), Some(Rgb::new(1, 2, 3)));
    assert_eq!(args.is_hyaline(), Some(true));
    assert_eq!(args.env_version(), Some(MinappEnvVersion::Release));
}

#[test]
fn qr_code_request_writes_every_member_as_text() {
    let args = QrCodeArgs::builder()
        .path("pages/index")
        .width(-280)
        .with_auto_color()
        .line_color(Rgb::new(0, 255, -7))
        .with_is_hyaline()
        .env_version(MinappEnvVersion::Develop)
        .build()
        .unwrap();
    let request = args.request("TOKEN");
    assert_eq!(request.url, "https://api.weixin.qq.com/wxa/getwxacode");
    assert_eq!(request.method, Method::Post);
    let body = request.body.unwrap();
    let got: Vec<(String, String)> = body
        .iter()
        .map(|m| match &m.1 {
            JsonMember::Text(t) => (m.0.clone(), t.clone()),
            other => panic!("{} is no text: {:?}", m.0, other),
        })
        .collect();
    let want: Vec<(String, String)> = vec![
        ("path", "pages/index"),
        ("width", "-280"),
        ("auto_color", "true"),
        ("line_color", "{\"r\":0,\"g\":255,\"b\":-7}"),
        ("is_hyaline", "true"),
        ("env_version", "develop"),
    ]
    .into_iter()
    .map(|(k, v)| (k.to_string(), v.to_string()))
    .collect();
    assert_eq!(got, want);
}

#[test]
fn rgb_json_text_is_exact() {
    assert_eq!(Rgb::new(0, 0, 0).to_json(), "{\"r\":0,\"g\":0,\"b\":0}");
    assert_eq!(
        Rgb::new(i16::MIN, i16::MAX, 10).to_json(),
        "{\"r\":-32768,\"g\":32767,\"b\":10}"
    );
}

#[test]
fn qr_code_image_is_taken_over() {
    let code = QrCode::from_exchange(Exchange::Decoded {
        body: vec![0x89, 0x50, 0x4e, 0x47],
    })
    .unwrap();
    assert_eq!(code.buffer(), &vec![0x89, 0x50, 0x4e, 0x47]);
    assert_eq!(QrCode::new(vec![1, 2]).buffer(), &vec![1, 2]);

    let e = QrCode::from_exchange(Exchange::Unreachable {
        message: "dns".to_string(),
    })
    .err().unwrap();
    assert_eq!(e.kind(), ErrorKind::Transport);
}
