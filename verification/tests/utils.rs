use wechat_minapp::error::{Error, ErrorKind};
use wechat_minapp::utils::http::{
    build_request, conclude, conclude_reply, is_success, Exchange, JsonMember, Method, Response,
};
use wechat_minapp::utils::text::{contains, is_blank, split_chars, to_chars, to_decimal};
use wechat_minapp::utils::{address, parse_query, parse_url};

fn chars(s: &str) -> Vec<char> {
    s.chars().collect()
}

#[test]
fn parse_url_returns_the_normal_form() {
    assert_eq!(
        parse_url("HTTPS://API.weixin.qq.com").unwrap(),
        "https://api.weixin.qq.com/"
    );
    assert_eq!(
        parse_url("https://example.com/a b?x=1").unwrap(),
        "https://example.com/a%20b?x=1"
    );
    let e = parse_url("pages/index").err().unwrap();
    assert_eq!((e.kind(), e.message()), (ErrorKind::InvalidParameter, "invalid url".to_string()));
    assert!(parse_url("").is_err());
}

#[test]
fn parse_query_decodes_the_pairs_in_order() {
    assert_eq!(
        parse_query("https://example.com/products?page=2&sort=desc&a%20b=c+d").unwrap(),
        vec![
            ("page".to_string(), "2".to_string()),
            ("sort".to_string(), "desc".to_string()),
            ("a b".to_string(), "c d".to_string()),
        ]
    );
    assert!(parse_query("https://example.com/").unwrap().is_empty());
    let e = parse_query("?a=1").err().unwrap();
    assert_eq!(e.kind(), ErrorKind::InvalidParameter);
}

#[test]
fn build_request_puts_the_agent_header_first() {
    let request = build_request(
        "https://api.weixin.qq.com/wxa/x",
        Method::Get,
        Some(vec![("x-a".to_string(), "1".to_string()), ("x-b".to_string(), "2".to_string())]),
        Some(vec![("access_token".to_string(), "T".to_string())]),
        Some(vec![("k".to_string(), JsonMember::Number(7))]),
    )
    .unwrap();
    assert_eq!(request.url, "https://api.weixin.qq.com/wxa/x");
    assert_eq!(request.method, Method::Get);
    assert_eq!(
        request.headers,
        vec![
            ("user-agent".to_string(), "wechat-minapp".to_string()),
            ("x-a".to_string(), "1".to_string()),
            ("x-b".to_string(), "2".to_string()),
        ]
    );
    assert_eq!(request.query, vec![("access_token".to_string(), "T".to_string())]);
    let body = request.body.unwrap();
    assert_eq!(body.len(), 1);
    assert!(matches!(body[0].1, JsonMember::Number(7)));
}

#[test]
fn build_request_without_anything_optional() {
    let request = build_request("https://example.com", Method::Post, None, None, None).unwrap();
    assert_eq!(request.url, "https://example.com/");
    assert_eq!(request.headers.len(), 1);
    assert!(request.query.is_empty());
    assert!(request.body.is_none());
    let e = build_request("not a url", Method::Post, None, None, None).err().unwrap();
    assert_eq!((e.kind(), e.message()), (ErrorKind::InvalidParameter, "invalid url".to_string()));
}

#[test]
fn success_statuses_are_the_two_hundreds() {
    assert!(!is_success(199));
    assert!(is_success(200));
    assert!(is_success(204));
    assert!(is_success(299));
    assert!(!is_success(300));
    assert!(!is_success(404));
    assert!(!is_success(0));
    assert!(!is_success(u16::MAX));
}

#[test]
fn conclude_maps_each_observation() {
    assert_eq!(conclude(Exchange::Decoded { body: 5u8 }).unwrap(), 5);
    let e = conclude::<u8>(Exchange::Unreachable { message: "a".to_string() }).err().unwrap();
    assert_eq!((e.kind(), e.message()), (ErrorKind::Transport, "a".to_string()));
    let e = conclude::<u8>(Exchange::Refused { status: 500, text: "b".to_string() }).err().unwrap();
    assert_eq!((e.kind(), e.message()), (ErrorKind::InternalServer, "b".to_string()));
    let e = conclude::<u8>(Exchange::Undecodable { message: "c".to_string() }).err().unwrap();
    assert_eq!((e.kind(), e.message()), (ErrorKind::Decode, "c".to_string()));

    assert_eq!(
        conclude_reply(Exchange::Decoded { body: Response::Success { data: 9u8 } }).unwrap(),
        9
    );
    let e = conclude_reply::<u8>(Exchange::Decoded {
        body: Response::Error { code: 40001, message: "invalid credential".to_string() },
    })
    .err().unwrap();
    assert_eq!(
        (e.kind(), e.message()),
        (ErrorKind::InternalServer, "invalid credential".to_string())
    );
    assert_eq!((Response::Success { data: 1u8 }).extract().unwrap(), 1);
}

#[test]
fn errors_keep_class_and_message() {
    for (error, kind) in [
        (Error::InvalidParameter("m".to_string()), ErrorKind::InvalidParameter),
        (Error::InternalServer("m".to_string()), ErrorKind::InternalServer),
        (Error::Transport("m".to_string()), ErrorKind::Transport),
        (Error::Decode("m".to_string()), ErrorKind::Decode),
    ] {
        assert_eq!(error.kind(), kind);
        assert_eq!(error.message(), "m");
        let copy = error.duplicate();
        assert_eq!(copy.kind(), kind);
        assert_eq!(copy.message(), "m");
    }
}

#[test]
fn decimal_numerals() {
    assert_eq!(to_decimal(0), "0");
    assert_eq!(to_decimal(7), "7");
    assert_eq!(to_decimal(10), "10");
    assert_eq!(to_decimal(-1), "-1");
    assert_eq!(to_decimal(1024), "1024");
    assert_eq!(to_decimal(-90210), "-90210");
    assert_eq!(to_decimal(i64::MAX), "9223372036854775807");
    assert_eq!(to_decimal(i64::MIN), "-9223372036854775808");
    for n in -1000i64..1000 {
        assert_eq!(to_decimal(n), n.to_string());
    }
}

#[test]
fn characters_of_a_string() {
    assert_eq!(to_chars(""), Vec::<char>::new());
    assert_eq!(to_chars("a中b"), vec!['a', '中', 'b']);
}

#[test]
fn blank_means_whitespace_only() {
    assert!(is_blank(&chars("")));
    assert!(is_blank(&chars(" \t\r\n\u{3000}")));
    assert!(!is_blank(&chars("  a ")));
    assert!(!is_blank(&chars("_")));
}

#[test]
fn contains_finds_a_needle_anywhere() {
    assert!(contains(&chars("scancode_time"), &chars("scancode_time")));
    assert!(contains(&chars("xscancode_timey"), &chars("scancode_time")));
    assert!(contains(&chars("abc"), &chars("")));
    assert!(contains(&chars(""), &chars("")));
    assert!(contains(&chars("aab"), &chars("ab")));
    assert!(!contains(&chars("scancode_tim"), &chars("scancode_time")));
    assert!(!contains(&chars(""), &chars("a")));
    assert!(!contains(&chars("abab"), &chars("bb")));
}

#[test]
fn split_keeps_empty_pieces() {
    let pieces = |s: &str| -> Vec<String> {
        split_chars(&chars(s), '/').into_iter().map(|p| p.into_iter().collect()).collect()
    };
    assert_eq!(pieces(""), vec![""]);
    assert_eq!(pieces("a"), vec!["a"]);
    assert_eq!(pieces("a/b"), vec!["a", "b"]);
    assert_eq!(pieces("/a//b/"), vec!["", "a", "", "b", ""]);
    for s in ["pages/index/index", "//", "a/ b /c", "x"] {
        let expected: Vec<String> = s.split('/').map(|p| p.to_string()).collect();
        assert_eq!(pieces(s), expected);
    }
}

#[test]
fn address_appends_the_encoded_query() {
    let query = vec![
        ("access_token".to_string(), "a b&c".to_string()),
        ("openid".to_string(), "中".to_string()),
    ];
    assert_eq!(
        address("https://api.weixin.qq.com/wxa/x", &query).unwrap(),
        "https://api.weixin.qq.com/wxa/x?access_token=a+b%26c&openid=%E4%B8%AD"
    );
    assert_eq!(
        address("https://api.weixin.qq.com/wxa/x?k=v", &query[..1].to_vec()).unwrap(),
        "https://api.weixin.qq.com/wxa/x?k=v&access_token=a+b%26c"
    );
    assert_eq!(
        address("https://api.weixin.qq.com/wxa/x", &Vec::new()).unwrap(),
        "https://api.weixin.qq.com/wxa/x"
    );
    assert!(address("wxa/x", &query).is_err());
    assert!(address("wxa/x", &Vec::new()).is_err());

    let request = build_request(
        "https://api.weixin.qq.com/wxa/x",
        Method::Get,
        None,
        Some(vec![("access_token".to_string(), "T".to_string())]),
        None,
    )
    .unwrap();
    assert_eq!(request.uri().unwrap(), "https://api.weixin.qq.com/wxa/x?access_token=T");
}
