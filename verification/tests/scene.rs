use wechat_minapp::new_type::scene::is_valid_scene_char;
use wechat_minapp::new_type::{SceneString, ValidationSceneError};

#[test]
fn test_valid_string() {
    assert!(SceneString::new("hello123").is_ok());
    assert!(SceneString::new("HELLO_WORLD-123").is_ok());
    assert!(SceneString::new("test!#$&'()*+,/:;=?@-._~").is_ok());

    let long_string = "a".repeat(33);
    assert!(matches!(
        SceneString::new(&long_string),
        Err(ValidationSceneError::TooLong)
    ));

    let max_length_string = "a".repeat(32);
    assert!(SceneString::new(&max_length_string).is_ok());

    assert!(matches!(
        SceneString::new("hello world"),
        Err(ValidationSceneError::InvalidChar(' '))
    ));

    assert!(matches!(
        SceneString::new("中文"),
        Err(ValidationSceneError::InvalidChar(_))
    ));
}

#[test]
fn scene_test_conversions() {
    let from_str = "test123".parse::<SceneString>();
    assert!(from_str.is_ok());

    let from_string = SceneString::try_from("test123".to_string());
    assert!(from_string.is_ok());

    let from_str_ref = SceneString::try_from("test123");
    assert!(from_str_ref.is_ok());
}

#[test]
fn scene_reports_the_first_invalid_character() {
    assert_eq!(
        SceneString::new("ab%cd\"e"),
        Err(ValidationSceneError::InvalidChar('%'))
    );
    assert_eq!(
        SceneString::new("中文"),
        Err(ValidationSceneError::InvalidChar('中'))
    );
}

#[test]
fn scene_length_is_checked_before_the_characters() {
    // Eleven characters of three bytes each are 33 bytes.
    let wide = "中".repeat(11);
    assert_eq!(SceneString::new(&wide), Err(ValidationSceneError::TooLong));
    let invalid_and_long = " ".repeat(40);
    assert_eq!(
        SceneString::new(&invalid_and_long),
        Err(ValidationSceneError::TooLong)
    );
}

#[test]
fn scene_allows_exactly_its_alphabet() {
    let allowed =
        "abcdefghijklmnopqrstuvwxyzABCDEFGHIJKLMNOPQRSTUVWXYZ0123456789!#$&'()*+,/:;=?@-._~";
    for code in 0u32..0x250 {
        let c = char::from_u32(code).unwrap();
        assert_eq!(is_valid_scene_char(c), allowed.contains(c), "{:?}", c);
    }
}

#[test]
fn scene_accessors_return_the_text() {
    let scene = SceneString::new("a=1").unwrap();
    assert_eq!(scene.as_str(), "a=1");
    assert_eq!(scene.len(), 3);
    assert!(!scene.is_empty());
    assert_eq!(scene.to_string(), "a=1");
    assert_eq!(scene.clone().into_inner(), "a=1");

    let empty = SceneString::new("").unwrap();
    assert!(empty.is_empty());
    assert_eq!(empty.len(), 0);
}

#[test]
fn scene_errors_describe_themselves() {
    assert_eq!(
        ValidationSceneError::TooLong.message(),
        "字符串长度超过32个字符限制"
    );
    assert_eq!(
        ValidationSceneError::InvalidChar('%').message(),
        "包含非法字符: %"
    );
}
