//! The scene value of a mini-program code.

use vstd::prelude::*;
use crate::utils::text::{byte_len, push_char, to_chars};

verus! {

/// The longest scene, in bytes.
pub const MAX_SCENE_LENGTH: usize = 32;

/// Why a scene was rejected.
#[derive(Debug, Clone, Copy, PartialEq, Eq, Structural)]
pub enum ValidationSceneError {
    /// The scene is longer than 32 bytes.
    TooLong,
    /// The scene holds this character, which is not allowed.
    InvalidChar(char),
}

impl ValidationSceneError {
    /// The text that describes this rejection; for an invalid character the
    /// character ends it.
    pub open spec fn spec_message(&self) -> Seq<char> {
        match self {
            ValidationSceneError::TooLong => "字符串长度超过32个字符限制"@,
            ValidationSceneError::InvalidChar(c) => "包含非法字符: "@.push(*c),
        }
    }

    /// The text that describes this rejection.
    pub fn message(&self) -> (m: String)
        ensures
            m@ == self.spec_message(),
    {
        match self {
            ValidationSceneError::TooLong => "字符串长度超过32个字符限制".to_string(),
            ValidationSceneError::InvalidChar(c) => {
                let mut text = "包含非法字符: ".to_string();
                push_char(&mut text, *c);
                text
            },
        }
    }
}

/// Whether `c` may stand in a scene: a digit, an English letter, or one of
/// ``!#$&'()*+,/:;=?@-._~``.
pub open spec fn valid_scene_char(c: char) -> bool {
    ||| '0' <= c <= '9'
    ||| 'a' <= c <= 'z'
    ||| 'A' <= c <= 'Z'
    ||| c == '!'
    ||| c == '#'
    ||| c == '$'
    ||| c == '&'
    ||| c == '\''
    ||| c == '('
    ||| c == ')'
    ||| c == '*'
    ||| c == '+'
    ||| c == ','
    ||| c == '/'
    ||| c == ':'
    ||| c == ';'
    ||| c == '='
    ||| c == '?'
    ||| c == '@'
    ||| c == '-'
    ||| c == '.'
    ||| c == '_'
    ||| c == '~'
}

/// Whether `c` may stand in a scene.
pub fn is_valid_scene_char(c: char) -> (b: bool)
    ensures
        b == valid_scene_char(c),
{
    ('0' <= c && c <= '9') || ('a' <= c && c <= 'z') || ('A' <= c && c <= 'Z') || c == '!' || c
        == '#' || c == '$' || c == '&' || c == '\'' || c == '(' || c == ')' || c == '*' || c == '+'
        || c == ',' || c == '/' || c == ':' || c == ';' || c == '=' || c == '?' || c == '@' || c
        == '-' || c == '.' || c == '_' || c == '~'
}

/// Whether position `i` of `s` holds the first character that may not stand
/// in a scene.
pub open spec fn first_invalid_at(s: Seq<char>, i: int) -> bool {
    &&& 0 <= i < s.len()
    &&& !valid_scene_char(s[i])
    &&& forall|j: int| 0 <= j < i ==> valid_scene_char(#[trigger] s[j])
}

/// Whether `s` is a valid scene: at most 32 bytes, allowed characters only.
pub open spec fn valid_scene(s: Seq<char>) -> bool {
    &&& byte_len(s) <= 32
    &&& forall|i: int| 0 <= i < s.len() ==> valid_scene_char(#[trigger] s[i])
}

/// Why `s` is rejected as a scene, or `None` where it is valid: a scene of
/// more than 32 bytes is too long; otherwise the first character that is not
/// allowed is reported.
pub open spec fn scene_verdict(s: Seq<char>) -> Option<ValidationSceneError> {
    if byte_len(s) > 32 {
        Some(ValidationSceneError::TooLong)
    } else if exists|i: int| first_invalid_at(s, i) {
        Some(ValidationSceneError::InvalidChar(s[choose|i: int| first_invalid_at(s, i)]))
    } else {
        None
    }
}

/// A scene is valid exactly when nothing rejects it.
pub proof fn lemma_valid_scene_has_no_verdict(s: Seq<char>)
    ensures
        valid_scene(s) <==> scene_verdict(s).is_none(),
{
    if byte_len(s) <= 32 {
        if exists|i: int| first_invalid_at(s, i) {
            let i = choose|i: int| first_invalid_at(s, i);
            assert(!valid_scene_char(s[i]));
        } else if !valid_scene(s) {
            lemma_first_invalid_exists(s, s.len() as int);
        }
    }
}

proof fn lemma_first_invalid_exists(s: Seq<char>, upto: int)
    requires
        0 <= upto <= s.len(),
        exists|i: int| 0 <= i < upto && !valid_scene_char(s[i]),
    ensures
        exists|i: int| first_invalid_at(s, i),
    decreases upto,
{
    if exists|i: int| 0 <= i < upto - 1 && !valid_scene_char(s[i]) {
        lemma_first_invalid_exists(s, upto - 1);
    } else {
        assert(!valid_scene_char(s[upto - 1]));
        assert(first_invalid_at(s, upto - 1));
    }
}

/// A scene that has passed validation.
#[derive(Debug, Clone, PartialEq, Eq, Hash)]
pub struct SceneString(String);

impl View for SceneString {
    type V = Seq<char>;

    closed spec fn view(&self) -> Seq<char> {
        self.0@
    }
}

impl SceneString {
    /// Checks `s` and wraps it. A scene of more than 32 bytes is too long;
    /// otherwise the first character that is not allowed is reported;
    /// otherwise the scene is accepted as it is.
    pub fn new(s: &str) -> (r: Result<SceneString, ValidationSceneError>)
        ensures
            r.is_ok() == valid_scene(s@),
            r.is_ok() == scene_verdict(s@).is_none(),
            r matches Ok(scene) ==> scene@ == s@,
            r matches Err(e) ==> scene_verdict(s@) == Some(e),
    {
        proof {
            lemma_valid_scene_has_no_verdict(s@);
        }
        if s.as_bytes().len() > MAX_SCENE_LENGTH {
            return Err(ValidationSceneError::TooLong);
        }
        let chars = to_chars(s);
        let mut i: usize = 0;
        while i < chars.len()
            invariant
                i <= chars.len(),
                chars@ == s@,
                byte_len(s@) <= 32,
                forall|j: int| 0 <= j < i ==> valid_scene_char(#[trigger] s@[j]),
            decreases chars.len() - i,
        {
            if !is_valid_scene_char(chars[i]) {
                assert(first_invalid_at(s@, i as int));
                assert forall|k: int| first_invalid_at(s@, k) implies k == i by {
                    if k < i {
                        assert(valid_scene_char(s@[k]));
                    } else if k > i {
                        assert(valid_scene_char(s@[i as int]));
                    }
                }
                return Err(ValidationSceneError::InvalidChar(chars[i]));
            }
            i += 1;
        }
        Ok(SceneString(s.to_string()))
    }

    /// The scene as an owned string, copied.
    pub fn to_string(&self) -> (s: String)
        ensures
            s@ == self@,
    {
        self.0.clone()
    }

    /// The scene as a string slice.
    pub fn as_str(&self) -> (s: &str)
        ensures
            s@ == self@,
    {
        self.0.as_str()
    }

    /// The scene as an owned string.
    pub fn into_inner(self) -> (s: String)
        ensures
            s@ == self@,
    {
        self.0
    }

    /// Whether the scene is empty.
    pub fn is_empty(&self) -> (b: bool)
        ensures
            b == (self@.len() == 0),
    {
        self.0.as_str().is_empty()
    }

    /// The length of the scene in bytes.
    pub fn len(&self) -> (n: usize)
        ensures
            n == byte_len(self@),
    {
        self.0.as_str().as_bytes().len()
    }
}

impl core::str::FromStr for SceneString {
    type Err = ValidationSceneError;

    /// The same as [`SceneString::new`].
    fn from_str(s: &str) -> (r: Result<SceneString, ValidationSceneError>)
        ensures
            r.is_ok() == scene_verdict(s@).is_none(),
            r matches Ok(scene) ==> scene@ == s@,
            r matches Err(e) ==> scene_verdict(s@) == Some(e),
    {
        SceneString::new(s)
    }
}

impl TryFrom<String> for SceneString {
    type Error = ValidationSceneError;

    /// The same as [`SceneString::new`].
    fn try_from(value: String) -> (r: Result<SceneString, ValidationSceneError>)
        ensures
            r.is_ok() == scene_verdict(value@).is_none(),
            r matches Ok(scene) ==> scene@ == value@,
            r matches Err(e) ==> scene_verdict(value@) == Some(e),
    {
        SceneString::new(value.as_str())
    }
}

impl vstd::std_specs::convert::TryFromSpecImpl<String> for SceneString {
    open spec fn obeys_try_from_spec() -> bool {
        false
    }

    open spec fn try_from_spec(value: String) -> Result<SceneString, ValidationSceneError> {
        arbitrary()
    }
}

impl<'a> TryFrom<&'a str> for SceneString {
    type Error = ValidationSceneError;

    /// The same as [`SceneString::new`].
    fn try_from(value: &'a str) -> (r: Result<SceneString, ValidationSceneError>)
        ensures
            r.is_ok() == scene_verdict(value@).is_none(),
            r matches Ok(scene) ==> scene@ == value@,
            r matches Err(e) ==> scene_verdict(value@) == Some(e),
    {
        SceneString::new(value)
    }
}

impl<'a> vstd::std_specs::convert::TryFromSpecImpl<&'a str> for SceneString {
    open spec fn obeys_try_from_spec() -> bool {
        false
    }

    open spec fn try_from_spec(value: &'a str) -> Result<SceneString, ValidationSceneError> {
        arbitrary()
    }
}

} // verus!
