//! A page path that may carry parameters.

use vstd::prelude::*;
use vstd::string::StringExecFns;
use crate::constants::END_POINT_BASE_URL;
use crate::new_type::PagePathError;
use crate::new_type::non_query_page_path::page_address;
use crate::utils::{pairs_view, parse_query, parse_url, spec_parse_query, spec_parse_url};
use crate::utils::text::{blank, byte_len, contains, is_blank, spec_contains, to_chars};

verus! {

/// The longest page path, in bytes.
pub const MAX_PAGE_PATH_LENGTH: usize = 1024;

/// The name of the parameter that the platform reserves for itself.
pub open spec fn reserved_parameter() -> Seq<char> {
    "scancode_time"@
}

/// Whether the key of some pair holds the reserved parameter's name.
pub open spec fn has_reserved_key(pairs: Seq<(Seq<char>, Seq<char>)>) -> bool {
    exists|k: int| 0 <= k < pairs.len() && spec_contains((#[trigger] pairs[k]).0, reserved_parameter())
}

/// Why `path` is rejected as a page path, or `None` where it is accepted.
/// The rules apply in this order: the path is not blank; it is at most 1024
/// bytes long; the path under the API's base address is a URL; no key in the
/// query of that URL holds the reserved parameter's name.
pub open spec fn page_verdict(path: Seq<char>) -> Option<PagePathError> {
    if blank(path) {
        Some(PagePathError::Empty)
    } else if byte_len(path) > 1024 {
        Some(PagePathError::InvalidLength)
    } else {
        match spec_parse_url(page_address(path)) {
            None => Some(PagePathError::InvalidFormat),
            Some(normal) => match spec_parse_query(normal) {
                None => Some(PagePathError::InvalidFormat),
                Some(pairs) => {
                    if has_reserved_key(pairs) {
                        Some(PagePathError::ReservedParameter)
                    } else {
                        None
                    }
                },
            },
        }
    }
}

/// A page path that has passed validation.
#[derive(Debug, Clone, PartialEq, Eq, Hash)]
pub struct PagePath(String);

impl View for PagePath {
    type V = Seq<char>;

    closed spec fn view(&self) -> Seq<char> {
        self.0@
    }
}

impl PagePath {
    /// Checks `path` and wraps it.
    #[verifier::loop_isolation(false)]
    pub fn new(path: &str) -> (r: Result<PagePath, PagePathError>)
        ensures
            r.is_ok() == page_verdict(path@).is_none(),
            r matches Ok(page) ==> page@ == path@,
            r matches Err(e) ==> page_verdict(path@) == Some(e),
    {
        let chars = to_chars(path);
        if is_blank(&chars) {
            return Err(PagePathError::Empty);
        }
        if path.as_bytes().len() > MAX_PAGE_PATH_LENGTH {
            return Err(PagePathError::InvalidLength);
        }
        let address = String::from_str(END_POINT_BASE_URL).concat("/").concat(path);
        assert(address@ == page_address(path@));
        let normal = match parse_url(address.as_str()) {
            Ok(normal) => normal,
            Err(_) => {
                return Err(PagePathError::InvalidFormat);
            },
        };
        let pairs = match parse_query(normal.as_str()) {
            Ok(pairs) => pairs,
            Err(_) => {
                return Err(PagePathError::InvalidFormat);
            },
        };
        let needle = to_chars("scancode_time");
        let mut k: usize = 0;
        while k < pairs.len()
            invariant
                k <= pairs.len(),
                needle@ == reserved_parameter(),
                forall|j: int|
                    0 <= j < k ==> !spec_contains(
                        (#[trigger] pairs_view(pairs)[j]).0,
                        reserved_parameter(),
                    ),
            decreases pairs.len() - k,
        {
            let key = to_chars(pairs[k].0.as_str());
            assert(pairs_view(pairs)[k as int].0 == pairs@[k as int].0@);
            if contains(&key, &needle) {
                assert(has_reserved_key(pairs_view(pairs)));
                return Err(PagePathError::ReservedParameter);
            }
            k += 1;
        }
        assert(pairs_view(pairs).len() == pairs@.len());
        Ok(PagePath(path.to_string()))
    }

    /// The path as an owned string, copied.
    pub fn to_string(&self) -> (s: String)
        ensures
            s@ == self@,
    {
        self.0.clone()
    }

    /// The path as a string slice.
    pub fn as_str(&self) -> (s: &str)
        ensures
            s@ == self@,
    {
        self.0.as_str()
    }

    /// The path as an owned string.
    pub fn into_inner(self) -> (s: String)
        ensures
            s@ == self@,
    {
        self.0
    }

    /// The length of the path in bytes.
    pub fn len(&self) -> (n: usize)
        ensures
            n == byte_len(self@),
    {
        self.0.as_str().as_bytes().len()
    }

    /// Whether the path is empty. A validated path never is.
    pub fn is_empty(&self) -> (b: bool)
        ensures
            b == (self@.len() == 0),
    {
        self.0.as_str().is_empty()
    }
}

impl core::str::FromStr for PagePath {
    type Err = PagePathError;

    /// The same as [`PagePath::new`].
    fn from_str(s: &str) -> (r: Result<PagePath, PagePathError>)
        ensures
            r.is_ok() == page_verdict(s@).is_none(),
            r matches Ok(page) ==> page@ == s@,
            r matches Err(e) ==> page_verdict(s@) == Some(e),
    {
        PagePath::new(s)
    }
}

impl TryFrom<String> for PagePath {
    type Error = PagePathError;

    /// The same as [`PagePath::new`].
    fn try_from(value: String) -> (r: Result<PagePath, PagePathError>)
        ensures
            r.is_ok() == page_verdict(value@).is_none(),
            r matches Ok(page) ==> page@ == value@,
            r matches Err(e) ==> page_verdict(value@) == Some(e),
    {
        PagePath::new(value.as_str())
    }
}

impl vstd::std_specs::convert::TryFromSpecImpl<String> for PagePath {
    open spec fn obeys_try_from_spec() -> bool {
        false
    }

    open spec fn try_from_spec(value: String) -> Result<PagePath, PagePathError> {
        arbitrary()
    }
}

impl<'a> TryFrom<&'a str> for PagePath {
    type Error = PagePathError;

    /// The same as [`PagePath::new`].
    fn try_from(value: &'a str) -> (r: Result<PagePath, PagePathError>)
        ensures
            r.is_ok() == page_verdict(value@).is_none(),
            r matches Ok(page) ==> page@ == value@,
            r matches Err(e) ==> page_verdict(value@) == Some(e),
    {
        PagePath::new(value)
    }
}

impl<'a> vstd::std_specs::convert::TryFromSpecImpl<&'a str> for PagePath {
    open spec fn obeys_try_from_spec() -> bool {
        false
    }

    open spec fn try_from_spec(value: &'a str) -> Result<PagePath, PagePathError> {
        arbitrary()
    }
}

} // verus!
