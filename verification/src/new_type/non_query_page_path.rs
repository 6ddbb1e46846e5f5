//! A page path that carries no parameters.

use vstd::prelude::*;
use vstd::string::StringExecFns;
use crate::constants::END_POINT_BASE_URL;
use crate::new_type::PagePathError;
use crate::utils::{parse_query, spec_parse_query};
use crate::utils::text::{is_whitespace, padded, pieces_view, split, split_chars, to_chars};

verus! {

/// The address under which a page path is checked: the base address of the
/// API, a slash, and the path.
pub open spec fn page_address(path: Seq<char>) -> Seq<char> {
    END_POINT_BASE_URL@ + "/"@ + path
}

/// Whether a piece of a path between two slashes is unusable: it is empty, or
/// it begins or ends with whitespace.
pub open spec fn bad_piece(piece: Seq<char>) -> bool {
    piece.len() == 0 || padded(piece)
}

/// Whether some piece of `path` between slashes is unusable.
pub open spec fn has_bad_piece(path: Seq<char>) -> bool {
    exists|k: int| 0 <= k < split(path, '/').len() && bad_piece(#[trigger] split(path, '/')[k])
}

/// Why `path` is rejected as a page path without parameters, or `None` where
/// it is accepted. The rules apply in this order: no leading slash; the path
/// under the API's base address is a URL; that URL has no query pairs; no
/// piece between slashes is empty or padded with whitespace.
pub open spec fn non_query_verdict(path: Seq<char>) -> Option<PagePathError> {
    if path.len() > 0 && path[0] == '/' {
        Some(PagePathError::StartsWithSlash)
    } else {
        match spec_parse_query(page_address(path)) {
            None => Some(PagePathError::InvalidFormat),
            Some(pairs) => {
                if pairs.len() > 0 {
                    Some(PagePathError::ContainsParams)
                } else if has_bad_piece(path) {
                    Some(PagePathError::InvalidFormat)
                } else {
                    None
                }
            },
        }
    }
}

/// A page path that has passed validation.
#[derive(Debug, Clone, PartialEq, Eq, Hash)]
pub struct NonQueryPagePath(String);

impl View for NonQueryPagePath {
    type V = Seq<char>;

    closed spec fn view(&self) -> Seq<char> {
        self.0@
    }
}

fn is_bad_piece(piece: &Vec<char>) -> (b: bool)
    ensures
        b == bad_piece(piece@),
{
    if piece.len() == 0 {
        return true;
    }
    is_whitespace(piece[0]) || is_whitespace(piece[piece.len() - 1])
}

impl NonQueryPagePath {
    /// Checks `path` and wraps it.
    pub fn new(path: &str) -> (r: Result<NonQueryPagePath, PagePathError>)
        ensures
            r.is_ok() == non_query_verdict(path@).is_none(),
            r matches Ok(page) ==> page@ == path@,
            r matches Err(e) ==> non_query_verdict(path@) == Some(e),
    {
        match Self::validate(path) {
            Ok(()) => Ok(NonQueryPagePath(path.to_string())),
            Err(e) => Err(e),
        }
    }

    /// Applies the rules of a page path without parameters to `path`.
    #[verifier::loop_isolation(false)]
    pub fn validate(path: &str) -> (r: Result<(), PagePathError>)
        ensures
            r.is_ok() == non_query_verdict(path@).is_none(),
            r matches Err(e) ==> non_query_verdict(path@) == Some(e),
    {
        let chars = to_chars(path);
        if chars.len() > 0 && chars[0] == '/' {
            return Err(PagePathError::StartsWithSlash);
        }
        let address = String::from_str(END_POINT_BASE_URL).concat("/").concat(path);
        assert(address@ == page_address(path@));
        let pairs = match parse_query(address.as_str()) {
            Ok(pairs) => pairs,
            Err(_) => {
                return Err(PagePathError::InvalidFormat);
            },
        };
        assert(crate::utils::pairs_view(pairs).len() == pairs@.len());
        if pairs.len() > 0 {
            return Err(PagePathError::ContainsParams);
        }
        let pieces = split_chars(&chars, '/');
        let mut k: usize = 0;
        while k < pieces.len()
            invariant
                k <= pieces.len(),
                pieces_view(pieces) == split(path@, '/'),
                forall|j: int| 0 <= j < k ==> !bad_piece(#[trigger] split(path@, '/')[j]),
            decreases pieces.len() - k,
        {
            assert(pieces_view(pieces)[k as int] == pieces@[k as int]@);
            if is_bad_piece(&pieces[k]) {
                assert(bad_piece(split(path@, '/')[k as int]));
                return Err(PagePathError::InvalidFormat);
            }
            k += 1;
        }
        assert(pieces_view(pieces).len() == pieces@.len());
        Ok(())
    }

    /// The path as an owned string, copied.
    pub fn to_string(&self) -> (s: String)
        ensures
            s@ == self@,
    {
        self.0.clone()
    }

    /// The path as a string slice.
    pub fn as_str(&self) -> (s: &str)
        ensures
            s@ == self@,
    {
        self.0.as_str()
    }

    /// The path as an owned string.
    pub fn into_inner(self) -> (s: String)
        ensures
            s@ == self@,
    {
        self.0
    }
}

impl core::str::FromStr for NonQueryPagePath {
    type Err = PagePathError;

    /// The same as [`NonQueryPagePath::new`].
    fn from_str(s: &str) -> (r: Result<NonQueryPagePath, PagePathError>)
        ensures
            r.is_ok() == non_query_verdict(s@).is_none(),
            r matches Ok(page) ==> page@ == s@,
            r matches Err(e) ==> non_query_verdict(s@) == Some(e),
    {
        NonQueryPagePath::new(s)
    }
}

impl TryFrom<String> for NonQueryPagePath {
    type Error = PagePathError;

    /// The same as [`NonQueryPagePath::new`].
    fn try_from(value: String) -> (r: Result<NonQueryPagePath, PagePathError>)
        ensures
            r.is_ok() == non_query_verdict(value@).is_none(),
            r matches Ok(page) ==> page@ == value@,
            r matches Err(e) ==> non_query_verdict(value@) == Some(e),
    {
        NonQueryPagePath::new(value.as_str())
    }
}

impl vstd::std_specs::convert::TryFromSpecImpl<String> for NonQueryPagePath {
    open spec fn obeys_try_from_spec() -> bool {
        false
    }

    open spec fn try_from_spec(value: String) -> Result<NonQueryPagePath, PagePathError> {
        arbitrary()
    }
}

impl<'a> TryFrom<&'a str> for NonQueryPagePath {
    type Error = PagePathError;

    /// The same as [`NonQueryPagePath::new`].
    fn try_from(value: &'a str) -> (r: Result<NonQueryPagePath, PagePathError>)
        ensures
            r.is_ok() == non_query_verdict(value@).is_none(),
            r matches Ok(page) ==> page@ == value@,
            r matches Err(e) ==> non_query_verdict(value@) == Some(e),
    {
        NonQueryPagePath::new(value)
    }
}

impl<'a> vstd::std_specs::convert::TryFromSpecImpl<&'a str> for NonQueryPagePath {
    open spec fn obeys_try_from_spec() -> bool {
        false
    }

    open spec fn try_from_spec(value: &'a str) -> Result<NonQueryPagePath, PagePathError> {
        arbitrary()
    }
}

impl From<NonQueryPagePath> for String {
    /// The path as an owned string.
    fn from(page_path: NonQueryPagePath) -> (s: String)
        ensures
            s@ == page_path@,
    {
        page_path.0
    }
}

impl vstd::std_specs::convert::FromSpecImpl<NonQueryPagePath> for String {
    open spec fn obeys_from_spec() -> bool {
        false
    }

    open spec fn from_spec(page_path: NonQueryPagePath) -> String {
        arbitrary()
    }
}

} // verus!
