//! Argument types that are valid by construction.

pub mod non_query_page_path;
pub mod page_path;
pub mod scene;

pub use non_query_page_path::NonQueryPagePath;
pub use page_path::PagePath;
pub use scene::{SceneString, ValidationSceneError};

use vstd::prelude::*;

verus! {

/// Why a page path was rejected.
#[derive(Debug, Clone, Copy, PartialEq, Eq, Structural)]
pub enum PagePathError {
    /// The path begins with a slash.
    StartsWithSlash,
    /// The path carries parameters, which belong into the scene.
    ContainsParams,
    /// The path is malformed.
    InvalidFormat,
    /// The path is longer than 1024 bytes.
    InvalidLength,
    /// The path uses the reserved parameter `scancode_time`.
    ReservedParameter,
    /// The path is empty.
    Empty,
}

impl PagePathError {
    /// The text that describes this rejection.
    pub open spec fn spec_message(&self) -> Seq<char> {
        match self {
            PagePathError::StartsWithSlash => "页面路径不能以斜杠开头"@,
            PagePathError::ContainsParams => "页面路径不能携带参数，参数请放在scene字段里"@,
            PagePathError::InvalidFormat => "页面路径格式不正确"@,
            PagePathError::InvalidLength => "页面路径最大长度 1024 个字符"@,
            PagePathError::Empty => "页面路径不能为空"@,
            PagePathError::ReservedParameter => "页面路径包含系统保留参数 'scancode_time'"@,
        }
    }

    /// The text that describes this rejection.
    pub fn message(&self) -> (m: String)
        ensures
            m@ == self.spec_message(),
    {
        match self {
            PagePathError::StartsWithSlash => "页面路径不能以斜杠开头".to_string(),
            PagePathError::ContainsParams => "页面路径不能携带参数，参数请放在scene字段里".to_string(),
            PagePathError::InvalidFormat => "页面路径格式不正确".to_string(),
            PagePathError::InvalidLength => "页面路径最大长度 1024 个字符".to_string(),
            PagePathError::Empty => "页面路径不能为空".to_string(),
            PagePathError::ReservedParameter => "页面路径包含系统保留参数 'scancode_time'".to_string(),
        }
    }
}

} // verus!
