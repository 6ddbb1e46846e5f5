//! Content moderation: the verdicts of the remote check and the request that
//! asks for one.

pub mod msg_sec_check;

pub use msg_sec_check::{
    Args, ArgsBuilder, ComprehensiveResult, DetailResult, MsgSecCheckResult, Scene,
};

use vstd::prelude::*;

verus! {

/// What the check advises to do with the content.
#[derive(Debug, Clone, Copy, PartialEq, Eq, Structural)]
pub enum Suggest {
    /// The content violates the rules.
    Risky,
    /// The content is fine.
    Pass,
    /// A human should look at the content.
    Review,
}

impl Suggest {
    /// The advice that the remote calls `name`, if there is one: `risky`,
    /// `pass` or `review`.
    pub open spec fn spec_named(name: Seq<char>) -> Option<Suggest> {
        if name == "risky"@ {
            Some(Suggest::Risky)
        } else if name == "pass"@ {
            Some(Suggest::Pass)
        } else if name == "review"@ {
            Some(Suggest::Review)
        } else {
            None
        }
    }

    /// The advice that the remote calls `name`, if there is one.
    pub fn named(name: &str) -> (suggest: Option<Suggest>)
        ensures
            suggest == Self::spec_named(name@),
    {
        let name = name.to_string();
        if name == "risky".to_string() {
            Some(Suggest::Risky)
        } else if name == "pass".to_string() {
            Some(Suggest::Pass)
        } else if name == "review".to_string() {
            Some(Suggest::Review)
        } else {
            None
        }
    }

    /// Whether the content may be published.
    pub fn is_pass(&self) -> (b: bool)
        ensures
            b == (*self == Suggest::Pass),
    {
        match self {
            Suggest::Pass => true,
            _ => false,
        }
    }

    /// Whether the content violates the rules.
    pub fn is_risky(&self) -> (b: bool)
        ensures
            b == (*self == Suggest::Risky),
    {
        match self {
            Suggest::Risky => true,
            _ => false,
        }
    }

    /// Whether a human should look at the content.
    pub fn needs_review(&self) -> (b: bool)
        ensures
            b == (*self == Suggest::Review),
    {
        match self {
            Suggest::Review => true,
            _ => false,
        }
    }
}

/// The category that the check assigned to the content, as the remote's
/// numeric code.
#[derive(Debug, Clone, Copy, PartialEq, Eq, Structural)]
pub struct Label {
    pub code: u32,
}

impl Label {
    /// The label with the code `code`, where that is a code at all: a number
    /// that 32 bits without sign can hold.
    pub open spec fn spec_coded(code: Option<int>) -> Option<Label> {
        match code {
            Some(n) => if 0 <= n <= u32::MAX {
                Some(Label { code: n as u32 })
            } else {
                None
            },
            None => None,
        }
    }

    /// The label with the code `code`, where that is a code at all.
    pub fn coded(code: Option<i64>) -> (label: Option<Label>)
        ensures
            label == Self::spec_coded(
                match code {
                    Some(n) => Some(n as int),
                    None => None,
                },
            ),
    {
        match code {
            Some(n) => {
                if 0 <= n && n <= 4294967295 {
                    Some(Label { code: n as u32 })
                } else {
                    None
                }
            },
            None => None,
        }
    }

    /// The code of content without findings.
    pub const NORMAL: u32 = 100;

    /// Whether the label reports no finding.
    pub fn is_normal(&self) -> (b: bool)
        ensures
            b == (self.code == 100),
    {
        self.code == Label::NORMAL
    }
}

} // verus!
