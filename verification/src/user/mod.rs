//! Users of a mini-program: logging in, the session key, profile data and
//! the phone number.

pub mod credential;
pub mod user_info;

pub use credential::{Credential, CredentialBuilder};
pub use user_info::{Contact, ContactBuilder, PhoneInner, UserBuilder, UserInfo, WatermarkBuilder};

use vstd::prelude::*;
use crate::client::AppConfig;

verus! {

/// The user-facing part of the API, on behalf of one mini-program.
pub struct User {
    pub config: AppConfig,
}

impl User {
    /// The user API of the mini-program with the identity `config`.
    pub fn new(config: AppConfig) -> (user: User)
        ensures
            user.config == config,
    {
        User { config }
    }
}

} // verus!
