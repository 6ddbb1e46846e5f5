//! Server-side client library for the WeChat mini-program backend API.
//!
//! The heart of the crate is the access-token cache in [`client`]: the expiry
//! policy, the refresh protocol that every caller follows, a model of many
//! callers sharing one cache, and the guarantees that hold of every schedule
//! of those callers: a single refresh in flight, no torn credential, failures
//! that stay with the caller that triggered them, a refresher role that is
//! always given back.
//!
//! Around it stand the endpoints: [`user`] (login, session key, profile,
//! phone number), [`qr`] (mini-program codes), [`link`] (short links) and
//! [`minapp_security`] (content moderation). Each builds its request from
//! validated arguments ([`new_type`]) and decodes the answer itself.
//!
//! The library performs no input or output of its own. A caller brings an
//! [`HttpClient`](utils::http::HttpClient) and uses
//! [`WechatMinappSDK`](client::WechatMinappSDK), or drives the refresh
//! protocol from an asynchronous runtime through
//! [`Phase`](client::Phase).

pub mod client;
pub mod constants;
pub mod error;
pub mod link;
pub mod minapp_security;
pub mod new_type;
pub mod qr;
pub mod user;
pub mod utils;
