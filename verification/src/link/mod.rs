//! Links into a mini-program.

pub mod short_link;

pub use short_link::{ShortLink, ShortLinkArgs, ShortLinkArgsBuilder};
