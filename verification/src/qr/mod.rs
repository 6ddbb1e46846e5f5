//! Mini-program codes.
//!
//! [`minapp_code`] asks for a code of a page with its parameters in the path;
//! such codes are limited in number. [`unlimited_minapp_code`] asks for a code
//! of a page with a short scene; such codes are not limited.

pub mod minapp_code;
pub mod unlimited_minapp_code;

pub use minapp_code::{MinappEnvVersion, QrCode, QrCodeArgBuilder, QrCodeArgs, Rgb};
pub use unlimited_minapp_code::{UnlimitedQrCodeArgs, UnlimitedQrCodeArgsBuilder};
