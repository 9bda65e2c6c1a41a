//! Unofficial SDK for 1Password desktop app integrations.
//!
//! This crate is not affiliated with or endorsed by 1Password. It holds everything of the SDK but
//! the talking to the desktop app itself: what is accepted from callers, which messages are sent,
//! how replies are read, and what is done when the desktop session has expired.
pub mod client;
pub mod encoding;
pub mod error;
pub mod items;
pub mod json;
pub mod laws;
pub mod loader;
pub mod operation;
pub mod platform;
pub mod secrets;
pub mod text;
pub mod transport;
pub mod validate;
pub mod vaults;

pub use client::{Client, ClientBuilder, DesktopAuth};
pub use error::Error;
pub use items::Items;
pub use secrets::Secrets;
pub use vaults::Vaults;
