//! The prekey directory of an end-to-end encrypted messenger: phone identities register a
//! long-term key, confirm it with a one-time passcode and a signed prekey, and then any
//! authenticated identity may fetch another's key bundle, each one-time prekey being handed out
//! at most once. The store and the transport stay outside; this crate holds the decisions.

pub mod bundle;
pub mod encoding;
pub mod error;
pub mod records;
pub mod registration;
pub mod routing;
pub mod text;
pub mod verification;
