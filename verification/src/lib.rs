//! Session-authentication and content-storage core of a small note-taking
//! service.
//!
//! Users authenticate with a cookie pair (username, opaque token). A token is
//! never stored raw: the backing key-value store maps `hash(token)` to the
//! owning username. Verification classifies every request into one of three
//! outcomes — authenticated, rejected, or infrastructure failure — and the
//! cookie lifecycle and HTTP status follow from that classification alone.

pub mod auth;
pub mod decimal;
pub mod notes;
pub mod response;
pub mod session;
pub mod templates;

pub use auth::LookupReply;
pub use auth::VerifyStatus;
pub use auth::verify_user;
