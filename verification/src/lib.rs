//! Closed enumerations that tag fields of Kiro API payloads.
//!
//! Each enumeration has one canonical wire token per variant. The mapping
//! from variants to tokens and the parser that inverts it are stated as spec
//! functions, and the executable conversions are proved against them.

pub mod content_type;
pub mod error;
pub mod message_status;
pub mod token;
pub mod user_intent;

pub use content_type::ContentType;
pub use error::ParseError;
pub use message_status::MessageStatus;
pub use user_intent::UserIntent;
