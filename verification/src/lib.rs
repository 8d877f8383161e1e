//! A minimal, verified CoAP message parser and builder.
//!
//! The parser validates a byte buffer and decodes it into a structured
//! message; the builder assembles a valid buffer through a strict sequence of
//! typestate transitions. Both sides are specified against one mathematical
//! model of the wire format (RFC 7252), so that a round trip from builder to
//! parser is proved to return every field unchanged.

mod builder;
mod codes;
mod error;
mod parser;

pub mod laws;
pub mod wire;

pub use builder::Complete;
pub use builder::MessageBuilder;
pub use builder::NeedsBuffer;
pub use builder::NeedsHeader;
pub use builder::NeedsMessageId;
pub use builder::NeedsPayload;
pub use builder::NeedsToken;
pub use builder::uint_to_minimal_bytes;
pub use codes::ContentFormat;
pub use codes::MessageType;
pub use codes::OptionNumber;
pub use codes::RequestCode;
pub use codes::ResponseCode;
pub use codes::Version;
pub use error::CoapBuildError;
pub use error::CoapParseError;
pub use parser::CoapOption;
pub use parser::CoapOptions;
pub use parser::Message;
pub use parser::OptionIterator;
