use vstd::prelude::*;

verus! {

/// Errors that can occur when building a CoAP message.
#[derive(Clone, Copy, Debug, PartialEq, Eq, Structural)]
pub enum CoapBuildError {
    /// The provided buffer is too small to fit the message being constructed.
    BufferTooSmall,
    /// The token is longer than 8 bytes. Carries the actual length that was provided.
    TokenTooLong(usize),
    /// A payload marker (0xFF) was requested but no payload data was provided.
    /// Use `no_payload()` instead of `payload()` when there is no payload.
    PayloadMarkerWithoutPayload,
    /// Options must be added in non-decreasing order by option number.
    /// An attempt was made to add an option with a number below the previous option's.
    OptionNumberOutOfOrder,
}

/// Errors that can occur when parsing a CoAP message.
#[derive(Clone, Copy, Debug, PartialEq, Eq, Structural)]
pub enum CoapParseError {
    /// The message buffer is too short to contain a valid CoAP message.
    /// A valid CoAP message must be at least 4 bytes (header).
    MessageTooShort,
    /// The version field contains an unknown or unsupported version number.
    /// Carries the version number that was encountered. Only version 1 is supported.
    UnknownVersion(u8),
    /// The token length field (TKL) contains an invalid value.
    /// Token length must be between 0 and 8 bytes. Carries the length that was found.
    InvalidTokenLength(usize),
    /// An option has a delta nibble of 15, which is reserved and invalid per RFC 7252.
    InvalidOptionDelta,
    /// An option has a length nibble of 15, which is reserved and invalid per RFC 7252.
    InvalidOptionLength,
    /// An empty message (code 0.00) contains data after the header, which is not allowed.
    EmptyMessageWithData,
    /// A payload marker (0xFF) was present but no payload data followed it.
    PayloadMarkerWithoutPayload,
}

} // verus!
