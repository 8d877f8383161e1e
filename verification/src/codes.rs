//! The catalogs of numeric constants of the protocol: version, message type,
//! method and response codes, option numbers and content formats, with their
//! conversions to and from the raw integers that appear on the wire.

use vstd::prelude::*;

verus! {

/// CoAP specification version.
#[derive(Clone, Copy, Debug, PartialEq, Eq, Structural)]
pub enum Version {
    /// Version 1 (RFC 7252), the only value this codec accepts.
    V1,
}

/// CoAP message type, the 2-bit field of the first header byte.
#[derive(Clone, Copy, Debug, PartialEq, Eq, Structural)]
pub enum MessageType {
    /// A message that requires an acknowledgement.
    Confirmable,
    /// A message that does not require an acknowledgement.
    NonConfirmable,
    /// Acknowledges that a specific Confirmable message arrived.
    Acknowledgement,
    /// Indicates that a specific message was received but could not be processed.
    Reset,
}

impl MessageType {
    /// The 2-bit wire encoding of this message type.
    pub open spec fn bits_spec(self) -> u8 {
        match self {
            MessageType::Confirmable => 0,
            MessageType::NonConfirmable => 1,
            MessageType::Acknowledgement => 2,
            MessageType::Reset => 3,
        }
    }

    /// The message type denoted by a 2-bit field value.
    pub open spec fn from_bits_spec(bits: u8) -> MessageType {
        if bits == 0 {
            MessageType::Confirmable
        } else if bits == 1 {
            MessageType::NonConfirmable
        } else if bits == 2 {
            MessageType::Acknowledgement
        } else {
            MessageType::Reset
        }
    }

    /// Returns the 2-bit wire encoding of this message type.
    pub fn bits(self) -> (r: u8)
        ensures
            r == self.bits_spec(),
    {
        match self {
            MessageType::Confirmable => 0,
            MessageType::NonConfirmable => 1,
            MessageType::Acknowledgement => 2,
            MessageType::Reset => 3,
        }
    }
}

/// Request codes for CoAP messages (class 0, details 1 through 7).
#[derive(Clone, Copy, Debug, PartialEq, Eq, Structural)]
pub enum RequestCode {
    /// GET retrieves a representation of the resource (RFC 7252 5.8.1).
    Get,
    /// POST requests that the enclosed representation be processed (RFC 7252 5.8.2).
    Post,
    /// PUT requests that the resource be updated or created (RFC 7252 5.8.3).
    Put,
    /// DELETE requests that the resource be deleted (RFC 7252 5.8.4).
    Delete,
    /// FETCH obtains a representation selected by request parameters (RFC 8132 2).
    Fetch,
    /// PATCH applies a set of changes to the resource (RFC 8132 3).
    Patch,
    /// iPATCH is the idempotent variant of PATCH (RFC 8132 3).
    IPatch,
}

impl RequestCode {
    /// The 8-bit code value (class 0 shifted high, detail low).
    pub open spec fn as_u8_spec(self) -> u8 {
        match self {
            RequestCode::Get => 1,
            RequestCode::Post => 2,
            RequestCode::Put => 3,
            RequestCode::Delete => 4,
            RequestCode::Fetch => 5,
            RequestCode::Patch => 6,
            RequestCode::IPatch => 7,
        }
    }

    /// Returns the 8-bit code value of this request code.
    pub fn as_u8(self) -> (r: u8)
        ensures
            r == self.as_u8_spec(),
    {
        match self {
            RequestCode::Get => 1,
            RequestCode::Post => 2,
            RequestCode::Put => 3,
            RequestCode::Delete => 4,
            RequestCode::Fetch => 5,
            RequestCode::Patch => 6,
            RequestCode::IPatch => 7,
        }
    }
}

/// Response codes for CoAP messages. Each value is class * 32 + detail.
#[derive(Clone, Copy, Debug, PartialEq, Eq, Structural)]
pub enum ResponseCode {
    /// 2.01 Created (RFC 7252 5.9.1.1).
    Created,
    /// 2.02 Deleted (RFC 7252 5.9.1.2).
    Deleted,
    /// 2.03 Valid (RFC 7252 5.9.1.3).
    Valid,
    /// 2.04 Changed (RFC 7252 5.9.1.4).
    Changed,
    /// 2.05 Content (RFC 7252 5.9.1.5).
    Content,
    /// 2.31 Continue, used by block-wise transfers (RFC 7959 2.9.1).
    Continue,
    /// 4.00 Bad Request (RFC 7252 5.9.2.1).
    BadRequest,
    /// 4.01 Unauthorized (RFC 7252 5.9.2.2).
    Unauthorized,
    /// 4.02 Bad Option (RFC 7252 5.9.2.3).
    BadOption,
    /// 4.08 Request Entity Incomplete, used by block-wise transfers (RFC 7959 2.9.2).
    RequestEntityIncomplete,
    /// 4.09 Conflict (RFC 8132 3.4).
    Conflict,
    /// 4.03 Forbidden (RFC 7252 5.9.2.4).
    Forbidden,
    /// 4.04 Not Found (RFC 7252 5.9.2.5).
    NotFound,
    /// 4.05 Method Not Allowed (RFC 7252 5.9.2.6).
    MethodNotAllowed,
    /// 4.06 Not Acceptable (RFC 7252 5.9.2.7).
    NotAcceptable,
    /// 4.12 Precondition Failed (RFC 7252 5.9.2.8).
    PreconditionFailed,
    /// 4.13 Request Entity Too Large (RFC 7252 5.9.2.9, RFC 7959 2.9.3).
    RequestEntityTooLarge,
    /// 4.15 Unsupported Content-Format (RFC 7252 5.9.2.10).
    UnsupportedContentFormat,
    /// 4.22 Unprocessable Entity (RFC 8132 2.2, 3.4).
    UnprocessableEntity,
    /// 5.00 Internal Server Error (RFC 7252 5.9.3.1).
    InternalServerError,
    /// 5.01 Not Implemented (RFC 7252 5.9.3.2).
    NotImplemented,
    /// 5.02 Bad Gateway (RFC 7252 5.9.3.3).
    BadGateway,
    /// 5.03 Service Unavailable (RFC 7252 5.9.3.4).
    ServiceUnavailable,
    /// 5.04 Gateway Timeout (RFC 7252 5.9.3.5).
    GatewayTimeout,
    /// 5.05 Proxying Not Supported (RFC 7252 5.9.3.6).
    ProxyingNotSupported,
}

impl ResponseCode {
    /// The 8-bit code value (class shifted high, detail low).
    pub open spec fn as_u8_spec(self) -> u8 {
        match self {
            ResponseCode::Created => 65,
            ResponseCode::Deleted => 66,
            ResponseCode::Valid => 67,
            ResponseCode::Changed => 68,
            ResponseCode::Content => 69,
            ResponseCode::Continue => 95,
            ResponseCode::BadRequest => 128,
            ResponseCode::Unauthorized => 129,
            ResponseCode::BadOption => 130,
            ResponseCode::RequestEntityIncomplete => 136,
            ResponseCode::Conflict => 137,
            ResponseCode::Forbidden => 131,
            ResponseCode::NotFound => 132,
            ResponseCode::MethodNotAllowed => 133,
            ResponseCode::NotAcceptable => 134,
            ResponseCode::PreconditionFailed => 140,
            ResponseCode::RequestEntityTooLarge => 141,
            ResponseCode::UnsupportedContentFormat => 143,
            ResponseCode::UnprocessableEntity => 150,
            ResponseCode::InternalServerError => 160,
            ResponseCode::NotImplemented => 161,
            ResponseCode::BadGateway => 162,
            ResponseCode::ServiceUnavailable => 163,
            ResponseCode::GatewayTimeout => 164,
            ResponseCode::ProxyingNotSupported => 165,
        }
    }

    /// Returns the 8-bit code value of this response code.
    pub fn as_u8(self) -> (r: u8)
        ensures
            r == self.as_u8_spec(),
    {
        match self {
            ResponseCode::Created => 65,
            ResponseCode::Deleted => 66,
            ResponseCode::Valid => 67,
            ResponseCode::Changed => 68,
            ResponseCode::Content => 69,
            ResponseCode::Continue => 95,
            ResponseCode::BadRequest => 128,
            ResponseCode::Unauthorized => 129,
            ResponseCode::BadOption => 130,
            ResponseCode::RequestEntityIncomplete => 136,
            ResponseCode::Conflict => 137,
            ResponseCode::Forbidden => 131,
            ResponseCode::NotFound => 132,
            ResponseCode::MethodNotAllowed => 133,
            ResponseCode::NotAcceptable => 134,
            ResponseCode::PreconditionFailed => 140,
            ResponseCode::RequestEntityTooLarge => 141,
            ResponseCode::UnsupportedContentFormat => 143,
            ResponseCode::UnprocessableEntity => 150,
            ResponseCode::InternalServerError => 160,
            ResponseCode::NotImplemented => 161,
            ResponseCode::BadGateway => 162,
            ResponseCode::ServiceUnavailable => 163,
            ResponseCode::GatewayTimeout => 164,
            ResponseCode::ProxyingNotSupported => 165,
        }
    }
}

/// CoAP option numbers as defined in RFC 7252, RFC 7959 and RFC 9175,
/// with a catch-all for numbers this catalog does not know.
#[derive(Clone, Copy, Debug, PartialEq, Eq, Structural)]
pub enum OptionNumber {
    /// If-Match, number 1 (RFC 7252 5.10.8.1).
    IfMatch,
    /// Uri-Host, number 3 (RFC 7252 5.10.1).
    UriHost,
    /// ETag, number 4 (RFC 7252 5.10.6).
    Etag,
    /// If-None-Match, number 5 (RFC 7252 5.10.8.2).
    IfNoneMatch,
    /// Uri-Port, number 7 (RFC 7252 5.10.1).
    UriPort,
    /// Location-Path, number 8 (RFC 7252 5.10.7).
    LocationPath,
    /// Uri-Path, number 11 (RFC 7252 5.10.1).
    UriPath,
    /// Content-Format, number 12 (RFC 7252 5.10.3).
    ContentFormat,
    /// Max-Age, number 14 (RFC 7252 5.10.5).
    MaxAge,
    /// Uri-Query, number 15 (RFC 7252 5.10.1).
    UriQuery,
    /// Accept, number 17 (RFC 7252 5.10.4).
    Accept,
    /// Location-Query, number 20 (RFC 7252 5.10.7).
    LocationQuery,
    /// Block2, number 23 (RFC 7959 2.1).
    Block2,
    /// Block1, number 27 (RFC 7959 2.1).
    Block1,
    /// Size2, number 28 (RFC 7959 4).
    Size2,
    /// Proxy-Uri, number 35 (RFC 7252 5.10.2).
    ProxyUri,
    /// Proxy-Scheme, number 39 (RFC 7252 5.10.2).
    ProxyScheme,
    /// Size1, number 60 (RFC 7252 5.10.9, RFC 7959 4).
    Size1,
    /// Echo, number 252 (RFC 9175 2.2).
    Echo,
    /// Request-Tag, number 292 (RFC 9175 3.2).
    RequestTag,
    /// An option number this catalog does not recognize.
    UnknownOption(u16),
}

impl OptionNumber {
    /// The numeric option number of this variant.
    pub open spec fn raw_spec(self) -> u16 {
        match self {
            OptionNumber::IfMatch => 1,
            OptionNumber::UriHost => 3,
            OptionNumber::Etag => 4,
            OptionNumber::IfNoneMatch => 5,
            OptionNumber::UriPort => 7,
            OptionNumber::LocationPath => 8,
            OptionNumber::UriPath => 11,
            OptionNumber::ContentFormat => 12,
            OptionNumber::MaxAge => 14,
            OptionNumber::UriQuery => 15,
            OptionNumber::Accept => 17,
            OptionNumber::LocationQuery => 20,
            OptionNumber::Block2 => 23,
            OptionNumber::Block1 => 27,
            OptionNumber::Size2 => 28,
            OptionNumber::ProxyUri => 35,
            OptionNumber::ProxyScheme => 39,
            OptionNumber::Size1 => 60,
            OptionNumber::Echo => 252,
            OptionNumber::RequestTag => 292,
            OptionNumber::UnknownOption(n) => n,
        }
    }

    /// The variant denoted by a numeric option number.
    pub open spec fn from_raw_spec(n: u16) -> OptionNumber {
        if n == 1 {
            OptionNumber::IfMatch
        } else if n == 3 {
            OptionNumber::UriHost
        } else if n == 4 {
            OptionNumber::Etag
        } else if n == 5 {
            OptionNumber::IfNoneMatch
        } else if n == 7 {
            OptionNumber::UriPort
        } else if n == 8 {
            OptionNumber::LocationPath
        } else if n == 11 {
            OptionNumber::UriPath
        } else if n == 12 {
            OptionNumber::ContentFormat
        } else if n == 14 {
            OptionNumber::MaxAge
        } else if n == 15 {
            OptionNumber::UriQuery
        } else if n == 17 {
            OptionNumber::Accept
        } else if n == 20 {
            OptionNumber::LocationQuery
        } else if n == 23 {
            OptionNumber::Block2
        } else if n == 27 {
            OptionNumber::Block1
        } else if n == 28 {
            OptionNumber::Size2
        } else if n == 35 {
            OptionNumber::ProxyUri
        } else if n == 39 {
            OptionNumber::ProxyScheme
        } else if n == 60 {
            OptionNumber::Size1
        } else if n == 252 {
            OptionNumber::Echo
        } else if n == 292 {
            OptionNumber::RequestTag
        } else {
            OptionNumber::UnknownOption(n)
        }
    }

    /// Returns the numeric option number of this variant.
    pub fn to_raw(self) -> (r: u16)
        ensures
            r == self.raw_spec(),
    {
        match self {
            OptionNumber::IfMatch => 1,
            OptionNumber::UriHost => 3,
            OptionNumber::Etag => 4,
            OptionNumber::IfNoneMatch => 5,
            OptionNumber::UriPort => 7,
            OptionNumber::LocationPath => 8,
            OptionNumber::UriPath => 11,
            OptionNumber::ContentFormat => 12,
            OptionNumber::MaxAge => 14,
            OptionNumber::UriQuery => 15,
            OptionNumber::Accept => 17,
            OptionNumber::LocationQuery => 20,
            OptionNumber::Block2 => 23,
            OptionNumber::Block1 => 27,
            OptionNumber::Size2 => 28,
            OptionNumber::ProxyUri => 35,
            OptionNumber::ProxyScheme => 39,
            OptionNumber::Size1 => 60,
            OptionNumber::Echo => 252,
            OptionNumber::RequestTag => 292,
            OptionNumber::UnknownOption(n) => n,
        }
    }

    /// Returns the variant denoted by a numeric option number.
    pub fn from_raw(n: u16) -> (r: OptionNumber)
        ensures
            r == OptionNumber::from_raw_spec(n),
    {
        if n == 1 {
            OptionNumber::IfMatch
        } else if n == 3 {
            OptionNumber::UriHost
        } else if n == 4 {
            OptionNumber::Etag
        } else if n == 5 {
            OptionNumber::IfNoneMatch
        } else if n == 7 {
            OptionNumber::UriPort
        } else if n == 8 {
            OptionNumber::LocationPath
        } else if n == 11 {
            OptionNumber::UriPath
        } else if n == 12 {
            OptionNumber::ContentFormat
        } else if n == 14 {
            OptionNumber::MaxAge
        } else if n == 15 {
            OptionNumber::UriQuery
        } else if n == 17 {
            OptionNumber::Accept
        } else if n == 20 {
            OptionNumber::LocationQuery
        } else if n == 23 {
            OptionNumber::Block2
        } else if n == 27 {
            OptionNumber::Block1
        } else if n == 28 {
            OptionNumber::Size2
        } else if n == 35 {
            OptionNumber::ProxyUri
        } else if n == 39 {
            OptionNumber::ProxyScheme
        } else if n == 60 {
            OptionNumber::Size1
        } else if n == 252 {
            OptionNumber::Echo
        } else if n == 292 {
            OptionNumber::RequestTag
        } else {
            OptionNumber::UnknownOption(n)
        }
    }

    /// Checks if the option number is critical (lowest bit set).
    pub fn is_critical(&self) -> (r: bool)
        ensures
            r == (self.raw_spec() % 2 == 1),
    {
        self.to_raw() % 2 == 1
    }

    /// Checks if the option number is unsafe to forward (second-lowest bit set).
    pub fn is_unsafe(&self) -> (r: bool)
        ensures
            r == ((self.raw_spec() / 2) % 2 == 1),
    {
        (self.to_raw() / 2) % 2 == 1
    }

    /// Checks if the option number is not part of the cache key
    /// (bits 1 through 4 equal to 0b1110).
    pub fn is_no_cache_key(&self) -> (r: bool)
        ensures
            r == ((self.raw_spec() / 2) % 16 == 14),
    {
        (self.to_raw() / 2) % 16 == 14
    }
}

/// CoAP Content-Format identifiers from the CoAP Content-Formats registry
/// (RFC 7252 5.10.3 and 12.3), with a catch-all for other identifiers.
#[derive(Clone, Copy, Debug, PartialEq, Eq, Structural)]
pub enum ContentFormat {
    /// text/plain; charset=utf-8, identifier 0.
    TextPlain,
    /// application/link-format, identifier 40.
    ApplicationLinkFormat,
    /// application/xml, identifier 41.
    ApplicationXml,
    /// application/octet-stream, identifier 42.
    ApplicationOctetStream,
    /// application/exi, identifier 47.
    ApplicationExi,
    /// application/json, identifier 50.
    ApplicationJson,
    /// application/json-patch+json, identifier 51 (RFC 6902, RFC 8132 6).
    ApplicationJsonPatch,
    /// application/merge-patch+json, identifier 52 (RFC 7396, RFC 8132 6).
    ApplicationMergePatch,
    /// A content format this catalog does not recognize.
    Unknown(u16),
}

impl ContentFormat {
    /// The numeric identifier of this content format.
    pub open spec fn raw_spec(self) -> u16 {
        match self {
            ContentFormat::TextPlain => 0,
            ContentFormat::ApplicationLinkFormat => 40,
            ContentFormat::ApplicationXml => 41,
            ContentFormat::ApplicationOctetStream => 42,
            ContentFormat::ApplicationExi => 47,
            ContentFormat::ApplicationJson => 50,
            ContentFormat::ApplicationJsonPatch => 51,
            ContentFormat::ApplicationMergePatch => 52,
            ContentFormat::Unknown(n) => n,
        }
    }

    /// The variant denoted by a numeric content-format identifier.
    pub open spec fn from_raw_spec(n: u16) -> ContentFormat {
        if n == 0 {
            ContentFormat::TextPlain
        } else if n == 40 {
            ContentFormat::ApplicationLinkFormat
        } else if n == 41 {
            ContentFormat::ApplicationXml
        } else if n == 42 {
            ContentFormat::ApplicationOctetStream
        } else if n == 47 {
            ContentFormat::ApplicationExi
        } else if n == 50 {
            ContentFormat::ApplicationJson
        } else if n == 51 {
            ContentFormat::ApplicationJsonPatch
        } else if n == 52 {
            ContentFormat::ApplicationMergePatch
        } else {
            ContentFormat::Unknown(n)
        }
    }

    /// Returns the numeric identifier of this content format.
    pub fn to_raw(self) -> (r: u16)
        ensures
            r == self.raw_spec(),
    {
        match self {
            ContentFormat::TextPlain => 0,
            ContentFormat::ApplicationLinkFormat => 40,
            ContentFormat::ApplicationXml => 41,
            ContentFormat::ApplicationOctetStream => 42,
            ContentFormat::ApplicationExi => 47,
            ContentFormat::ApplicationJson => 50,
            ContentFormat::ApplicationJsonPatch => 51,
            ContentFormat::ApplicationMergePatch => 52,
            ContentFormat::Unknown(n) => n,
        }
    }

    /// Returns the variant denoted by a numeric content-format identifier.
    pub fn from_raw(n: u16) -> (r: ContentFormat)
        ensures
            r == ContentFormat::from_raw_spec(n),
    {
        if n == 0 {
            ContentFormat::TextPlain
        } else if n == 40 {
            ContentFormat::ApplicationLinkFormat
        } else if n == 41 {
            ContentFormat::ApplicationXml
        } else if n == 42 {
            ContentFormat::ApplicationOctetStream
        } else if n == 47 {
            ContentFormat::ApplicationExi
        } else if n == 50 {
            ContentFormat::ApplicationJson
        } else if n == 51 {
            ContentFormat::ApplicationJsonPatch
        } else if n == 52 {
            ContentFormat::ApplicationMergePatch
        } else {
            ContentFormat::Unknown(n)
        }
    }
}

} // verus!
