use minicoap::CoapParseError;
use minicoap::ContentFormat;
use minicoap::Message;
use minicoap::MessageBuilder;
use minicoap::MessageType;
use minicoap::OptionNumber;
use minicoap::RequestCode;
use minicoap::Version;

#[test]
fn parse_simple_get_request() {
    let packet = MessageBuilder::new(vec![0u8; 128])
        .unwrap()
        .request(MessageType::Confirmable, RequestCode::Get)
        .message_id(0x1234)
        .no_token()
        .unwrap()
        .no_payload()
        .build();

    let message = Message::parse(&packet).unwrap();

    assert_eq!(message.version, Version::V1);
    assert_eq!(message.message_type, MessageType::Confirmable);
    assert_eq!(message.code, 0x01);
    assert_eq!(message.message_id, 0x1234);
    assert_eq!(message.token.as_slice(), &[] as &[u8]);
    assert!(message.payload.is_none());
    assert!(message.is_request());
    assert!(!message.is_response());
    assert!(!message.is_empty());
}

#[test]
fn parse_request_with_token() {
    let token = [0x12, 0x34, 0x56, 0x78];

    let packet = MessageBuilder::new(vec![0u8; 128])
        .unwrap()
        .request(MessageType::Confirmable, RequestCode::Get)
        .message_id(0xABCD)
        .token(&token)
        .unwrap()
        .no_payload()
        .build();

    let message = Message::parse(&packet).unwrap();

    assert_eq!(message.token.as_slice(), &token);
    assert_eq!(message.message_id, 0xABCD);
}

#[test]
fn parse_request_with_payload() {
    let payload_data = b"Hello, CoAP!";

    let packet = MessageBuilder::new(vec![0u8; 128])
        .unwrap()
        .request(MessageType::NonConfirmable, RequestCode::Post)
        .message_id(0x0001)
        .no_token()
        .unwrap()
        .payload(payload_data)
        .unwrap()
        .build();

    let message = Message::parse(&packet).unwrap();

    assert_eq!(message.message_type, MessageType::NonConfirmable);
    assert_eq!(message.payload.unwrap().as_slice(), &payload_data[..]);
}

#[test]
fn parse_request_with_options() {
    let packet = MessageBuilder::new(vec![0u8; 128])
        .unwrap()
        .request(MessageType::Confirmable, RequestCode::Get)
        .message_id(0x5678)
        .no_token()
        .unwrap()
        .option(OptionNumber::UriPath, b"temperature")
        .unwrap()
        .option(OptionNumber::UriPath, b"sensor")
        .unwrap()
        .option(OptionNumber::Accept, &[0])
        .unwrap()
        .no_payload()
        .build();

    let message = Message::parse(&packet).unwrap();

    let mut options = Vec::new();
    let mut it = message.options.iter();
    while let Some(opt) = it.next() {
        options.push(opt);
    }
    assert_eq!(options.len(), 3);

    assert_eq!(options[0].number, OptionNumber::UriPath);
    assert_eq!(options[0].value.as_slice(), b"temperature");

    assert_eq!(options[1].number, OptionNumber::UriPath);
    assert_eq!(options[1].value.as_slice(), b"sensor");

    assert_eq!(options[2].number, OptionNumber::Accept);
    assert_eq!(options[2].value.as_slice(), &[0]);
}

#[test]
fn parse_option_find() {
    let packet = MessageBuilder::new(vec![0u8; 128])
        .unwrap()
        .request(MessageType::Confirmable, RequestCode::Get)
        .message_id(0x0001)
        .no_token()
        .unwrap()
        .option(OptionNumber::UriPath, b"test")
        .unwrap()
        .option(OptionNumber::ContentFormat, &[0])
        .unwrap()
        .no_payload()
        .build();

    let message = Message::parse(&packet).unwrap();

    let mut uri_path = None;
    let mut it = message.options.iter();
    while let Some(opt) = it.next() {
        if opt.number == OptionNumber::UriPath && uri_path.is_none() {
            uri_path = Some(opt.value);
        }
    }
    assert_eq!(uri_path.unwrap().as_slice(), &b"test"[..]);

    let mut content_format = None;
    let mut it = message.options.iter();
    while let Some(opt) = it.next() {
        if opt.number == OptionNumber::ContentFormat && content_format.is_none() {
            content_format = Some(opt.value);
        }
    }
    assert_eq!(content_format.unwrap().as_slice(), &[0][..]);

    let mut missing = None;
    let mut it = message.options.iter();
    while let Some(opt) = it.next() {
        if opt.number == OptionNumber::MaxAge && missing.is_none() {
            missing = Some(opt.value);
        }
    }
    assert!(missing.is_none());
}

#[test]
fn parse_option_find_all() {
    let packet = MessageBuilder::new(vec![0u8; 128])
        .unwrap()
        .request(MessageType::Confirmable, RequestCode::Get)
        .message_id(0x0001)
        .no_token()
        .unwrap()
        .option(OptionNumber::UriPath, b"api")
        .unwrap()
        .option(OptionNumber::UriPath, b"v1")
        .unwrap()
        .option(OptionNumber::UriPath, b"resource")
        .unwrap()
        .no_payload()
        .build();

    let message = Message::parse(&packet).unwrap();

    let mut paths = Vec::new();
    let mut it = message.options.iter();
    while let Some(opt) = it.next() {
        if opt.number == OptionNumber::UriPath {
            paths.push(opt.value);
        }
    }
    assert_eq!(paths.len(), 3);
    assert_eq!(paths[0].as_slice(), b"api");
    assert_eq!(paths[1].as_slice(), b"v1");
    assert_eq!(paths[2].as_slice(), b"resource");
}

#[test]
fn parse_option_as_uint() {
    let packet = MessageBuilder::new(vec![0u8; 128])
        .unwrap()
        .request(MessageType::Confirmable, RequestCode::Get)
        .message_id(0x0001)
        .no_token()
        .unwrap()
        .option(OptionNumber::MaxAge, &60u32.to_be_bytes())
        .unwrap()
        .option(OptionNumber::Accept, &[0])
        .unwrap()
        .no_payload()
        .build();

    let message = Message::parse(&packet).unwrap();

    let mut max_age_opt = None;
    let mut it = message.options.iter();
    while let Some(opt) = it.next() {
        if opt.number == OptionNumber::MaxAge && max_age_opt.is_none() {
            max_age_opt = Some(opt);
        }
    }
    assert_eq!(max_age_opt.unwrap().as_uint(), Some(60));

    let mut accept_opt = None;
    let mut it = message.options.iter();
    while let Some(opt) = it.next() {
        if opt.number == OptionNumber::Accept && accept_opt.is_none() {
            accept_opt = Some(opt);
        }
    }
    assert_eq!(accept_opt.unwrap().as_uint(), Some(0));
}

#[test]
fn parse_option_as_str() {
    let packet = MessageBuilder::new(vec![0u8; 128])
        .unwrap()
        .request(MessageType::Confirmable, RequestCode::Get)
        .message_id(0x0001)
        .no_token()
        .unwrap()
        .option(OptionNumber::UriPath, b"hello")
        .unwrap()
        .no_payload()
        .build();

    let message = Message::parse(&packet).unwrap();

    let mut uri_path_opt = None;
    let mut it = message.options.iter();
    while let Some(opt) = it.next() {
        if opt.number == OptionNumber::UriPath && uri_path_opt.is_none() {
            uri_path_opt = Some(opt);
        }
    }
    assert_eq!(uri_path_opt.unwrap().as_str(), Ok("hello"));
}

#[test]
fn parse_option_as_str_invalid_utf8() {
    let packet = MessageBuilder::new(vec![0u8; 128])
        .unwrap()
        .request(MessageType::Confirmable, RequestCode::Get)
        .message_id(0x0001)
        .no_token()
        .unwrap()
        .option(OptionNumber::UriPath, &[0xC0, 0x20])
        .unwrap()
        .no_payload()
        .build();

    let message = Message::parse(&packet).unwrap();
    let opt = message.options.iter().next().unwrap();
    assert!(opt.as_str().is_err());
}

#[test]
fn parse_empty_message() {
    let packet = MessageBuilder::new(vec![0u8; 128])
        .unwrap()
        .empty(MessageType::Acknowledgement)
        .message_id(0xFFFF)
        .no_token()
        .unwrap()
        .no_payload()
        .build();

    let message = Message::parse(&packet).unwrap();

    assert_eq!(message.code, 0);
    assert!(message.is_empty());
    assert!(!message.is_request());
    assert!(!message.is_response());
}

#[test]
fn parse_message_too_short() {
    let buffer = [0x40, 0x01, 0x00];
    let result = Message::parse(&buffer);
    assert!(matches!(result, Err(CoapParseError::MessageTooShort)));
}

#[test]
fn parse_invalid_token_length() {
    let buffer = [0x4F, 0x01, 0x00, 0x00];
    let result = Message::parse(&buffer);
    assert!(matches!(result, Err(CoapParseError::InvalidTokenLength(15))));
}

#[test]
fn parse_unknown_version() {
    let buffer = [0x00, 0x01, 0x00, 0x00];
    let result = Message::parse(&buffer);
    assert!(matches!(result, Err(CoapParseError::UnknownVersion(0))));
}

#[test]
fn parse_unknown_version_two_and_three() {
    let buffer = [0x80, 0x01, 0x00, 0x00];
    let result = Message::parse(&buffer);
    assert!(matches!(result, Err(CoapParseError::UnknownVersion(2))));

    let buffer = [0xC0, 0x01, 0x00, 0x00];
    let result = Message::parse(&buffer);
    assert!(matches!(result, Err(CoapParseError::UnknownVersion(3))));
}

#[test]
fn parse_four_zero_filled_bytes_with_version_one() {
    let buffer = [0x40, 0x00, 0x00, 0x00];
    let message = Message::parse(&buffer).unwrap();
    assert_eq!(message.version, Version::V1);
    assert_eq!(message.code, 0);
    assert_eq!(message.token.as_slice(), &[] as &[u8]);
    assert!(message.payload.is_none());
    assert!(message.options.iter().next().is_none());
}

#[test]
fn parse_empty_message_with_data() {
    let buffer = [0x40, 0x00, 0x00, 0x00, 0x01];
    let result = Message::parse(&buffer);
    assert!(matches!(result, Err(CoapParseError::EmptyMessageWithData)));
}

#[test]
fn parse_invalid_option_nibbles() {
    // delta nibble 15 in the first option header
    let buffer = [0x40, 0x01, 0x00, 0x00, 0xF1];
    let result = Message::parse(&buffer);
    assert!(matches!(result, Err(CoapParseError::InvalidOptionDelta)));

    // length nibble 15 in the first option header
    let buffer = [0x40, 0x01, 0x00, 0x00, 0x1F];
    let result = Message::parse(&buffer);
    assert!(matches!(result, Err(CoapParseError::InvalidOptionLength)));
}

#[test]
fn parse_payload_marker_without_payload() {
    let buffer = [0x40, 0x01, 0x00, 0x00, 0xFF];
    let result = Message::parse(&buffer);
    assert!(matches!(
        result,
        Err(CoapParseError::PayloadMarkerWithoutPayload)
    ));
}

#[test]
fn parse_truncated_option_value() {
    // length nibble says 2 value bytes, only 1 remains
    let buffer = [0x40, 0x01, 0x00, 0x00, 0x12, 0xAA];
    let result = Message::parse(&buffer);
    assert!(matches!(result, Err(CoapParseError::MessageTooShort)));
}

#[test]
fn parse_max_age_scenario() {
    // Confirmable GET, message id 0x1234, no token, one Max-Age option with
    // the 4-byte big-endian encoding of 86400, no payload.
    let packet = MessageBuilder::new(vec![0u8; 128])
        .unwrap()
        .request(MessageType::Confirmable, RequestCode::Get)
        .message_id(0x1234)
        .no_token()
        .unwrap()
        .option(OptionNumber::MaxAge, &86400u32.to_be_bytes())
        .unwrap()
        .no_payload()
        .build();

    let message = Message::parse(&packet).unwrap();
    assert_eq!(message.message_id, 0x1234);
    let opt = message.options.iter().next().unwrap();
    assert_eq!(opt.number, OptionNumber::MaxAge);
    assert_eq!(opt.as_uint(), Some(86400));
}

#[test]
fn parse_full_round_trip() {
    let token = [0xDE, 0xAD];
    let payload = b"payload!";
    let packet = MessageBuilder::new(vec![0u8; 700])
        .unwrap()
        .request(MessageType::NonConfirmable, RequestCode::Put)
        .message_id(0xBEEF)
        .token(&token)
        .unwrap()
        .option(OptionNumber::UriHost, b"example.org")
        .unwrap()
        .option(OptionNumber::UriPath, b"a")
        .unwrap()
        .option(OptionNumber::UnknownOption(300), &[9u8; 300])
        .unwrap()
        .payload(payload)
        .unwrap()
        .build();

    let message = Message::parse(&packet).unwrap();
    assert_eq!(message.version, Version::V1);
    assert_eq!(message.message_type, MessageType::NonConfirmable);
    assert_eq!(message.code, 0x03);
    assert_eq!(message.message_id, 0xBEEF);
    assert_eq!(message.token.as_slice(), &token);
    assert_eq!(message.payload.as_ref().unwrap().as_slice(), payload);

    let mut it = message.options.iter();
    let o1 = it.next().unwrap();
    assert_eq!(o1.number, OptionNumber::UriHost);
    assert_eq!(o1.value.as_slice(), b"example.org");
    let o2 = it.next().unwrap();
    assert_eq!(o2.number, OptionNumber::UriPath);
    assert_eq!(o2.value.as_slice(), b"a");
    let o3 = it.next().unwrap();
    assert_eq!(o3.number, OptionNumber::UnknownOption(300));
    assert_eq!(o3.value.as_slice(), &[9u8; 300]);
    assert!(it.next().is_none());
}

#[test]
fn parse_content_format() {
    // with text/plain (0)
    let packet = MessageBuilder::new(vec![0u8; 128])
        .unwrap()
        .request(MessageType::Confirmable, RequestCode::Post)
        .message_id(0x0001)
        .no_token()
        .unwrap()
        .option(OptionNumber::ContentFormat, &[0])
        .unwrap()
        .no_payload()
        .build();

    let message = Message::parse(&packet).unwrap();
    let mut content_format_opt = None;
    let mut it = message.options.iter();
    while let Some(opt) = it.next() {
        if opt.number == OptionNumber::ContentFormat && content_format_opt.is_none() {
            content_format_opt = Some(opt);
        }
    }
    let content_format_opt = content_format_opt.unwrap();

    assert_eq!(content_format_opt.as_uint(), Some(0));
    let cf = ContentFormat::from_raw(content_format_opt.as_uint().unwrap() as u16);
    assert_eq!(cf, ContentFormat::TextPlain);

    // with application/json (50)
    let packet = MessageBuilder::new(vec![0u8; 128])
        .unwrap()
        .request(MessageType::Confirmable, RequestCode::Post)
        .message_id(0x0001)
        .no_token()
        .unwrap()
        .option(OptionNumber::ContentFormat, &[50])
        .unwrap()
        .no_payload()
        .build();

    let message = Message::parse(&packet).unwrap();
    let mut content_format_opt = None;
    let mut it = message.options.iter();
    while let Some(opt) = it.next() {
        if opt.number == OptionNumber::ContentFormat && content_format_opt.is_none() {
            content_format_opt = Some(opt);
        }
    }
    let content_format_opt = content_format_opt.unwrap();

    assert_eq!(content_format_opt.as_uint(), Some(50));
    let cf = ContentFormat::from_raw(content_format_opt.as_uint().unwrap() as u16);
    assert_eq!(cf, ContentFormat::ApplicationJson);

    // with an unrecognized content format
    let packet = MessageBuilder::new(vec![0u8; 128])
        .unwrap()
        .request(MessageType::Confirmable, RequestCode::Post)
        .message_id(0x0001)
        .no_token()
        .unwrap()
        .option(OptionNumber::ContentFormat, &[99])
        .unwrap()
        .no_payload()
        .build();

    let message = Message::parse(&packet).unwrap();
    let mut content_format_opt = None;
    let mut it = message.options.iter();
    while let Some(opt) = it.next() {
        if opt.number == OptionNumber::ContentFormat && content_format_opt.is_none() {
            content_format_opt = Some(opt);
        }
    }
    let content_format_opt = content_format_opt.unwrap();

    assert_eq!(content_format_opt.as_uint(), Some(99));
    let cf = ContentFormat::from_raw(content_format_opt.as_uint().unwrap() as u16);
    assert_eq!(cf, ContentFormat::Unknown(99));
}

#[test]
fn option_classification_predicates() {
    // Uri-Host (3, 0b00011) is critical and unsafe; ETag (4, 0b00100) is
    // elective and safe; Size1 (60, 0b111100) is elective and no-cache-key.
    let packet = MessageBuilder::new(vec![0u8; 128])
        .unwrap()
        .request(MessageType::Confirmable, RequestCode::Get)
        .message_id(1)
        .no_token()
        .unwrap()
        .option(OptionNumber::UriHost, b"h")
        .unwrap()
        .option(OptionNumber::Etag, b"e")
        .unwrap()
        .option(OptionNumber::Size1, &[1])
        .unwrap()
        .no_payload()
        .build();

    let message = Message::parse(&packet).unwrap();
    let mut it = message.options.iter();
    let host = it.next().unwrap();
    let etag = it.next().unwrap();
    let size = it.next().unwrap();

    assert!(host.is_critical());
    assert!(host.is_unsafe());
    assert!(!host.is_no_cache_key());
    assert!(OptionNumber::UriHost.is_critical());
    assert!(OptionNumber::UriHost.is_unsafe());

    assert!(!etag.is_critical());
    assert!(!etag.is_unsafe());
    assert!(!etag.is_no_cache_key());

    assert!(!size.is_critical());
    assert!(!size.is_unsafe());
    assert!(size.is_no_cache_key());
    assert!(OptionNumber::Size1.is_no_cache_key());
    assert!(!OptionNumber::MaxAge.is_no_cache_key());
}

#[test]
fn response_and_ping_builders() {
    let packet = MessageBuilder::new(vec![0u8; 16])
        .unwrap()
        .response(MessageType::Acknowledgement, minicoap::ResponseCode::Content)
        .message_id(7)
        .no_token()
        .unwrap()
        .no_payload()
        .build();
    let message = Message::parse(&packet).unwrap();
    assert_eq!(message.code, 69); // 2.05
    assert_eq!(message.code_class(), 2);
    assert_eq!(message.code_detail(), 5);
    assert!(message.is_response());

    let packet = MessageBuilder::new(vec![0u8; 16])
        .unwrap()
        .ping()
        .message_id(8)
        .no_token()
        .unwrap()
        .no_payload()
        .build();
    assert_eq!(packet.as_slice(), &[0x40, 0x00, 0x00, 0x08]);
}
