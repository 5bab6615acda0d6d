use inkprint_core::ipp::parser::{parse_ipp_request, IppParser};
use inkprint_core::ipp::types::{DelimiterTag, IppError, IppOperationId, IppValue, IppVersion, ValueTag};

fn push_attr(buf: &mut Vec<u8>, tag: u8, name: &[u8], value: &[u8]) {
    buf.push(tag);
    buf.extend_from_slice(&(name.len() as u16).to_be_bytes());
    buf.extend_from_slice(name);
    buf.extend_from_slice(&(value.len() as u16).to_be_bytes());
    buf.extend_from_slice(value);
}

fn build_get_printer_attributes_raw() -> Vec<u8> {
    let mut buf = vec![];
    // version 1.1
    buf.push(1);
    buf.push(1);
    // operation-id: Get-Printer-Attributes
    buf.extend_from_slice(&0x000Bu16.to_be_bytes());
    // request-id
    buf.extend_from_slice(&42u32.to_be_bytes());
    // operation-attributes group
    buf.push(0x01);
    push_attr(&mut buf, 0x47, b"attributes-charset", b"utf-8");
    push_attr(&mut buf, 0x48, b"attributes-natural-language", b"en");
    push_attr(&mut buf, 0x45, b"printer-uri", b"ipp://192.168.1.100:631/ipp/print");
    // end-of-attributes
    buf.push(0x03);
    buf
}

#[test]
fn test_parse_get_printer_attributes() {
    let raw = build_get_printer_attributes_raw();
    let req = parse_ipp_request(&raw).expect("should parse successfully");

    assert_eq!(req.version, IppVersion { major: 1, minor: 1 });
    assert_eq!(req.operation_id, IppOperationId::GetPrinterAttributes);
    assert_eq!(req.request_id, 42);
    assert_eq!(req.attribute_groups.len(), 1);
    assert!(req.document_data.is_empty());

    let op_group = &req.attribute_groups[0];
    assert_eq!(op_group.delimiter, DelimiterTag::OperationAttributes);

    let charset = op_group.get("attributes-charset").unwrap();
    assert_eq!(*charset, IppValue::Charset("utf-8".to_string()));

    let lang = op_group.get("attributes-natural-language").unwrap();
    assert_eq!(*lang, IppValue::NaturalLanguage("en".to_string()));

    let uri = op_group.get("printer-uri").unwrap();
    assert_eq!(*uri, IppValue::Uri("ipp://192.168.1.100:631/ipp/print".to_string()));
}

#[test]
fn test_parse_with_document_data() {
    let mut raw = build_get_printer_attributes_raw();
    raw.extend_from_slice(b"%PDF-1.4 fake document");

    let req = parse_ipp_request(&raw).expect("should parse");
    assert_eq!(req.document_data, b"%PDF-1.4 fake document");
}

#[test]
fn test_parse_integer_and_boolean() {
    let mut buf = vec![];
    buf.push(1);
    buf.push(1);
    buf.extend_from_slice(&0x000Bu16.to_be_bytes());
    buf.extend_from_slice(&1u32.to_be_bytes());
    buf.push(0x01);
    push_attr(&mut buf, 0x21, b"test-int", &42i32.to_be_bytes());
    push_attr(&mut buf, 0x22, b"test-bool", &[1u8]);
    buf.push(0x03);

    let req = parse_ipp_request(&buf).unwrap();
    let g = &req.attribute_groups[0];
    assert_eq!(*g.get("test-int").unwrap(), IppValue::Integer(42));
    assert_eq!(*g.get("test-bool").unwrap(), IppValue::Boolean(true));
}

#[test]
fn parser_parse_matches_free_function() {
    let raw = build_get_printer_attributes_raw();
    let req = IppParser::new(&raw).parse().unwrap();
    assert_eq!(req.request_id, 42);
    assert_eq!(req.attribute_groups[0].attributes.len(), 3);
}

#[test]
fn short_header_is_unexpected_eof() {
    let raw = [1u8, 1, 0];
    match parse_ipp_request(&raw) {
        Err(IppError::UnexpectedEof { need, have }) => {
            assert_eq!(need, 2);
            assert_eq!(have, 1);
        }
        other => panic!("unexpected {:?}", other),
    }
}

#[test]
fn empty_input_is_unexpected_eof() {
    match parse_ipp_request(&[]) {
        Err(IppError::UnexpectedEof { need, have }) => {
            assert_eq!(need, 1);
            assert_eq!(have, 0);
        }
        other => panic!("unexpected {:?}", other),
    }
}

#[test]
fn unknown_operation_is_kept() {
    let mut buf = vec![1u8, 1];
    buf.extend_from_slice(&0x1234u16.to_be_bytes());
    buf.extend_from_slice(&7u32.to_be_bytes());
    buf.push(0x03);
    let req = parse_ipp_request(&buf).unwrap();
    assert_eq!(req.operation_id, IppOperationId::Unknown(0x1234));
    assert!(req.attribute_groups.is_empty());
}

#[test]
fn unexpected_byte_ends_attribute_section() {
    let mut buf = vec![1u8, 1];
    buf.extend_from_slice(&0x000Bu16.to_be_bytes());
    buf.extend_from_slice(&7u32.to_be_bytes());
    buf.push(0x06);
    buf.extend_from_slice(b"rest");
    let req = parse_ipp_request(&buf).unwrap();
    assert!(req.attribute_groups.is_empty());
    assert_eq!(req.document_data, b"\x06rest");
}

#[test]
fn unknown_delimiter_byte_is_refused() {
    match DelimiterTag::try_from(0x06u8) {
        Err(IppError::UnknownDelimiter(b)) => assert_eq!(b, 0x06),
        other => panic!("unexpected {:?}", other),
    }
    assert_eq!(DelimiterTag::try_from(0x04u8).unwrap(), DelimiterTag::PrinterAttributes);
}

#[test]
fn unknown_value_tag_byte_is_refused() {
    match ValueTag::try_from(0x7Fu8) {
        Err(IppError::UnknownValueTag(b)) => assert_eq!(b, 0x7F),
        other => panic!("unexpected {:?}", other),
    }
    assert_eq!(ValueTag::try_from(0x45u8).unwrap(), ValueTag::Uri);
}

#[test]
fn unknown_value_tag_is_kept_as_bytes() {
    let mut buf = vec![1u8, 1];
    buf.extend_from_slice(&0x000Bu16.to_be_bytes());
    buf.extend_from_slice(&7u32.to_be_bytes());
    buf.push(0x01);
    push_attr(&mut buf, 0x7F, b"odd", b"xy");
    buf.push(0x03);
    let req = parse_ipp_request(&buf).unwrap();
    assert_eq!(*req.attribute_groups[0].get("odd").unwrap(), IppValue::Unknown(b"xy".to_vec()));
}

#[test]
fn short_integer_value_is_unexpected_eof() {
    let mut buf = vec![1u8, 1];
    buf.extend_from_slice(&0x000Bu16.to_be_bytes());
    buf.extend_from_slice(&7u32.to_be_bytes());
    buf.push(0x01);
    push_attr(&mut buf, 0x21, b"n", &[0, 1]);
    buf.push(0x03);
    match parse_ipp_request(&buf) {
        Err(IppError::UnexpectedEof { need, have }) => {
            assert_eq!(need, 4);
            assert_eq!(have, 2);
        }
        other => panic!("unexpected {:?}", other),
    }
}

#[test]
fn invalid_utf8_name_is_refused() {
    let mut buf = vec![1u8, 1];
    buf.extend_from_slice(&0x000Bu16.to_be_bytes());
    buf.extend_from_slice(&7u32.to_be_bytes());
    buf.push(0x01);
    push_attr(&mut buf, 0x44, &[0xFF, 0xFE], b"x");
    buf.push(0x03);
    assert!(matches!(parse_ipp_request(&buf), Err(IppError::InvalidUtf8(_))));
}

#[test]
fn truncated_value_is_unexpected_eof() {
    let mut buf = vec![1u8, 1];
    buf.extend_from_slice(&0x000Bu16.to_be_bytes());
    buf.extend_from_slice(&7u32.to_be_bytes());
    buf.push(0x01);
    buf.push(0x44);
    buf.extend_from_slice(&3u16.to_be_bytes());
    buf.extend_from_slice(b"abc");
    buf.extend_from_slice(&10u16.to_be_bytes());
    buf.extend_from_slice(b"xyz");
    match parse_ipp_request(&buf) {
        Err(IppError::UnexpectedEof { need, have }) => {
            assert_eq!(need, 10);
            assert_eq!(have, 3);
        }
        other => panic!("unexpected {:?}", other),
    }
}

#[test]
fn additional_value_joins_previous_attribute() {
    let mut buf = vec![1u8, 1];
    buf.extend_from_slice(&0x000Bu16.to_be_bytes());
    buf.extend_from_slice(&9u32.to_be_bytes());
    buf.push(0x01);
    push_attr(&mut buf, 0x44, b"requested-attributes", b"printer-name");
    push_attr(&mut buf, 0x44, b"", b"printer-state");
    buf.push(0x03);
    let req = parse_ipp_request(&buf).unwrap();
    let g = &req.attribute_groups[0];
    assert_eq!(g.attributes.len(), 1);
    assert_eq!(
        g.attributes[0].values,
        vec![
            IppValue::Keyword("printer-name".to_string()),
            IppValue::Keyword("printer-state".to_string()),
        ]
    );
}

#[test]
fn missing_end_tag_is_unexpected_eof() {
    let mut buf = vec![2u8, 0];
    buf.extend_from_slice(&0x0002u16.to_be_bytes());
    buf.extend_from_slice(&3u32.to_be_bytes());
    buf.push(0x01);
    push_attr(&mut buf, 0x42, b"job-name", b"J");
    match parse_ipp_request(&buf) {
        Err(IppError::UnexpectedEof { need, have }) => {
            assert_eq!(need, 1);
            assert_eq!(have, 0);
        }
        other => panic!("unexpected {:?}", other),
    }
}

#[test]
fn values_of_every_fixed_width_tag_parse() {
    let mut buf = vec![1u8, 1];
    buf.extend_from_slice(&0x000Bu16.to_be_bytes());
    buf.extend_from_slice(&8u32.to_be_bytes());
    buf.push(0x04);
    push_attr(&mut buf, 0x23, b"e", &3i32.to_be_bytes());
    push_attr(&mut buf, 0x33, b"r", &[0, 0, 0, 1, 0, 0, 0, 99]);
    push_attr(&mut buf, 0x32, b"res", &[0, 0, 1, 44, 0, 0, 1, 44, 3]);
    push_attr(&mut buf, 0x31, b"d", &[7, 233, 1, 2, 3, 4, 5, 6, b'+', 0, 0]);
    push_attr(&mut buf, 0x13, b"nv", b"");
    push_attr(&mut buf, 0x10, b"un", b"");
    push_attr(&mut buf, 0x30, b"o", &[9, 8]);
    push_attr(&mut buf, 0x22, b"b", b"");
    buf.push(0x03);
    let req = parse_ipp_request(&buf).unwrap();
    let g = &req.attribute_groups[0];
    assert_eq!(g.delimiter, DelimiterTag::PrinterAttributes);
    assert_eq!(*g.get("e").unwrap(), IppValue::Enum(3));
    assert_eq!(*g.get("r").unwrap(), IppValue::RangeOfInteger { lower: 1, upper: 99 });
    assert_eq!(*g.get("res").unwrap(), IppValue::Resolution { cross_feed: 300, feed: 300, units: 3 });
    assert_eq!(
        *g.get("d").unwrap(),
        IppValue::DateTime {
            year: 2025,
            month: 1,
            day: 2,
            hour: 3,
            minutes: 4,
            seconds: 5,
            deci_seconds: 6,
            direction_from_utc: b'+',
            hours_from_utc: 0,
            minutes_from_utc: 0,
        }
    );
    assert_eq!(*g.get("nv").unwrap(), IppValue::NoValue);
    assert_eq!(*g.get("un").unwrap(), IppValue::Unsupported);
    assert_eq!(*g.get("o").unwrap(), IppValue::OctetString(vec![9, 8]));
    assert_eq!(*g.get("b").unwrap(), IppValue::Boolean(false));
}

#[test]
fn operation_codes_round_trip() {
    for code in [0x0002u16, 0x0004, 0x0009, 0x000B, 0x0010, 0x0011, 0x7777] {
        assert_eq!(u16::from(IppOperationId::from(code)), code);
    }
    assert_eq!(IppOperationId::from(0x0009u16), IppOperationId::GetJobAttributes);
    assert_eq!(u16::from(IppOperationId::PurgeJobs), 0x0012);
}

#[test]
fn request_attribute_lookups() {
    let mut raw = build_get_printer_attributes_raw();
    raw.pop();
    raw.push(0x02);
    push_attr(&mut raw, 0x21, b"copies", &2i32.to_be_bytes());
    raw.push(0x03);
    let req = parse_ipp_request(&raw).unwrap();
    assert_eq!(
        req.get_attr_str(DelimiterTag::OperationAttributes, "printer-uri"),
        Some("ipp://192.168.1.100:631/ipp/print")
    );
    assert_eq!(req.get_attr_str(DelimiterTag::OperationAttributes, "attributes-charset"), Some("utf-8"));
    assert_eq!(req.get_attr_str(DelimiterTag::JobAttributes, "copies"), None);
    assert_eq!(req.get_attr_str(DelimiterTag::PrinterAttributes, "printer-uri"), None);
    assert_eq!(req.get_operation_attributes().unwrap().attributes.len(), 3);
    assert_eq!(
        req.get_job_attributes().unwrap().get("copies"),
        Some(&IppValue::Integer(2))
    );
}

#[test]
fn parsed_request_is_well_formed() {
    let mut raw = build_get_printer_attributes_raw();
    raw.extend_from_slice(b"tail");
    let req = parse_ipp_request(&raw).unwrap();
    for g in &req.attribute_groups {
        assert_ne!(g.delimiter, DelimiterTag::EndOfAttributes);
        for a in &g.attributes {
            assert!(!a.name.is_empty());
            assert!(!a.values.is_empty());
        }
    }
    assert!(raw.ends_with(&req.document_data));
    assert_eq!(req.document_data, b"tail");
}
