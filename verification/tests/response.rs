use inkprint_core::ipp::parser::parse_ipp_request;
use inkprint_core::ipp::response::{serialize_response, standard_operation_attrs, IppResponseBuilder};
use inkprint_core::ipp::types::{
    DelimiterTag, IppAttribute, IppAttributeGroup, IppStatusCode, IppValue, IppVersion,
};

#[test]
fn test_serialize_deserialize_round_trip() {
    let mut op_group = IppAttributeGroup::new(DelimiterTag::OperationAttributes);
    op_group.add(IppAttribute::new("attributes-charset", IppValue::Charset("utf-8".to_string())));
    op_group.add(IppAttribute::new(
        "attributes-natural-language",
        IppValue::NaturalLanguage("en".to_string()),
    ));

    let mut printer_group = IppAttributeGroup::new(DelimiterTag::PrinterAttributes);
    printer_group.add(IppAttribute::new(
        "printer-name",
        IppValue::NameWithoutLanguage("InkPrint".to_string()),
    ));
    printer_group.add(IppAttribute::new("printer-state", IppValue::Enum(3)));

    let resp = IppResponseBuilder::new(IppStatusCode::SuccessfulOk, 42)
        .add_group(op_group)
        .add_group(printer_group)
        .build();

    let serialized = serialize_response(&resp);
    let parsed = parse_ipp_request(&serialized).expect("should parse");

    assert_eq!(parsed.version, IppVersion { major: 2, minor: 0 });
    assert_eq!(u16::from(parsed.operation_id), 0x0000u16);
    assert_eq!(parsed.request_id, 42);

    let op = &parsed.attribute_groups[0];
    assert_eq!(*op.get("attributes-charset").unwrap(), IppValue::Charset("utf-8".to_string()));

    let printer = &parsed.attribute_groups[1];
    assert_eq!(
        *printer.get("printer-name").unwrap(),
        IppValue::NameWithoutLanguage("InkPrint".to_string())
    );
    assert_eq!(*printer.get("printer-state").unwrap(), IppValue::Enum(3));
}

#[test]
fn test_multi_value_attribute() {
    let mut group = IppAttributeGroup::new(DelimiterTag::PrinterAttributes);
    group.add(IppAttribute::new_multi(
        "document-format-supported",
        vec![
            IppValue::MimeMediaType("application/pdf".to_string()),
            IppValue::MimeMediaType("application/octet-stream".to_string()),
        ],
    ));

    let resp = IppResponseBuilder::new(IppStatusCode::SuccessfulOk, 1).add_group(group).build();

    let serialized = serialize_response(&resp);
    let parsed = parse_ipp_request(&serialized).unwrap();

    let attr = parsed.attribute_groups[0]
        .attributes
        .iter()
        .find(|a| a.name == "document-format-supported")
        .unwrap();
    assert_eq!(attr.values.len(), 2);
    assert_eq!(attr.values[0], IppValue::MimeMediaType("application/pdf".to_string()));
    assert_eq!(attr.values[1], IppValue::MimeMediaType("application/octet-stream".to_string()));
}

#[test]
fn empty_response_bytes() {
    let resp = IppResponseBuilder::new(IppStatusCode::ClientErrorNotFound, 0x01020304).build();
    let bytes = serialize_response(&resp);
    assert_eq!(bytes, vec![2, 0, 0x04, 0x06, 1, 2, 3, 4, 0x03]);
}

#[test]
fn builder_version_is_used() {
    let resp = IppResponseBuilder::new(IppStatusCode::SuccessfulOk, 5)
        .version(IppVersion { major: 1, minor: 1 })
        .build();
    assert_eq!(resp.version, IppVersion { major: 1, minor: 1 });
    assert_eq!(resp.request_id, 5);
    assert_eq!(serialize_response(&resp)[..2], [1, 1]);
}

#[test]
fn integer_attribute_bytes() {
    let mut g = IppAttributeGroup::new(DelimiterTag::JobAttributes);
    g.add(IppAttribute::new("job-id", IppValue::Integer(-2)));
    let resp = IppResponseBuilder::new(IppStatusCode::SuccessfulOk, 1).add_group(g).build();
    let bytes = serialize_response(&resp);
    let mut expected = vec![2u8, 0, 0, 0, 0, 0, 0, 1, 0x02, 0x21, 0, 6];
    expected.extend_from_slice(b"job-id");
    expected.extend_from_slice(&[0, 4, 0xFF, 0xFF, 0xFF, 0xFE, 0x03]);
    assert_eq!(bytes, expected);
}

#[test]
fn additional_values_have_empty_names() {
    let mut g = IppAttributeGroup::new(DelimiterTag::PrinterAttributes);
    g.add(IppAttribute::new_multi("k", vec![IppValue::Boolean(true), IppValue::Boolean(false)]));
    let resp = IppResponseBuilder::new(IppStatusCode::SuccessfulOk, 0).add_group(g).build();
    let bytes = serialize_response(&resp);
    let expected: Vec<u8> = vec![
        2, 0, 0, 0, 0, 0, 0, 0, 0x04, 0x22, 0, 1, b'k', 0, 1, 1, 0x22, 0, 0, 0, 1, 0, 0x03,
    ];
    assert_eq!(bytes, expected);
}

#[test]
fn standard_operation_attrs_contents() {
    let g = standard_operation_attrs(9);
    assert_eq!(g.delimiter, DelimiterTag::OperationAttributes);
    assert_eq!(g.attributes.len(), 2);
    assert_eq!(*g.get("attributes-charset").unwrap(), IppValue::Charset("utf-8".to_string()));
    assert_eq!(
        *g.get("attributes-natural-language").unwrap(),
        IppValue::NaturalLanguage("en".to_string())
    );
}

#[test]
fn serialized_value_and_tag() {
    let v = IppValue::RangeOfInteger { lower: 1, upper: 256 };
    assert_eq!(v.value_tag(), 0x33);
    assert_eq!(v.serialized_value(), vec![0, 0, 0, 1, 0, 0, 1, 0]);
    let t = IppValue::Keyword("abc".to_string());
    assert_eq!(t.value_tag(), 0x44);
    assert_eq!(t.serialized_value(), b"abc".to_vec());
    assert_eq!(IppValue::Boolean(true).serialized_value(), vec![1]);
    assert_eq!(IppValue::NoValue.serialized_value(), Vec::<u8>::new());
}

#[test]
fn group_get_returns_first_value_of_first_match() {
    let mut g = IppAttributeGroup::new(DelimiterTag::JobAttributes);
    g.add(IppAttribute::new_multi("a", vec![IppValue::Integer(1), IppValue::Integer(2)]));
    g.add(IppAttribute::new("a", IppValue::Integer(3)));
    g.add(IppAttribute::new_multi("empty", vec![]));
    assert_eq!(g.get("a"), Some(&IppValue::Integer(1)));
    assert_eq!(g.get("empty"), None);
    assert_eq!(g.get("missing"), None);
}

#[test]
fn builder_keeps_last_version_and_group_order() {
    let g1 = IppAttributeGroup::new(DelimiterTag::OperationAttributes);
    let g2 = IppAttributeGroup::new(DelimiterTag::JobAttributes);
    let resp = IppResponseBuilder::new(IppStatusCode::ClientErrorBadRequest, 77)
        .version(IppVersion { major: 1, minor: 0 })
        .add_group(g1)
        .version(IppVersion { major: 1, minor: 1 })
        .add_group(g2)
        .build();
    assert_eq!(resp.version, IppVersion { major: 1, minor: 1 });
    assert_eq!(resp.status_code, IppStatusCode::ClientErrorBadRequest);
    assert_eq!(resp.request_id, 77);
    let ds: Vec<DelimiterTag> = resp.attribute_groups.iter().map(|g| g.delimiter).collect();
    assert_eq!(ds, vec![DelimiterTag::OperationAttributes, DelimiterTag::JobAttributes]);
}
