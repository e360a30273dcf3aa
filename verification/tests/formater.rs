use skit::formater::format_json;
use skit::formater::format_xml;
use skit::formater::format_yaml;
use skit::FormatError;
use skit::FormatType;

#[test]
fn json_pretty_prints_object() {
    let out = format_json("{\"b\":2,\"a\":1}").unwrap();
    assert_eq!(out, "{\n  \"a\": 1,\n  \"b\": 2\n}");
}

#[test]
fn json_round_trip_preserves_value() {
    let input = "{\"b\":2,\"a\":[1,null,true,\"x\"]}";
    let out = format_json(input).unwrap();
    let before: serde_json::Value = serde_json::from_str(input).unwrap();
    let after: serde_json::Value = serde_json::from_str(&out).unwrap();
    assert_eq!(before, after);
    assert_ne!(out, input);
}

#[test]
fn json_scalar_document() {
    let out = format_json("5").unwrap();
    assert_eq!(out, "5");
}

#[test]
fn json_malformed_fails_as_json_parse_error() {
    let r = format_json("{\"a\":}");
    assert_eq!(r, Err(FormatError::ParseFailed(FormatType::Json)));
}

#[test]
fn yaml_round_trip_preserves_value() {
    let input = "b: 2\na:\n- 1\n- x\n";
    let out = format_yaml(input).unwrap();
    let before: serde_yaml::Value = serde_yaml::from_str(input).unwrap();
    let after: serde_yaml::Value = serde_yaml::from_str(&out).unwrap();
    assert_eq!(before, after);
}

#[test]
fn yaml_round_trip_keeps_ambiguous_scalars_apart() {
    let input = "s: '123'\nn: 123\nb: 'true'\nt: true\n";
    let out = format_yaml(input).unwrap();
    let before: serde_yaml::Value = serde_yaml::from_str(input).unwrap();
    let after: serde_yaml::Value = serde_yaml::from_str(&out).unwrap();
    assert_eq!(before, after);
}

#[test]
fn json_empty_input_fails_as_json_parse_error() {
    let r = format_json("");
    assert_eq!(r, Err(FormatError::ParseFailed(FormatType::Json)));
}

#[test]
fn yaml_canonical_form() {
    let out = format_yaml("b: 2\na: 1").unwrap();
    assert_eq!(out, "b: 2\na: 1\n");
}

#[test]
fn yaml_malformed_fails_as_yaml_parse_error() {
    let r = format_yaml("a: [1,");
    assert_eq!(r, Err(FormatError::ParseFailed(FormatType::Yaml)));
}

#[test]
fn xml_round_trip_preserves_tree() {
    let input = "<root attr=\"v\"><x>1</x><y/></root>";
    let out = format_xml(input).unwrap();
    let before = xmltree::Element::parse(input.as_bytes()).unwrap();
    let after = xmltree::Element::parse(out.as_bytes()).unwrap();
    assert_eq!(before, after);
    assert_ne!(out, input);
}

#[test]
fn xml_writes_document_declaration() {
    let out = format_xml("<root><x>1</x></root>").unwrap();
    assert_eq!(out, "<?xml version=\"1.0\" encoding=\"UTF-8\"?><root><x>1</x></root>");
}

#[test]
fn xml_without_root_fails_as_xml_parse_error() {
    let r = format_xml("no markup at all");
    assert_eq!(r, Err(FormatError::ParseFailed(FormatType::Xml)));
}

#[test]
fn xml_unclosed_tag_fails_as_xml_parse_error() {
    let r = format_xml("<root><x>1</root>");
    assert_eq!(r, Err(FormatError::ParseFailed(FormatType::Xml)));
}

#[test]
fn yaml_tagged_mapping_key_fails_without_panic() {
    let r = format_yaml("!foo a: 1");
    assert_eq!(r, Err(FormatError::ParseFailed(FormatType::Yaml)));
}

#[test]
fn xml_character_reference_output_still_parses() {
    let out = format_xml("<root>a&#xD;b</root>").unwrap();
    assert!(xmltree::Element::parse(out.as_bytes()).is_ok());
}

#[test]
fn xml_comment_round_trip_keeps_content() {
    let input = "<r><!--x--></r>";
    let out = format_xml(input).unwrap();
    let before = xmltree::Element::parse(input.as_bytes()).unwrap();
    let after = xmltree::Element::parse(out.as_bytes()).unwrap();
    assert_eq!(before, after);
    assert!(out.contains("<!--x-->"), "comment altered in {}", out);
}

#[test]
fn xml_attributes_are_emitted_sorted() {
    let out = format_xml("<r b=\"2\" a=\"1\"></r>").unwrap();
    assert!(out.contains("a=\"1\" b=\"2\""), "unsorted attributes in {}", out);
}

#[test]
fn formatting_is_deterministic() {
    let json = "{\"b\":2,\"a\":[1,2]}";
    assert_eq!(format_json(json).unwrap(), format_json(json).unwrap());
    let yaml = "b: 2\na: [1, 2]\n";
    assert_eq!(format_yaml(yaml).unwrap(), format_yaml(yaml).unwrap());
    let xml = "<r b=\"2\" a=\"1\"><x>1</x></r>";
    assert_eq!(format_xml(xml).unwrap(), format_xml(xml).unwrap());
}

#[test]
fn dispatch_selects_the_format() {
    assert_eq!(
        skit::formater::format("{\"a\":1}", FormatType::Json),
        format_json("{\"a\":1}")
    );
    assert_eq!(skit::formater::format("a: 1", FormatType::Yaml), format_yaml("a: 1"));
    assert_eq!(
        skit::formater::format("<a>1</a>", FormatType::Xml),
        format_xml("<a>1</a>")
    );
}

#[test]
fn dispatch_reports_the_selected_format() {
    let r = skit::formater::format("{\"a\":}", FormatType::Yaml);
    assert!(r.is_ok() || r == Err(FormatError::ParseFailed(FormatType::Yaml)));
    let r = skit::formater::format("][", FormatType::Json);
    assert_eq!(r, Err(FormatError::ParseFailed(FormatType::Json)));
}
