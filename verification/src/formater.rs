use vstd::prelude::*;

use crate::FormatError;
use crate::FormatType;

verus! {

/// What `serde_json::from_str` makes of a text: the abstract content of the
/// document, or nothing when the text is not valid JSON.
pub uninterp spec fn spec_json_parse(s: Seq<char>) -> Option<int>;

/// What parsing a text with `serde_json::from_str` and pretty-printing the
/// value with `serde_json::to_string_pretty` produces: the rendered text, or
/// nothing when the text does not parse. Both steps depend on the text alone,
/// so the rendering is one fixed text per input.
pub uninterp spec fn spec_json_pretty(s: Seq<char>) -> Option<Seq<char>>;

/// What `serde_yaml::from_str` makes of a text: the abstract content of the
/// document, or nothing when the text is not valid YAML.
pub uninterp spec fn spec_yaml_parse(s: Seq<char>) -> Option<int>;

/// What parsing a text with `serde_yaml::from_str` and re-emitting the value
/// with `serde_yaml::to_string` produces: the rendered text, or nothing when
/// the text does not parse or the parsed value does not serialize (the
/// serializer refuses a nested tag, which a tagged mapping key can produce).
/// Both steps depend on the text alone, so the rendering is one fixed text
/// per input.
pub uninterp spec fn spec_yaml_pretty(s: Seq<char>) -> Option<Seq<char>>;

/// What `xmltree::Element::parse` makes of a text: the abstract content of the
/// element tree, or nothing when the text is not a well-formed document with a
/// root element.
pub uninterp spec fn spec_xml_parse(s: Seq<char>) -> Option<int>;

/// What parsing a text with `xmltree::Element::parse` and writing the tree
/// back with `xmltree::Element::write_with_config` (comment padding off)
/// produces: the rendered document, or nothing when the text does not parse.
/// With attributes kept sorted and a fixed writer configuration, both steps
/// depend on the text alone, so the rendering is one fixed text per input.
pub uninterp spec fn spec_xml_pretty(s: Seq<char>) -> Option<Seq<char>>;

/// Whether `s` is free of XML character references (no `&#` anywhere). A
/// character reference can put a carriage return into parsed text content;
/// the writer emits it raw there, and re-parsing normalizes it to a line
/// feed, so only texts without character references are promised an equal
/// tree after a round trip. A reference is the only way a carriage return
/// reaches the tree: a raw one is normalized away before parsing, and in
/// attribute values the writer escapes control characters. Every other kind
/// of node is written back faithfully: comments are emitted verbatim (their
/// padding is off, and a parsed comment can neither contain `--` nor end in
/// `-`), CDATA and processing instructions cannot contain their own
/// terminators, and whitespace between elements is dropped on both sides.
pub open spec fn spec_no_char_refs(s: Seq<char>) -> bool {
    forall|i: int| 0 <= i && i + 1 < s.len() ==> !(#[trigger] s[i] == '&' && s[i + 1] == '#')
}

/// The three parsers behind one name: the abstract content of `s` read as
/// `fmt`, or nothing when `s` does not parse in that format.
pub open spec fn spec_doc(fmt: FormatType, s: Seq<char>) -> Option<int> {
    match fmt {
        FormatType::Json => spec_json_parse(s),
        FormatType::Yaml => spec_yaml_parse(s),
        FormatType::Xml => spec_xml_parse(s),
    }
}

/// The three renderings behind one name: the pretty form of `s` in `fmt`, or
/// nothing when the transcoding fails.
pub open spec fn spec_pretty(fmt: FormatType, s: Seq<char>) -> Option<Seq<char>> {
    match fmt {
        FormatType::Json => spec_json_pretty(s),
        FormatType::Yaml => spec_yaml_pretty(s),
        FormatType::Xml => spec_xml_pretty(s),
    }
}

/// Relies on `serde_json::from_str::<Value>` and `serde_json::to_string_pretty`:
/// both depend on their argument alone; pretty-printing a value that came from
/// the parser cannot fail (keys are strings, numbers are finite, the writer
/// targets memory); and the pretty text parses back to an equal value.
#[verifier::external_body]
fn json_reformat(s: &str) -> (r: Option<String>)
    ensures
        r is Some <==> spec_json_parse(s@) is Some,
        r is Some <==> spec_json_pretty(s@) is Some,
        (r matches Some(t) ==> spec_json_pretty(s@) == Some(t@)),
        (r matches Some(t) ==> spec_json_parse(t@) == spec_json_parse(s@)),
{
    match serde_json::from_str::<serde_json::Value>(s) {
        Ok(v) => Some(serde_json::to_string_pretty(&v).expect("printing a parsed value cannot fail")),
        Err(_) => None,
    }
}

/// Relies on `serde_yaml::from_str::<Value>` and `serde_yaml::to_string`: both
/// depend on their argument alone; a text that does not parse yields nothing;
/// a parsed value can still be refused by the serializer (a tagged mapping key
/// reaches its nested-tag error), which also yields nothing; and an emitted
/// text parses back to an equal value.
#[verifier::external_body]
fn yaml_reformat(s: &str) -> (r: Option<String>)
    ensures
        r is Some <==> spec_yaml_pretty(s@) is Some,
        (spec_yaml_parse(s@) is None ==> r is None),
        (r matches Some(t) ==> spec_yaml_pretty(s@) == Some(t@)),
        (r matches Some(t) ==> spec_yaml_parse(s@) is Some && spec_yaml_parse(t@) == spec_yaml_parse(
            s@,
        )),
{
    match serde_yaml::from_str::<serde_yaml::Value>(s) {
        Ok(v) => serde_yaml::to_string(&v).ok(),
        Err(_) => None,
    }
}

/// Relies on `xmltree::Element::parse` and `xmltree::Element::write_with_config`:
/// both depend on their argument alone (attributes are kept sorted, the
/// writer configuration is fixed, with comment padding off so comment content
/// is kept verbatim); writing a parsed tree to memory cannot fail (the
/// emitter only reports misnested or duplicate events, and the writer
/// targets memory) and emits UTF-8; the written document always parses; and
/// it parses back to an equal tree whenever the input holds no character
/// reference (a referenced carriage return in text content is written raw
/// and normalized to a line feed on re-parsing).
#[verifier::external_body]
fn xml_reformat(s: &str) -> (r: Option<String>)
    ensures
        r is Some <==> spec_xml_parse(s@) is Some,
        r is Some <==> spec_xml_pretty(s@) is Some,
        (r matches Some(t) ==> spec_xml_pretty(s@) == Some(t@)),
        (r matches Some(t) ==> spec_xml_parse(t@) is Some),
        (r matches Some(t) ==> spec_no_char_refs(s@) ==> spec_xml_parse(t@) == spec_xml_parse(
            s@,
        )),
{
    match xmltree::Element::parse(s.as_bytes()) {
        Ok(e) => {
            let mut buf: Vec<u8> = Vec::new();
            let config = xmltree::EmitterConfig::new().autopad_comments(false);
            e.write_with_config(&mut buf, config).expect("writing a parsed tree to memory cannot fail");
            Some(String::from_utf8(buf).expect("the emitter writes UTF-8"))
        }
        Err(_) => None,
    }
}

/// Parse `input` as JSON and pretty-print it. Succeeds exactly on valid JSON,
/// returns the one pretty rendering of the document, and the result still
/// parses to the same document.
pub fn format_json(input: &str) -> (r: Result<String, FormatError>)
    ensures
        r is Ok <==> spec_json_parse(input@) is Some,
        r is Ok <==> spec_json_pretty(input@) is Some,
        (r matches Ok(t) ==> spec_json_pretty(input@) == Some(t@)),
        (r matches Ok(t) ==> spec_json_parse(t@) == spec_json_parse(input@)),
        (r matches Err(e) ==> e == FormatError::ParseFailed(FormatType::Json)),
{
    match json_reformat(input) {
        Some(t) => Ok(t),
        None => Err(FormatError::ParseFailed(FormatType::Json)),
    }
}

/// Parse `input` as YAML and re-emit it in canonical form. Succeeds exactly
/// when the input parses and the parsed value serializes again (a tagged
/// mapping key is a parsed value the serializer refuses); returns the one
/// canonical rendering, which still parses to the same document.
pub fn format_yaml(input: &str) -> (r: Result<String, FormatError>)
    ensures
        r is Ok <==> spec_yaml_pretty(input@) is Some,
        (spec_yaml_parse(input@) is None ==> r is Err),
        (r matches Ok(t) ==> spec_yaml_pretty(input@) == Some(t@)),
        (r matches Ok(t) ==> spec_yaml_parse(input@) is Some && spec_yaml_parse(t@)
            == spec_yaml_parse(input@)),
        (r matches Err(e) ==> e == FormatError::ParseFailed(FormatType::Yaml)),
{
    match yaml_reformat(input) {
        Some(t) => Ok(t),
        None => Err(FormatError::ParseFailed(FormatType::Yaml)),
    }
}

/// Parse `input` as a single-root XML document and re-emit it. Succeeds
/// exactly on well-formed XML and returns the one rendering of the tree; the
/// result always parses, and parses to the same tree whenever the input holds
/// no character reference.
pub fn format_xml(input: &str) -> (r: Result<String, FormatError>)
    ensures
        r is Ok <==> spec_xml_parse(input@) is Some,
        r is Ok <==> spec_xml_pretty(input@) is Some,
        (r matches Ok(t) ==> spec_xml_pretty(input@) == Some(t@)),
        (r matches Ok(t) ==> spec_xml_parse(t@) is Some),
        (r matches Ok(t) ==> spec_no_char_refs(input@) ==> spec_xml_parse(t@) == spec_xml_parse(
            input@,
        )),
        (r matches Err(e) ==> e == FormatError::ParseFailed(FormatType::Xml)),
{
    match xml_reformat(input) {
        Some(t) => Ok(t),
        None => Err(FormatError::ParseFailed(FormatType::Xml)),
    }
}

/// Parse `input` in the selected format and re-emit it in that format's pretty
/// form. The result is the one rendering `spec_pretty` fixes for the input, so
/// two runs on the same input emit the same text; it still parses, and (for
/// JSON and YAML always, for XML on inputs without character references)
/// parses to the same document; and a failure names the format that refused
/// the input.
pub fn format(input: &str, format_type: FormatType) -> (r: Result<String, FormatError>)
    ensures
        r is Ok <==> spec_pretty(format_type, input@) is Some,
        (r matches Ok(t) ==> spec_pretty(format_type, input@) == Some(t@)),
        (r is Ok ==> spec_doc(format_type, input@) is Some),
        (!(format_type is Yaml) ==> (r is Ok <==> spec_doc(format_type, input@) is Some)),
        (spec_doc(format_type, input@) is None ==> r is Err),
        (r matches Ok(t) ==> spec_doc(format_type, t@) is Some),
        (r matches Ok(t) ==> (format_type is Xml ==> spec_no_char_refs(input@)) ==> spec_doc(
            format_type,
            t@,
        ) == spec_doc(format_type, input@)),
        (r matches Err(e) ==> e == FormatError::ParseFailed(format_type)),
{
    match format_type {
        FormatType::Json => format_json(input),
        FormatType::Yaml => format_yaml(input),
        FormatType::Xml => format_xml(input),
    }
}

} // verus!
