use rendering_project::format_parser::ParsedFormat;
use rendering_project::registry::{parse_formats, parse_xml, registry_readable};
use rendering_project::xml_parser::parser::{Item, ParsedXml};
use rendering_project::xml_parser::tokeniser::TokenisedXml;
use rendering_project::xml_parser::IoError;

fn reader(text: &str) -> ParsedXml {
    ParsedXml::new(TokenisedXml::new(text, None))
}

const REGISTRY: &str = "<?xml version=\"1.0\"?>\n<registry>\n<types><type name=\"a\"/></types>\n<formats>\n</formats>\n</registry>\n";

#[test]
fn registry_without_formats_is_read() {
    assert!(registry_readable(REGISTRY, None));
    let mut xml = reader(REGISTRY);
    let parsed = parse_xml(&mut xml);
    assert!(parsed.formats.is_empty());
    assert!(xml.next().is_none());
}

#[test]
fn registry_in_another_form_is_not_readable() {
    assert!(!registry_readable("<other/>", None));
    assert!(!registry_readable("<registry><formats><format name=\"x\"/></formats></registry>", None));
    assert!(!registry_readable("<registry>", None));
    let failure = Some(IoError { message: String::from("Test") });
    assert!(!registry_readable("<registry>\n<formats>\n", failure.clone()));
    // Reading stops once the root element is closed, so a later failure is never met.
    assert!(registry_readable(REGISTRY, failure));
}

#[test]
fn formats_section_of_text_is_read() {
    let mut xml = reader("<formats>\n\t</formats>");
    assert_eq!(
        xml.next().unwrap().unwrap(),
        Item::Element { name: String::from("formats"), attributes: Vec::new() }
    );
    let mut formats: Vec<ParsedFormat> = Vec::new();
    parse_formats(&mut xml, &mut formats);
    assert!(formats.is_empty());
    assert!(xml.next().is_none());
}
