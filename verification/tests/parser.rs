use rendering_project::xml_parser::parser::{Item, ParsedXml};
use rendering_project::xml_parser::tokeniser::Token::{
    EndTag, Equals, QuestionMark, QuotationMark, Slash, StartTag, Whitespace, Word,
};
use rendering_project::xml_parser::tokeniser::TokenisedXml;
use rendering_project::xml_parser::{IoError, ParserError};

const PARSER_IO_ERROR_TEST_STRING: &str = "an io error occurred while reading the XML";

fn failing_read() -> Option<IoError> {
    Some(IoError { message: String::from("Test") })
}

fn check_xml_gives_correct_values(txt: &str, good: Vec<Item>, err: Option<ParserError>) {
    let mut xml = ParsedXml::new(TokenisedXml::new(txt, None));
    for item in good {
        assert_eq!(xml.next().unwrap().unwrap(), item);
    }
    if let Some(val) = err {
        assert_eq!(xml.next().unwrap().unwrap_err().to_string(), val.to_string());
    }
    assert!(xml.next().is_none());
    assert!(xml.next().is_none());
}

#[test]
fn test_failing_intros() {
    let data = [
        ("", ParserError::NoRootElement),
        (
            "Text",
            ParserError::InvalidToken(Word(String::from("Text"))),
        ),
        (">", ParserError::InvalidToken(EndTag)),
        ("?", ParserError::InvalidToken(QuestionMark)),
        ("/", ParserError::InvalidToken(Slash)),
        ("=", ParserError::InvalidToken(Equals)),
        ("\n\t \"", ParserError::InvalidToken(QuotationMark)),
        ("?", ParserError::InvalidToken(QuestionMark)),
        ("<?", ParserError::FileCutShortAbruptlyDuringXMLDeclaration),
        ("<??", ParserError::FileCutShortAbruptlyDuringXMLDeclaration),
        ("<??<", ParserError::InvalidToken(StartTag)),
        ("<??\"", ParserError::InvalidToken(QuotationMark)),
        ("<??=", ParserError::InvalidToken(Equals)),
        ("<???", ParserError::InvalidToken(QuestionMark)),
    ];
    for test in data {
        assert_eq!(
            ParsedXml::new(TokenisedXml::new(test.0, None))
                .next()
                .unwrap()
                .unwrap_err()
                .to_string(),
            test.1.to_string()
        );
        assert_eq!(
            ParsedXml::new(TokenisedXml::new(test.0, failing_read()))
            .next()
            .unwrap()
            .unwrap_err()
            .to_string(),
            PARSER_IO_ERROR_TEST_STRING,
        );
    }
}

#[test]
fn test_immediate_error() {
    assert_eq!(
        ParsedXml::new(TokenisedXml::new("", None))
            .next()
            .unwrap()
            .unwrap_err()
            .to_string(),
        ParserError::NoRootElement.to_string(),
    );
    assert_eq!(
        ParsedXml::new(TokenisedXml::new("<?", failing_read()))
        .next()
        .unwrap()
        .unwrap_err()
        .to_string(),
        PARSER_IO_ERROR_TEST_STRING,
    );
}

#[test]
fn test_valid_intro() {
    check_xml_gives_correct_values("\n<??>", Vec::new(), Some(ParserError::NoRootElement));
    check_xml_gives_correct_values(
        "<? word test \n test = \"test / words?>",
        Vec::new(),
        Some(ParserError::NoRootElement),
    );
}

#[test]
fn test_element() {
    check_xml_gives_correct_values(
        "<outer><middle><inner/></middle></outer>",
        vec![
            Item::Element {
                name: String::from("outer"),
                attributes: Vec::new(),
            },
            Item::Element {
                name: String::from("middle"),
                attributes: Vec::new(),
            },
            Item::Element {
                name: String::from("inner"),
                attributes: Vec::new(),
            },
            Item::EndCurrentElement,
            Item::EndCurrentElement,
            Item::EndCurrentElement,
        ],
        None,
    );
}

#[test]
fn test_text() {
    check_xml_gives_correct_values(
        "<outer>\n text 1<inner1>?text 2>?=/\"</inner1><inner2>>text3</inner2>\"text4 word \
        猫<inner3>=text5</inner3></outer>",
        vec![
            Item::Element {
                name: String::from("outer"),
                attributes: Vec::new(),
            },
            Item::Text(String::from("\n text 1")),
            Item::Element {
                name: String::from("inner1"),
                attributes: Vec::new(),
            },
            Item::Text(String::from("?text 2>?=/\"")),
            Item::EndCurrentElement,
            Item::Element {
                name: String::from("inner2"),
                attributes: Vec::new(),
            },
            Item::Text(String::from(">text3")),
            Item::EndCurrentElement,
            Item::Text(String::from("\"text4 word 猫")),
            Item::Element {
                name: String::from("inner3"),
                attributes: Vec::new(),
            },
            Item::Text(String::from("=text5")),
            Item::EndCurrentElement,
            Item::EndCurrentElement,
        ],
        None,
    );
}

#[test]
fn test_attributes() {
    check_xml_gives_correct_values(
        "<outer name1=\"value1\">\n text 1<inner1 猫=\"猫\" name2=\"value2\">\ntext 2</inner1>\
        <inner2 name3=\"value3\" name4=\"value4\"/>text3 other words 猫</outer>",
        vec![
            Item::Element {
                name: String::from("outer"),
                attributes: vec![(String::from("name1"), String::from("value1"))],
            },
            Item::Text(String::from("\n text 1")),
            Item::Element {
                name: String::from("inner1"),
                attributes: vec![
                    (String::from("猫"), String::from("猫")),
                    (String::from("name2"), String::from("value2")),
                ],
            },
            Item::Text(String::from("\ntext 2")),
            Item::EndCurrentElement,
            Item::Element {
                name: String::from("inner2"),
                attributes: vec![
                    (String::from("name3"), String::from("value3")),
                    (String::from("name4"), String::from("value4")),
                ],
            },
            Item::EndCurrentElement,
            Item::Text(String::from("text3 other words 猫")),
            Item::EndCurrentElement,
        ],
        None,
    );
}

#[test]
fn test_self_closing_root_element() {
    check_xml_gives_correct_values(
        "<element name=\"value1\" 猫=\"value2\"/>",
        vec![
            Item::Element {
                name: String::from("element"),
                attributes: vec![
                    (String::from("name"), String::from("value1")),
                    (String::from("猫"), String::from("value2")),
                ],
            },
            Item::EndCurrentElement,
        ],
        None,
    );
}

#[test]
fn test_two_root_elements() {
    check_xml_gives_correct_values(
        "<outer1/><outer2></outer2>",
        vec![
            Item::Element {
                name: String::from("outer1"),
                attributes: Vec::new(),
            },
            Item::EndCurrentElement,
        ],
        Some(ParserError::MultipleRootElements),
    );
}

#[test]
fn test_zero_root_elements() {
    check_xml_gives_correct_values(
        "<? word test \n test = \"test / words?>",
        Vec::new(),
        Some(ParserError::NoRootElement),
    );
}

#[test]
fn test_errors_in_element() {
        let data1 = [
        ("<??>\n\tElement", ParserError::InvalidToken(Word(String::from("Element")))),
        ("<??>=", ParserError::InvalidToken(Equals)),
        ("<??>>", ParserError::InvalidToken(EndTag)),
        ("<??>/", ParserError::InvalidToken(Slash)),
        ("<??>\"", ParserError::InvalidToken(QuotationMark)),
        ("<??>?", ParserError::InvalidToken(QuestionMark)),
        ("<", ParserError::FileCutShortAbruptlyDuringTag),
        ("<=", ParserError::InvalidToken(Equals)),
        ("</=", ParserError::InvalidToken(Slash)),
        ("<??><>", ParserError::InvalidToken(EndTag)),
        ("</", ParserError::InvalidToken(Slash)),
        ("<\"", ParserError::InvalidToken(QuotationMark)),
        ("< ", ParserError::InvalidToken(Whitespace(' '))),
        ("<??><<", ParserError::InvalidToken(StartTag)),
        ("<??><?", ParserError::InvalidToken(QuestionMark)),
        ("<element", ParserError::FileCutShortAbruptlyDuringTag),
        ("<element=", ParserError::InvalidToken(Equals)),
        ("<element\"", ParserError::InvalidToken(QuotationMark)),
        ("<??><element<", ParserError::InvalidToken(StartTag)),
        ("<element?", ParserError::InvalidToken(QuestionMark)),
        ("<element attribute=\"value\"", ParserError::FileCutShortAbruptlyDuringTag),
        ("<element attribute=\"value\"=", ParserError::InvalidToken(Equals)),
        ("<??><element attribute=\"value\"\"", ParserError::InvalidToken(QuotationMark)),
        ("<element attribute=\"value\"<", ParserError::InvalidToken(StartTag)),
        ("<element attribute=\"value\"?", ParserError::InvalidToken(QuestionMark)),
    ];
    for test in data1 {
        check_xml_gives_correct_values(test.0, Vec::new(), Some(test.1));
    }
    let data2 = [
        ("<element></?element ?", ParserError::InvalidToken(QuestionMark)),
        ("<element/<", ParserError::InvalidToken(StartTag)),
        ("<element/=", ParserError::InvalidToken(Equals)),
        ("<element//", ParserError::InvalidToken(Slash)),
        ("<element/\"", ParserError::InvalidToken(QuotationMark)),
        ("<element/ ", ParserError::InvalidToken(Whitespace(' '))),
        ("<element/test", ParserError::InvalidToken(Word(String::from("test")))),
        ("<element/ attribute=\"value\"", ParserError::InvalidToken(Whitespace(' '))),
        ("<element><?", ParserError::InvalidToken(QuestionMark)),
        ("<element></?", ParserError::InvalidToken(QuestionMark)),
        ("<element></element ?", ParserError::InvalidToken(QuestionMark)),
        ("<element><", ParserError::FileCutShortAbruptlyDuringTag),
        ("<element></", ParserError::FileCutShortAbruptlyDuringTag),
    ];
    for test in data2 {
        check_xml_gives_correct_values(
            test.0,
            vec![Item::Element {
                name: String::from("element"),
                attributes: Vec::new(),
            }],
            Some(test.1),
        );
    }
    let data3 = [
        ("<element attribute=\"value\"/", ParserError::FileCutShortAbruptlyDuringTag),
        ("<element attribute=\"value\"/=", ParserError::InvalidToken(Equals)),
        ("<??><element attribute=\"value\"/\"", ParserError::InvalidToken(QuotationMark)),
        ("<element attribute=\"value\"/<", ParserError::InvalidToken(StartTag)),
        ("<element attribute=\"value\"/?", ParserError::InvalidToken(QuestionMark)),
    ];
    for test in data3 {
        check_xml_gives_correct_values(
            test.0,
            vec![Item::Element {
                name: String::from("element"),
                attributes: vec![(String::from("attribute"), String::from("value"))],
            }],
            Some(test.1),
        );
    }
}

#[test]
fn test_errors_in_attributes() {
        let data = [
        ("<element ", ParserError::FileCutShortAbruptlyDuringTag),
        ("<element <", ParserError::InvalidToken(StartTag)),
        ("<element ?", ParserError::InvalidToken(QuestionMark)),
        ("<element =", ParserError::InvalidToken(Equals)),
        ("<element \"", ParserError::InvalidToken(QuotationMark)),
        ("<element name", ParserError::FileCutShortAbruptlyDuringTag),
        ("<element name<", ParserError::InvalidToken(StartTag)),
        ("<element name>", ParserError::InvalidToken(EndTag)),
        ("<element name?", ParserError::InvalidToken(QuestionMark)),
        ("<element name/", ParserError::InvalidToken(Slash)),
        ("<element name\"", ParserError::InvalidToken(QuotationMark)),
        ("<element name ", ParserError::InvalidToken(Whitespace(' '))),
        ("<element name=", ParserError::FileCutShortAbruptlyDuringTag),
        ("<element name=<", ParserError::InvalidToken(StartTag)),
        ("<element name=>", ParserError::InvalidToken(EndTag)),
        ("<element name=?", ParserError::InvalidToken(QuestionMark)),
        ("<element name=/", ParserError::InvalidToken(Slash)),
        ("<element name==", ParserError::InvalidToken(Equals)),
        ("<element name= ", ParserError::InvalidToken(Whitespace(' '))),
        ("<element name=\"", ParserError::FileCutShortAbruptlyDuringTag),
        ("<element name=\"text", ParserError::FileCutShortAbruptlyDuringTag),
        ("<element name=\">?/=Value <", ParserError::InvalidToken(StartTag)),
        ("<element name=\">?/=Value \" name2=\"value2\"<", ParserError::InvalidToken(StartTag)),
    ];
    for test in data {
        check_xml_gives_correct_values(test.0, Vec::new(), Some(test.1));
    }
}

#[test]
fn test_elements_closed_out_of_order() {
    check_xml_gives_correct_values(
        "<root><inner></root>",
        vec![
            Item::Element {
                name: String::from("root"),
                attributes: Vec::new(),
            },
            Item::Element {
                name: String::from("inner"),
                attributes: Vec::new(),
            },
        ],
        Some(ParserError::ElementsClosedOutOfOrder {
            correct: String::from("inner"),
            found: String::from("root"),
        }),
    );
}

#[test]
fn test_element_closure_after_root_element_closed() {
    check_xml_gives_correct_values(
        "<root/></inner>",
        vec![
            Item::Element {
                name: String::from("root"),
                attributes: Vec::new(),
            },
            Item::EndCurrentElement,
        ],
        Some(ParserError::ElementClosedAfterRootElementClosed(
            String::from("inner"),
        )),
    );
}

#[test]
fn test_text_outside_element() {
    check_xml_gives_correct_values(
        "<??>text block <element/>",
        Vec::new(),
        Some(ParserError::InvalidToken(Word(String::from("text")))),
    );
    check_xml_gives_correct_values(
        "<element/>\ttext block",
        vec![
            Item::Element {
                name: String::from("element"),
                attributes: Vec::new(),
            },
            Item::EndCurrentElement,
        ],
        None,
    );
}

#[test]
fn test_eof_in_text() {
    check_xml_gives_correct_values(
        "<element>text",
        vec![Item::Element {
            name: String::from("element"),
            attributes: Vec::new(),
        }],
        Some(ParserError::ElementNotClosed),
    );
    let mut xml = ParsedXml::new(TokenisedXml::new("<element>text\n", failing_read()));
    assert_eq!(
        xml.next().unwrap().unwrap(),
        Item::Element {
            name: String::from("element"),
            attributes: Vec::new(),
        },
    );
    assert_eq!(
        xml.next().unwrap().unwrap_err().to_string(),
        PARSER_IO_ERROR_TEST_STRING,
    );
    assert!(xml.next().is_none());
    assert!(xml.next().is_none());
}

#[test]
fn test_element_not_closed_at_end_of_file() {
    check_xml_gives_correct_values(
        "<element>",
        vec![Item::Element {
            name: String::from("element"),
            attributes: Vec::new(),
        }],
        Some(ParserError::ElementNotClosed),
    );
}

#[test]
fn test_skip_current_element() {
    let mut xml = ParsedXml::new(TokenisedXml::new(
        "<root><middle1 name=\"value\"><inner1> text </inner1>\
        <inner2/></middle1><middle2/></root>",
        None,
    ));
    assert_eq!(
        xml.next().unwrap().unwrap(),
        Item::Element {
            name: String::from("root"),
            attributes: Vec::new(),
        },
    );
    assert_eq!(
        xml.next().unwrap().unwrap(),
        Item::Element {
            name: String::from("middle1"),
            attributes: vec![(String::from("name"), String::from("value"))],
        },
    );
    assert_eq!(xml.skip_current_element().unwrap(), ());
    assert_eq!(
        xml.next().unwrap().unwrap(),
        Item::Element {
            name: String::from("middle2"),
            attributes: Vec::new(),
        },
    );
    assert_eq!(xml.skip_current_element().unwrap(), ());
    assert_eq!(xml.next().unwrap().unwrap(), Item::EndCurrentElement);
    assert!(xml.next().is_none());
}

#[test]
fn test_skipping_root_element() {
    let mut xml = ParsedXml::new(TokenisedXml::new(
        "<root><middle1 name=\"value\"><inner1> text </inner1>\
        <inner2/></middle1><middle2/></root>",
        None,
    ));
    assert_eq!(
        xml.next().unwrap().unwrap(),
        Item::Element {
            name: String::from("root"),
            attributes: Vec::new(),
        },
    );
    assert_eq!(xml.skip_current_element().unwrap(), ());
    assert!(xml.next().is_none());
}

#[test]
fn test_skipping_outside_root_element() {
    let mut xml = ParsedXml::new(TokenisedXml::new("<root/>", None));
    assert_eq!(xml.skip_current_element().unwrap(), ());
    assert!(xml.next().is_none());
    let mut xml = ParsedXml::new(TokenisedXml::new("<root/>", None));
    assert_eq!(
        xml.next().unwrap().unwrap(),
        Item::Element {
            name: String::from("root"),
            attributes: Vec::new(),
        },
    );
    assert_eq!(xml.next().unwrap().unwrap(), Item::EndCurrentElement);
    assert_eq!(xml.skip_current_element().unwrap(), ());
    assert!(xml.next().is_none());
}

#[test]
fn test_errors_in_skipping_current_element() {
    let mut xml = ParsedXml::new(TokenisedXml::new("<root><inner>", None));
    assert_eq!(
        xml.next().unwrap().unwrap(),
        Item::Element {
            name: String::from("root"),
            attributes: Vec::new(),
        },
    );
    assert_eq!(
        xml.skip_current_element().unwrap_err().to_string(),
        ParserError::ElementNotClosed.to_string(),
    );
    assert!(xml.next().is_none());
}

/// Text after the root element is ignored; another element after it is an error.
#[test]
fn text_after_root_is_ignored() {
    check_xml_gives_correct_values(
        "<root/>text<other/>",
        vec![
            Item::Element { name: String::from("root"), attributes: Vec::new() },
            Item::EndCurrentElement,
        ],
        Some(ParserError::MultipleRootElements),
    );
    check_xml_gives_correct_values(
        "<root></root> more text \n",
        vec![
            Item::Element { name: String::from("root"), attributes: Vec::new() },
            Item::EndCurrentElement,
        ],
        None,
    );
}
