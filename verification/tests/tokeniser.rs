use rendering_project::xml_parser::tokeniser::{is_whitespace, Token, TokenisedXml};
use rendering_project::xml_parser::IoError;

// A read failure is reported with the message of the parser's own io error, which is the one
// the parser's tests expect as well.
const PARSER_IO_ERROR_TEST_STRING: &str = "an io error occurred while reading the XML";

fn failing_read() -> Option<IoError> {
    Some(IoError { message: String::from("Test") })
}

#[test]
fn tokeniser_test_individual_tokens() {
    let test_data = [
        ("<", Token::StartTag),
        (">", Token::EndTag),
        ("?", Token::QuestionMark),
        ("/", Token::Slash),
        ("=", Token::Equals),
        ("\"", Token::QuotationMark),
        (" ", Token::Whitespace(' ')),
        ("\t", Token::Whitespace('\t')),
        ("\n", Token::Whitespace('\n')),
        ("a", Token::Word(String::from("a"))),
        ("abc", Token::Word(String::from("abc"))),
    ];
    for test in test_data {
        let mut xml = TokenisedXml::new(test.0, None);
        assert_eq!(xml.next().unwrap().unwrap(), test.1);
        assert!(xml.next().is_none());
        assert!(xml.next().is_none());
    }
}

#[test]
fn tokeniser_test_failures() {
    let test_data = [
        ("", Vec::new()),
        ("<", Vec::new()),
        ("<\n", vec![Token::StartTag, Token::Whitespace('\n')]),
        (
            "<? test?as<much>as=you\"possibly\ncan\t>",
            vec![
                Token::StartTag,
                Token::QuestionMark,
                Token::Whitespace(' '),
                Token::Word(String::from("test")),
                Token::QuestionMark,
                Token::Word(String::from("as")),
                Token::StartTag,
                Token::Word(String::from("much")),
                Token::EndTag,
                Token::Word(String::from("as")),
                Token::Equals,
                Token::Word(String::from("you")),
                Token::QuotationMark,
                Token::Word(String::from("possibly")),
                Token::Whitespace('\n'),
            ],
        ),
    ];
    for test in test_data {
        let mut xml = TokenisedXml::new(test.0, failing_read());
        for token in test.1 {
            assert_eq!(xml.next().unwrap().unwrap(), token);
        }
        assert_eq!(xml.next().unwrap().unwrap_err().to_string(), PARSER_IO_ERROR_TEST_STRING);
        assert!(xml.next().is_none());
    }
}

#[test]
fn test_peeking() {
    let mut xml = TokenisedXml::new("<Test 猫/>\n", failing_read());
    let result = vec![
        Token::StartTag,
        Token::Word(String::from("Test")),
        Token::Whitespace(' '),
        Token::Word(String::from("猫")),
        Token::Slash,
        Token::EndTag,
        Token::Whitespace('\n'),
    ];
    assert_eq!(*xml.peek().unwrap().as_ref().unwrap(), result.get(0).unwrap().clone());
    assert_eq!(*xml.peek().unwrap().as_ref().unwrap(), result.get(0).unwrap().clone());
    for i in 0..result.len() {
        assert_eq!(*xml.peek_n(i).unwrap().as_ref().unwrap(), result.get(i).unwrap().clone());
    }
    assert_eq!(xml.peek_n(result.len() + 1).is_none(), true);
    assert_eq!(
        xml.peek_n(result.len()).unwrap().as_ref().unwrap_err().to_string(),
        PARSER_IO_ERROR_TEST_STRING
    );
    assert_eq!(*xml.peek().unwrap().as_ref().unwrap(), result.get(0).unwrap().clone());
    for test in result {
        assert_eq!(xml.next().unwrap().unwrap(), test);
    }
    assert_eq!(xml.next().unwrap().unwrap_err().to_string(), PARSER_IO_ERROR_TEST_STRING);
    assert_eq!(xml.next().is_none(), true);
}

#[test]
fn test_token_debug() {
    let data = [
        (Token::StartTag, "Start tag: '<'"),
        (Token::EndTag, "End tag: '>'"),
        (Token::QuestionMark, "Question mark: '?'"),
        (Token::Slash, "Slash: '/'"),
        (Token::Equals, "Equals: '='"),
        (Token::QuotationMark, "Quotation mark: '\"'"),
        (Token::Word(String::from("")), "Word: \"\""),
        (Token::Word(String::from("Test")), "Word: \"Test\""),
        (Token::Whitespace(' '), "Whitespace character: ' '"),
        (Token::Whitespace('猫'), "Whitespace character: '猫'"),
    ];
    for test in data {
        assert_eq!(test.0.describe(), test.1);
    }
}

#[test]
fn tokeniser_test_token_debug() {
    let data = [
        (Token::StartTag, "Start tag"),
        (Token::EndTag, "End tag"),
        (Token::QuestionMark, "Question mark"),
        (Token::Slash, "Slash"),
        (Token::Equals, "Equals"),
        (Token::QuotationMark, "Quotation mark"),
        (Token::Word(String::from("")), "Word()"),
        (Token::Word(String::from("Test")), "Word(Test)"),
        (Token::Whitespace(' '), "Whitespace character( )"),
        (Token::Whitespace('猫'), "Whitespace character(猫)"),
    ];
    for test in data {
        assert_eq!(test.0.to_string(), test.1);
    }
}

#[test]
fn test_token_to_text() {
    let data = [
        ("test", Token::StartTag, "test<"),
        ("", Token::EndTag, ">"),
        (" ", Token::QuestionMark, " ?"),
        ("\n", Token::Slash, "\n/"),
        ("", Token::Equals, "="),
        ("", Token::QuotationMark, "\""),
        ("", Token::Whitespace(' '), " "),
        ("", Token::Word(String::new()), ""),
        ("", Token::Word(String::from("test")), "test"),
        ("test", Token::Word(String::new()), "test"),
        ("test", Token::Word(String::from(" more")), "test more"),
    ];
    for test in data {
        let mut str = String::from(test.0);
        test.1.append_to(&mut str);
        assert_eq!(str, test.2)
    }
}

/// Writing the tokens of a text one after another gives back the text.
#[test]
fn tokens_give_back_the_text() {
    let text = "<? xml ?>\n<outer name=\"value\">\n\ttext 猫 words</outer>\n";
    let mut xml = TokenisedXml::new(text, None);
    let mut written = String::new();
    while let Some(token) = xml.next() {
        token.unwrap().append_to(&mut written);
    }
    assert_eq!(written, text);
}

/// Two words are never next to each other, and a word holds no whitespace or symbol.
#[test]
fn words_are_whole() {
    let mut xml = TokenisedXml::new("ab cd<ef=\"gh\"/>", None);
    let mut tokens = Vec::new();
    while let Some(token) = xml.next() {
        tokens.push(token.unwrap());
    }
    assert_eq!(
        tokens,
        vec![
            Token::Word(String::from("ab")),
            Token::Whitespace(' '),
            Token::Word(String::from("cd")),
            Token::StartTag,
            Token::Word(String::from("ef")),
            Token::Equals,
            Token::QuotationMark,
            Token::Word(String::from("gh")),
            Token::QuotationMark,
            Token::Slash,
            Token::EndTag,
        ]
    );
}

/// A failed read reports the failure after the tokens of the complete lines, and nothing after it.
#[test]
fn failure_comes_last() {
    let mut xml = TokenisedXml::new("a\nb", failing_read());
    assert_eq!(xml.next().unwrap().unwrap(), Token::Word(String::from("a")));
    assert_eq!(xml.next().unwrap().unwrap(), Token::Whitespace('\n'));
    assert!(xml.next().unwrap().is_err());
    assert!(xml.next().is_none());
    assert!(xml.peek().is_none());
}

/// The whitespace test agrees with `char::is_whitespace` on every character.
#[test]
fn whitespace_matches_std() {
    for n in 0..=0x10FFFFu32 {
        if let Some(c) = char::from_u32(n) {
            assert_eq!(is_whitespace(c), c.is_whitespace(), "{n:#x}");
        }
    }
}
