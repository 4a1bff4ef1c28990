//! A small XML reader written for the Vulkan registry file.
//!
//! The reader cannot handle comments, `&` escape codes (they are treated as text), CDATA sections,
//! or attribute values written between single quotes. The contents of a leading `<? ?>` block are
//! skipped up to its closing `?`. Text after the root element is ignored, while a second element
//! after the root element is an error. If the text ends, or holds an invalid token, inside a
//! self-closing element such as `<element/` or `<element/<`, the element's opening is returned
//! before the error. Whitespace between an attribute value and the next attribute is not required.
//!
//! The text itself is read elsewhere, a line at a time: the reader is handed the characters that
//! were read and, where reading stopped with a failure, a description of that failure, which it
//! reports after the tokens of the complete lines.

pub mod parser;
pub mod tokeniser;

use parser::{lemma_next_depth, ParsedXml};
use tokeniser::{SpecToken, Token, TokenisedXml};
use vstd::prelude::*;

verus! {

/// A failure of the reader that supplied the XML text.
#[derive(Clone, Debug, PartialEq, Eq)]
pub struct IoError {
    /// What the reader reported.
    pub message: String,
}

/// Describes what error occurred during the XML parsing.
#[derive(Clone, Debug, PartialEq, Eq)]
pub enum ParserError {
    FileCutShortAbruptlyDuringXMLDeclaration,
    FileCutShortAbruptlyDuringTag,
    NoRootElement,
    MultipleRootElements,
    ElementNotClosed,
    ElementsClosedOutOfOrder { correct: String, found: String },
    ElementClosedAfterRootElementClosed(String),
    InvalidToken(Token),
    IoError(IoError),
}

/// The mathematical value of a [`ParserError`].
pub enum SpecParserError {
    FileCutShortAbruptlyDuringXMLDeclaration,
    FileCutShortAbruptlyDuringTag,
    NoRootElement,
    MultipleRootElements,
    ElementNotClosed,
    ElementsClosedOutOfOrder { correct: Seq<char>, found: Seq<char> },
    ElementClosedAfterRootElementClosed(Seq<char>),
    InvalidToken(SpecToken),
    IoError(Seq<char>),
}

impl View for ParserError {
    type V = SpecParserError;

    open spec fn view(&self) -> SpecParserError {
        match self {
            ParserError::FileCutShortAbruptlyDuringXMLDeclaration => {
                SpecParserError::FileCutShortAbruptlyDuringXMLDeclaration
            },
            ParserError::FileCutShortAbruptlyDuringTag => {
                SpecParserError::FileCutShortAbruptlyDuringTag
            },
            ParserError::NoRootElement => SpecParserError::NoRootElement,
            ParserError::MultipleRootElements => SpecParserError::MultipleRootElements,
            ParserError::ElementNotClosed => SpecParserError::ElementNotClosed,
            ParserError::ElementsClosedOutOfOrder { correct, found } => {
                SpecParserError::ElementsClosedOutOfOrder { correct: correct@, found: found@ }
            },
            ParserError::ElementClosedAfterRootElementClosed(name) => {
                SpecParserError::ElementClosedAfterRootElementClosed(name@)
            },
            ParserError::InvalidToken(t) => SpecParserError::InvalidToken(t@),
            ParserError::IoError(e) => SpecParserError::IoError(e.message@),
        }
    }
}

/// The message that describes an error.
pub open spec fn error_message(e: SpecParserError) -> Seq<char> {
    match e {
        SpecParserError::FileCutShortAbruptlyDuringXMLDeclaration => {
            "file cut short during the XML declaration"@
        },
        SpecParserError::FileCutShortAbruptlyDuringTag => "file cut short during a tag"@,
        SpecParserError::NoRootElement => "file does not contain a root element"@,
        SpecParserError::MultipleRootElements => "file contains multiple root elements"@,
        SpecParserError::ElementNotClosed => "an element was not closed"@,
        SpecParserError::ElementsClosedOutOfOrder { correct, found } => "closure for element "@
            + found + " found when closure for element "@ + correct + " expected"@,
        SpecParserError::ElementClosedAfterRootElementClosed(name) => "closure for element "@
            + name + " found after closure for root element found"@,
        SpecParserError::InvalidToken(t) => "an invalid \""@ + tokeniser::token_description(t)
            + "\" token was found where it should not have been"@,
        SpecParserError::IoError(_) => "an io error occurred while reading the XML"@,
    }
}

impl ParserError {
    /// The message that describes this error.
    pub fn to_string(&self) -> (s: String)
        ensures
            s@ == error_message(self@),
    {
        match self {
            ParserError::FileCutShortAbruptlyDuringXMLDeclaration => {
                "file cut short during the XML declaration".to_owned()
            },
            ParserError::FileCutShortAbruptlyDuringTag => "file cut short during a tag".to_owned(),
            ParserError::NoRootElement => "file does not contain a root element".to_owned(),
            ParserError::MultipleRootElements => "file contains multiple root elements".to_owned(),
            ParserError::ElementNotClosed => "an element was not closed".to_owned(),
            ParserError::ElementsClosedOutOfOrder { correct, found } => {
                let mut s = "closure for element ".to_owned();
                s.append(found.as_str());
                s.append(" found when closure for element ");
                s.append(correct.as_str());
                s.append(" expected");
                s
            },
            ParserError::ElementClosedAfterRootElementClosed(name) => {
                let mut s = "closure for element ".to_owned();
                s.append(name.as_str());
                s.append(" found after closure for root element found");
                s
            },
            ParserError::InvalidToken(t) => {
                let mut s = "an invalid \"".to_owned();
                let name = t.describe();
                s.append(name.as_str());
                s.append("\" token was found where it should not have been");
                s
            },
            ParserError::IoError(_) => "an io error occurred while reading the XML".to_owned(),
        }
    }
}

} // verus!

verus! {

/// Reads the whole of an XML text, item by item, and checks that the reader then stays done.
pub fn temp(text: &str, read_failure: Option<IoError>) {
    let mut xml = ParsedXml::new(TokenisedXml::new(text, read_failure));
    drain_parser(&mut xml);
    let last = xml.next();
    assert(last is None);
}

/// Reads every token of an XML text.
pub fn benchmark_tokeniser(text: &str, read_failure: Option<IoError>) {
    let mut tokens = TokenisedXml::new(text, read_failure);
    loop
        decreases tokens@.len(),
    {
        if tokens.next().is_none() {
            break ;
        }
    }
}

/// Reads every item of an XML text.
pub fn benchmark_parser(text: &str, read_failure: Option<IoError>) {
    let mut xml = ParsedXml::new(TokenisedXml::new(text, read_failure));
    drain_parser(&mut xml);
}

/// Reads items until the reader returns nothing; the reader is then done.
fn drain_parser(xml: &mut ParsedXml)
    ensures
        final(xml)@.is_done,
{
    loop
        invariant_except_break
            true,
        ensures
            xml@.is_done,
        decreases parser::remaining_work(xml@),
    {
        proof {
            lemma_next_depth(xml@);
        }
        if xml.next().is_none() {
            break ;
        }
    }
}

} // verus!
