//! Turns the tokens of an XML text into elements, text blocks and element ends.

use super::tokeniser::{
    entry_view, law_tokens_well_formed, spec_tokens, token_stream, token_text, tokens_text,
    well_formed_token,
    SpecToken, Token, TokenisedXml,
};
use super::{ParserError, SpecParserError};
use vstd::prelude::*;

verus! {

/// One item of the parsed XML.
#[derive(Clone, Debug, PartialEq, Eq)]
pub enum Item {
    /// The opening of an element, with its attributes in the order they were written.
    Element { name: String, attributes: Vec<(String, String)> },
    /// A block of text inside an element.
    Text(String),
    /// The end of the element that was opened most recently and not yet ended.
    EndCurrentElement,
}

/// The mathematical value of an [`Item`].
pub enum SpecItem {
    Element { name: Seq<char>, attributes: Seq<(Seq<char>, Seq<char>)> },
    Text(Seq<char>),
    EndCurrentElement,
}

/// The mathematical value of a list of attributes.
pub open spec fn attributes_view(a: Vec<(String, String)>) -> Seq<(Seq<char>, Seq<char>)> {
    a@.map_values(|p: (String, String)| (p.0@, p.1@))
}

impl View for Item {
    type V = SpecItem;

    open spec fn view(&self) -> SpecItem {
        match self {
            Item::Element { name, attributes } => SpecItem::Element {
                name: name@,
                attributes: attributes_view(*attributes),
            },
            Item::Text(t) => SpecItem::Text(t@),
            Item::EndCurrentElement => SpecItem::EndCurrentElement,
        }
    }
}

/// The mathematical value of what [`ParsedXml::next`] returns.
pub open spec fn outcome_view(r: Option<Result<Item, ParserError>>) -> Option<
    Result<SpecItem, SpecParserError>,
> {
    match r {
        Some(Ok(i)) => Some(Ok(i@)),
        Some(Err(e)) => Some(Err(e@)),
        None => None,
    }
}

/// Where the parser is within the XML text.
#[derive(Debug)]
enum State {
    Start { found_declaration: bool, found_start_tag: bool },
    Declaration { found_ending_question_mark: bool },
    StartTagFoundAfterRoot,
    Element {
        name: String,
        attributes: Vec<(String, String)>,
        current_attribute_name: Option<String>,
        equals_found: bool,
        quotation_mark_found: bool,
        current_attribute_text: String,
    },
    Neutral,
    TextBlock(String),
    SelfClosingElement,
    ClosingElement { name_checked: bool },
}

/// The mathematical value of the parser's position within the XML text.
pub enum SpecState {
    /// Before the root element; `found_declaration` once a `<? ?>` block was skipped.
    Start { found_declaration: bool, found_start_tag: bool },
    /// Inside the `<? ?>` block.
    Declaration { found_ending_question_mark: bool },
    /// Just after a `<` that follows the start of the root element.
    StartTagFoundAfterRoot,
    /// Inside the opening tag of an element.
    Element {
        name: Seq<char>,
        attributes: Seq<(Seq<char>, Seq<char>)>,
        current_attribute_name: Option<Seq<char>>,
        equals_found: bool,
        quotation_mark_found: bool,
        current_attribute_text: Seq<char>,
    },
    /// Between tags, with no text read yet.
    Neutral,
    /// Inside a block of text.
    TextBlock(Seq<char>),
    /// After the `/` of a self-closing element.
    SelfClosingElement,
    /// Inside a closing tag; `name_checked` once its name matched the open element.
    ClosingElement { name_checked: bool },
}

impl View for State {
    type V = SpecState;

    closed spec fn view(&self) -> SpecState {
        match self {
            State::Start { found_declaration, found_start_tag } => SpecState::Start {
                found_declaration: *found_declaration,
                found_start_tag: *found_start_tag,
            },
            State::Declaration { found_ending_question_mark } => SpecState::Declaration {
                found_ending_question_mark: *found_ending_question_mark,
            },
            State::StartTagFoundAfterRoot => SpecState::StartTagFoundAfterRoot,
            State::Element {
                name,
                attributes,
                current_attribute_name,
                equals_found,
                quotation_mark_found,
                current_attribute_text,
            } => SpecState::Element {
                name: name@,
                attributes: attributes_view(*attributes),
                current_attribute_name: match current_attribute_name {
                    Some(n) => Some(n@),
                    None => None,
                },
                equals_found: *equals_found,
                quotation_mark_found: *quotation_mark_found,
                current_attribute_text: current_attribute_text@,
            },
            State::Neutral => SpecState::Neutral,
            State::TextBlock(t) => SpecState::TextBlock(t@),
            State::SelfClosingElement => SpecState::SelfClosingElement,
            State::ClosingElement { name_checked } => SpecState::ClosingElement {
                name_checked: *name_checked,
            },
        }
    }
}

/// The state of an element tag that has just been opened.
pub open spec fn opened_element(name: Seq<char>) -> SpecState {
    SpecState::Element {
        name,
        attributes: Seq::empty(),
        current_attribute_name: None,
        equals_found: false,
        quotation_mark_found: false,
        current_attribute_text: Seq::empty(),
    }
}

/// What one token does to the parser: the new state, the new list of names of the open
/// elements, and what is reported, if anything.
pub open spec fn spec_process(s: SpecState, names: Seq<Seq<char>>, t: SpecToken) -> (
    SpecState,
    Seq<Seq<char>>,
    Option<Result<SpecItem, SpecParserError>>,
) {
    let invalid = Some(Err(SpecParserError::InvalidToken(t)));
    match s {
        SpecState::Start { found_declaration, found_start_tag } => {
            if !found_start_tag {
                match t {
                    SpecToken::Whitespace(_) => (s, names, None),
                    SpecToken::StartTag => (
                        SpecState::Start { found_declaration, found_start_tag: true },
                        names,
                        None,
                    ),
                    _ => (s, names, invalid),
                }
            } else {
                match t {
                    SpecToken::QuestionMark => if !found_declaration {
                        (SpecState::Declaration { found_ending_question_mark: false }, names, None)
                    } else {
                        (s, names, invalid)
                    },
                    SpecToken::Word(name) => (opened_element(name), names, None),
                    _ => (s, names, invalid),
                }
            }
        },
        SpecState::Declaration { found_ending_question_mark } => {
            if !found_ending_question_mark {
                match t {
                    SpecToken::QuestionMark => (
                        SpecState::Declaration { found_ending_question_mark: true },
                        names,
                        None,
                    ),
                    _ => (s, names, None),
                }
            } else {
                match t {
                    SpecToken::EndTag => (
                        SpecState::Start { found_declaration: true, found_start_tag: false },
                        names,
                        None,
                    ),
                    _ => (s, names, invalid),
                }
            }
        },
        SpecState::StartTagFoundAfterRoot => match t {
            SpecToken::Word(name) => if names.len() > 0 {
                (opened_element(name), names, None)
            } else {
                (s, names, Some(Err(SpecParserError::MultipleRootElements)))
            },
            SpecToken::Slash => (SpecState::ClosingElement { name_checked: false }, names, None),
            _ => (s, names, invalid),
        },
        SpecState::Element {
            name,
            attributes,
            current_attribute_name,
            equals_found,
            quotation_mark_found,
            current_attribute_text,
        } => match current_attribute_name {
            None => match t {
                SpecToken::Whitespace(_) => (s, names, None),
                SpecToken::EndTag => (
                    SpecState::Neutral,
                    names.push(name),
                    Some(Ok(SpecItem::Element { name, attributes })),
                ),
                SpecToken::Word(attribute_name) => (
                    SpecState::Element {
                        name,
                        attributes,
                        current_attribute_name: Some(attribute_name),
                        equals_found: false,
                        quotation_mark_found: false,
                        current_attribute_text,
                    },
                    names,
                    None,
                ),
                SpecToken::Slash => (
                    SpecState::SelfClosingElement,
                    names,
                    Some(Ok(SpecItem::Element { name, attributes })),
                ),
                _ => (s, names, invalid),
            },
            Some(attribute_name) => if !equals_found {
                match t {
                    SpecToken::Equals => (
                        SpecState::Element {
                            name,
                            attributes,
                            current_attribute_name: Some(attribute_name),
                            equals_found: true,
                            quotation_mark_found: false,
                            current_attribute_text,
                        },
                        names,
                        None,
                    ),
                    _ => (s, names, invalid),
                }
            } else if !quotation_mark_found {
                match t {
                    SpecToken::QuotationMark => (
                        SpecState::Element {
                            name,
                            attributes,
                            current_attribute_name: Some(attribute_name),
                            equals_found: true,
                            quotation_mark_found: true,
                            current_attribute_text,
                        },
                        names,
                        None,
                    ),
                    _ => (s, names, invalid),
                }
            } else {
                match t {
                    SpecToken::QuotationMark => (
                        SpecState::Element {
                            name,
                            attributes: attributes.push((attribute_name, current_attribute_text)),
                            current_attribute_name: None,
                            equals_found: false,
                            quotation_mark_found: false,
                            current_attribute_text: Seq::empty(),
                        },
                        names,
                        None,
                    ),
                    SpecToken::StartTag => (s, names, invalid),
                    _ => (
                        SpecState::Element {
                            name,
                            attributes,
                            current_attribute_name: Some(attribute_name),
                            equals_found: true,
                            quotation_mark_found: true,
                            current_attribute_text: current_attribute_text + token_text(t),
                        },
                        names,
                        None,
                    ),
                }
            },
        },
        SpecState::Neutral => match t {
            SpecToken::StartTag => (SpecState::StartTagFoundAfterRoot, names, None),
            _ => if names.len() == 0 {
                (SpecState::Neutral, names, None)
            } else {
                (SpecState::TextBlock(token_text(t)), names, None)
            },
        },
        SpecState::TextBlock(text) => match t {
            SpecToken::StartTag => (
                SpecState::StartTagFoundAfterRoot,
                names,
                Some(Ok(SpecItem::Text(text))),
            ),
            _ => (SpecState::TextBlock(text + token_text(t)), names, None),
        },
        SpecState::SelfClosingElement => match t {
            SpecToken::EndTag => (
                SpecState::Neutral,
                names,
                Some(Ok(SpecItem::EndCurrentElement)),
            ),
            _ => (s, names, invalid),
        },
        SpecState::ClosingElement { name_checked } => {
            if !name_checked {
                match t {
                    SpecToken::Word(name) => if names.len() > 0 {
                        let expected = names.last();
                        if expected == name {
                            (
                                SpecState::ClosingElement { name_checked: true },
                                names.drop_last(),
                                None,
                            )
                        } else {
                            (
                                s,
                                names.drop_last(),
                                Some(
                                    Err(
                                        SpecParserError::ElementsClosedOutOfOrder {
                                            correct: expected,
                                            found: name,
                                        },
                                    ),
                                ),
                            )
                        }
                    } else {
                        (
                            s,
                            names,
                            Some(Err(SpecParserError::ElementClosedAfterRootElementClosed(name))),
                        )
                    },
                    _ => (s, names, invalid),
                }
            } else {
                match t {
                    SpecToken::EndTag => (
                        SpecState::Neutral,
                        names,
                        Some(Ok(SpecItem::EndCurrentElement)),
                    ),
                    SpecToken::Whitespace(_) => (s, names, None),
                    _ => (s, names, invalid),
                }
            }
        },
    }
}

/// What the end of the tokens means in a given state: fine only between tags or inside text
/// after every element was closed.
pub open spec fn spec_end(s: SpecState, names: Seq<Seq<char>>) -> Result<(), SpecParserError> {
    match s {
        SpecState::Start { found_start_tag, .. } => if !found_start_tag {
            Err(SpecParserError::NoRootElement)
        } else {
            Err(SpecParserError::FileCutShortAbruptlyDuringTag)
        },
        SpecState::Declaration { .. } => Err(
            SpecParserError::FileCutShortAbruptlyDuringXMLDeclaration,
        ),
        SpecState::Neutral => if names.len() == 0 {
            Ok(())
        } else {
            Err(SpecParserError::ElementNotClosed)
        },
        SpecState::TextBlock(_) => if names.len() == 0 {
            Ok(())
        } else {
            Err(SpecParserError::ElementNotClosed)
        },
        _ => Err(SpecParserError::FileCutShortAbruptlyDuringTag),
    }
}

} // verus!

verus! {

/// An XML reader that yields the elements, text blocks and element ends of an XML text.
#[derive(Debug)]
pub struct ParsedXml {
    /// The tokens that are still to be read.
    pub tokens: TokenisedXml,
    // The names of the elements that are open, innermost last.
    names: Vec<String>,
    // Where the parser is within the text.
    state: State,
    // Set once the reader has reported the end of the text or an error.
    is_done: bool,
}

/// The mathematical value of a [`ParsedXml`].
#[verifier::ext_equal]
pub struct SpecParsedXml {
    pub tokens: Seq<Result<SpecToken, SpecParserError>>,
    pub names: Seq<Seq<char>>,
    pub state: SpecState,
    pub is_done: bool,
}

/// The mathematical value of a list of names.
pub open spec fn names_view(names: Vec<String>) -> Seq<Seq<char>> {
    names@.map_values(|s: String| s@)
}

impl View for ParsedXml {
    type V = SpecParsedXml;

    closed spec fn view(&self) -> SpecParsedXml {
        SpecParsedXml {
            tokens: self.tokens@,
            names: names_view(self.names),
            state: self.state@,
            is_done: self.is_done,
        }
    }
}

/// A reader that has read nothing yet from the given tokens.
pub open spec fn initial_parser(tokens: Seq<Result<SpecToken, SpecParserError>>) -> SpecParsedXml {
    SpecParsedXml {
        tokens,
        names: Seq::empty(),
        state: SpecState::Start { found_declaration: false, found_start_tag: false },
        is_done: false,
    }
}

/// The mathematical value of an optional result of reading.
pub open spec fn end_view(r: Result<(), ParserError>) -> Result<(), SpecParserError> {
    match r {
        Ok(()) => Ok(()),
        Err(e) => Err(e@),
    }
}

/// What one call of [`ParsedXml::next`] does: the reader afterwards, and what it returns.
///
/// Tokens that complete no item are consumed silently; a read failure, an invalid token or the
/// end of the tokens in the wrong place is reported once, after which the reader is done and
/// returns nothing more.
pub open spec fn spec_next(p: SpecParsedXml) -> (
    SpecParsedXml,
    Option<Result<SpecItem, SpecParserError>>,
)
    decreases p.tokens.len(),
{
    if p.is_done {
        (p, None)
    } else if p.tokens.len() == 0 {
        let q = SpecParsedXml { tokens: p.tokens, names: p.names, state: p.state, is_done: true };
        match spec_end(p.state, p.names) {
            Ok(()) => (q, None),
            Err(e) => (q, Some(Err(e))),
        }
    } else {
        let rest = p.tokens.drop_first();
        match p.tokens[0] {
            Err(e) => (
                SpecParsedXml { tokens: rest, names: p.names, state: p.state, is_done: true },
                Some(Err(e)),
            ),
            Ok(t) => {
                let (s, n, o) = spec_process(p.state, p.names, t);
                let q = SpecParsedXml { tokens: rest, names: n, state: s, is_done: false };
                match o {
                    None => spec_next(q),
                    Some(Ok(i)) => (q, Some(Ok(i))),
                    Some(Err(e)) => (
                        SpecParsedXml { tokens: rest, names: n, state: s, is_done: true },
                        Some(Err(e)),
                    ),
                }
            },
        }
    }
}

impl ParsedXml {
    /// Returns the next item of the XML, `Some(Err(e))` when an error is found, and `None` at
    /// the end. After an error or the end, it returns `None` for good.
    pub fn next(&mut self) -> (r: Option<Result<Item, ParserError>>)
        ensures
            (final(self)@, outcome_view(r)) == spec_next(old(self)@),
    {
        loop
            invariant
                spec_next(self@) == spec_next(old(self)@),
            decreases self.tokens@.len(),
        {
            if self.is_done {
                return None;
            }
            match self.tokens.next() {
                Some(Ok(t)) => match self.process_token(t) {
                    Some(Ok(i)) => return Some(Ok(i)),
                    Some(Err(e)) => {
                        self.is_done = true;
                        return Some(Err(e));
                    },
                    None => {},
                },
                Some(Err(e)) => {
                    self.is_done = true;
                    return Some(Err(e));
                },
                None => {
                    self.is_done = true;
                    return match self.handle_no_more_tokens() {
                        Ok(()) => None,
                        Err(e) => Some(Err(e)),
                    };
                },
            }
        }
    }

    /// Reports whether the end of the tokens is fine where the reader stands.
    fn handle_no_more_tokens(&self) -> (r: Result<(), ParserError>)
        ensures
            end_view(r) == spec_end(self.state@, names_view(self.names)),
    {
        match self.state {
            State::Start { found_start_tag, .. } => {
                if !found_start_tag {
                    Err(ParserError::NoRootElement)
                } else {
                    Err(ParserError::FileCutShortAbruptlyDuringTag)
                }
            },
            State::Declaration { .. } => Err(ParserError::FileCutShortAbruptlyDuringXMLDeclaration),
            State::StartTagFoundAfterRoot => Err(ParserError::FileCutShortAbruptlyDuringTag),
            State::Element { .. } => Err(ParserError::FileCutShortAbruptlyDuringTag),
            State::Neutral => {
                if self.names.len() == 0 {
                    Ok(())
                } else {
                    Err(ParserError::ElementNotClosed)
                }
            },
            State::TextBlock(_) => {
                if self.names.len() == 0 {
                    Ok(())
                } else {
                    Err(ParserError::ElementNotClosed)
                }
            },
            State::SelfClosingElement => Err(ParserError::FileCutShortAbruptlyDuringTag),
            State::ClosingElement { .. } => Err(ParserError::FileCutShortAbruptlyDuringTag),
        }
    }

    /// Creates a reader over the given tokens.
    pub fn new(tokens: TokenisedXml) -> (xml: Self)
        ensures
            xml@ == initial_parser(tokens@),
    {
        let xml = ParsedXml {
            tokens,
            names: Vec::new(),
            state: State::Start { found_declaration: false, found_start_tag: false },
            is_done: false,
        };
        assert(names_view(xml.names) =~= Seq::empty());
        xml
    }

    /// Applies one token to the state of the reader.
    fn process_token(&mut self, token: Token) -> (r: Option<Result<Item, ParserError>>)
        ensures
            ({
                let (s, n, o) = spec_process(old(self).state@, names_view(old(self).names), token@);
                &&& final(self).state@ == s
                &&& names_view(final(self).names) == n
                &&& outcome_view(r) == o
            }),
            final(self).tokens == old(self).tokens,
            final(self).is_done == old(self).is_done,
    {
        let ghost old_names = names_view(self.names);
        let mut state = State::Neutral;
        std::mem::swap(&mut state, &mut self.state);
        let (new_state, result): (State, Option<Result<Item, ParserError>>) = match state {
            State::Start { found_declaration, found_start_tag } => {
                if !found_start_tag {
                    match token {
                        Token::Whitespace(c) => (State::Start { found_declaration, found_start_tag }, None),
                        Token::StartTag => (
                            State::Start { found_declaration, found_start_tag: true },
                            None,
                        ),
                        t => (
                            State::Start { found_declaration, found_start_tag },
                            Some(Err(ParserError::InvalidToken(t))),
                        ),
                    }
                } else {
                    match token {
                        Token::QuestionMark => if !found_declaration {
                            (State::Declaration { found_ending_question_mark: false }, None)
                        } else {
                            (
                                State::Start { found_declaration, found_start_tag },
                                Some(Err(ParserError::InvalidToken(Token::QuestionMark))),
                            )
                        },
                        Token::Word(name) => (Self::opened_element(name), None),
                        t => (
                            State::Start { found_declaration, found_start_tag },
                            Some(Err(ParserError::InvalidToken(t))),
                        ),
                    }
                }
            },
            State::Declaration { found_ending_question_mark } => {
                if !found_ending_question_mark {
                    match token {
                        Token::QuestionMark => (
                            State::Declaration { found_ending_question_mark: true },
                            None,
                        ),
                        _ => (State::Declaration { found_ending_question_mark }, None),
                    }
                } else {
                    match token {
                        Token::EndTag => (
                            State::Start { found_declaration: true, found_start_tag: false },
                            None,
                        ),
                        t => (
                            State::Declaration { found_ending_question_mark },
                            Some(Err(ParserError::InvalidToken(t))),
                        ),
                    }
                }
            },
            State::StartTagFoundAfterRoot => match token {
                Token::Word(name) => {
                    if self.names.len() > 0 {
                        (Self::opened_element(name), None)
                    } else {
                        (State::StartTagFoundAfterRoot, Some(Err(ParserError::MultipleRootElements)))
                    }
                },
                Token::Slash => (State::ClosingElement { name_checked: false }, None),
                t => (State::StartTagFoundAfterRoot, Some(Err(ParserError::InvalidToken(t)))),
            },
            State::Element {
                name,
                attributes,
                current_attribute_name,
                equals_found,
                quotation_mark_found,
                current_attribute_text,
            } => match current_attribute_name {
                None => match token {
                    Token::Whitespace(c) => (
                        State::Element {
                            name,
                            attributes,
                            current_attribute_name: None,
                            equals_found,
                            quotation_mark_found,
                            current_attribute_text,
                        },
                        None,
                    ),
                    Token::EndTag => {
                        self.names.push(name.clone());
                        (State::Neutral, Some(Ok(Item::Element { name, attributes })))
                    },
                    Token::Word(attribute_name) => (
                        State::Element {
                            name,
                            attributes,
                            current_attribute_name: Some(attribute_name),
                            equals_found: false,
                            quotation_mark_found: false,
                            current_attribute_text,
                        },
                        None,
                    ),
                    Token::Slash => (
                        State::SelfClosingElement,
                        Some(Ok(Item::Element { name, attributes })),
                    ),
                    t => (
                        State::Element {
                            name,
                            attributes,
                            current_attribute_name: None,
                            equals_found,
                            quotation_mark_found,
                            current_attribute_text,
                        },
                        Some(Err(ParserError::InvalidToken(t))),
                    ),
                },
                Some(attribute_name) => {
                    if !equals_found {
                        match token {
                            Token::Equals => (
                                State::Element {
                                    name,
                                    attributes,
                                    current_attribute_name: Some(attribute_name),
                                    equals_found: true,
                                    quotation_mark_found: false,
                                    current_attribute_text,
                                },
                                None,
                            ),
                            t => (
                                State::Element {
                                    name,
                                    attributes,
                                    current_attribute_name: Some(attribute_name),
                                    equals_found,
                                    quotation_mark_found,
                                    current_attribute_text,
                                },
                                Some(Err(ParserError::InvalidToken(t))),
                            ),
                        }
                    } else if !quotation_mark_found {
                        match token {
                            Token::QuotationMark => (
                                State::Element {
                                    name,
                                    attributes,
                                    current_attribute_name: Some(attribute_name),
                                    equals_found: true,
                                    quotation_mark_found: true,
                                    current_attribute_text,
                                },
                                None,
                            ),
                            t => (
                                State::Element {
                                    name,
                                    attributes,
                                    current_attribute_name: Some(attribute_name),
                                    equals_found,
                                    quotation_mark_found,
                                    current_attribute_text,
                                },
                                Some(Err(ParserError::InvalidToken(t))),
                            ),
                        }
                    } else {
                        match token {
                            Token::QuotationMark => {
                                let mut attributes = attributes;
                                let ghost before = attributes_view(attributes);
                                let ghost pair = (attribute_name@, current_attribute_text@);
                                attributes.push((attribute_name, current_attribute_text));
                                assert(attributes_view(attributes) =~= before.push(pair));
                                (
                                    State::Element {
                                        name,
                                        attributes,
                                        current_attribute_name: None,
                                        equals_found: false,
                                        quotation_mark_found: false,
                                        current_attribute_text: String::new(),
                                    },
                                    None,
                                )
                            },
                            Token::StartTag => (
                                State::Element {
                                    name,
                                    attributes,
                                    current_attribute_name: Some(attribute_name),
                                    equals_found,
                                    quotation_mark_found,
                                    current_attribute_text,
                                },
                                Some(Err(ParserError::InvalidToken(Token::StartTag))),
                            ),
                            t => {
                                let mut text = current_attribute_text;
                                t.append_to(&mut text);
                                (
                                    State::Element {
                                        name,
                                        attributes,
                                        current_attribute_name: Some(attribute_name),
                                        equals_found: true,
                                        quotation_mark_found: true,
                                        current_attribute_text: text,
                                    },
                                    None,
                                )
                            },
                        }
                    }
                },
            },
            State::Neutral => match token {
                Token::StartTag => (State::StartTagFoundAfterRoot, None),
                t => {
                    if self.names.len() == 0 {
                        // Text after the root element is ignored.
                        (State::Neutral, None)
                    } else {
                        let mut text = String::new();
                        t.append_to(&mut text);
                        (State::TextBlock(text), None)
                    }
                },
            },
            State::TextBlock(text) => match token {
                Token::StartTag => (State::StartTagFoundAfterRoot, Some(Ok(Item::Text(text)))),
                t => {
                    let mut text = text;
                    t.append_to(&mut text);
                    (State::TextBlock(text), None)
                },
            },
            State::SelfClosingElement => match token {
                Token::EndTag => (State::Neutral, Some(Ok(Item::EndCurrentElement))),
                t => (State::SelfClosingElement, Some(Err(ParserError::InvalidToken(t)))),
            },
            State::ClosingElement { name_checked } => {
                if !name_checked {
                    match token {
                        Token::Word(name) => match self.names.pop() {
                            Some(expected) => {
                                if expected == name {
                                    (State::ClosingElement { name_checked: true }, None)
                                } else {
                                    (
                                        State::ClosingElement { name_checked },
                                        Some(
                                            Err(
                                                ParserError::ElementsClosedOutOfOrder {
                                                    correct: expected,
                                                    found: name,
                                                },
                                            ),
                                        ),
                                    )
                                }
                            },
                            None => (
                                State::ClosingElement { name_checked },
                                Some(Err(ParserError::ElementClosedAfterRootElementClosed(name))),
                            ),
                        },
                        t => (
                            State::ClosingElement { name_checked },
                            Some(Err(ParserError::InvalidToken(t))),
                        ),
                    }
                } else {
                    match token {
                        Token::EndTag => (State::Neutral, Some(Ok(Item::EndCurrentElement))),
                        Token::Whitespace(c) => (State::ClosingElement { name_checked }, None),
                        t => (
                            State::ClosingElement { name_checked },
                            Some(Err(ParserError::InvalidToken(t))),
                        ),
                    }
                }
            },
        };
        self.state = new_state;
        proof {
            let n = names_view(self.names);
            if self.names@.len() == old(self).names@.len() + 1 {
                assert(n =~= old_names.push(n.last()));
            } else if self.names@.len() + 1 == old(self).names@.len() {
                assert(n =~= old_names.drop_last());
            } else {
                assert(n =~= old_names);
            }
        }
        result
    }

    /// The state of an element tag that has just been opened.
    fn opened_element(name: String) -> (s: State)
        ensures
            s@ == opened_element(name@),
    {
        let attributes: Vec<(String, String)> = Vec::new();
        assert(attributes_view(attributes) =~= Seq::<(Seq<char>, Seq<char>)>::empty());
        let s = State::Element {
            name,
            attributes,
            current_attribute_name: None,
            equals_found: false,
            quotation_mark_found: false,
            current_attribute_text: String::new(),
        };
        s
    }
}

} // verus!

verus! {

/// How many elements are open where the reader stands: the names of the open elements, plus
/// the element whose end has been read up to its closing `>`.
pub open spec fn depth(p: SpecParsedXml) -> int {
    p.names.len() + match p.state {
        SpecState::SelfClosingElement => 1int,
        SpecState::ClosingElement { name_checked } => if name_checked {
            1int
        } else {
            0int
        },
        _ => 0int,
    }
}

/// A bound on how many more items a reader can return.
pub open spec fn remaining_work(p: SpecParsedXml) -> nat {
    2 * p.tokens.len() + if p.is_done {
        0nat
    } else {
        1nat
    }
}

/// How an item changes the number of open elements.
pub open spec fn depth_change(i: SpecItem) -> int {
    match i {
        SpecItem::Element { .. } => 1,
        SpecItem::EndCurrentElement => -1,
        SpecItem::Text(_) => 0,
    }
}

/// Each call of `next` that returns an item consumes at least one token, and changes the
/// number of open elements by what the item says: an element opens one, an element end closes
/// one that was open, and text leaves the count as it was. A call that returns nothing while the
/// reader was not yet done means that every element was closed.
pub proof fn lemma_next_depth(p: SpecParsedXml)
    ensures
        spec_next(p).0.tokens.len() <= p.tokens.len(),
        spec_next(p).1 matches Some(Ok(i)) ==> {
            &&& spec_next(p).0.tokens.len() < p.tokens.len()
            &&& depth(spec_next(p).0) == depth(p) + depth_change(i)
            &&& i is EndCurrentElement ==> depth(p) > 0
            &&& !spec_next(p).0.is_done
        },
        spec_next(p).1 is None && !p.is_done ==> depth(p) == 0 && depth(spec_next(p).0) == 0
            && spec_next(p).0.is_done,
        spec_next(p).1 is Some ==> (spec_next(p).1 matches Some(Err(_)) <==> spec_next(p).0.is_done),
        spec_next(p).1 is Some ==> remaining_work(spec_next(p).0) < remaining_work(p),
        spec_next(p).1 is None ==> spec_next(p).0.is_done,
    decreases p.tokens.len(),
{
    if !p.is_done && p.tokens.len() > 0 {
        if let Ok(t) = p.tokens[0] {
            let (s, n, o) = spec_process(p.state, p.names, t);
            let q = SpecParsedXml { tokens: p.tokens.drop_first(), names: n, state: s, is_done: false };
            if o is None {
                assert(depth(q) == depth(p));
                lemma_next_depth(q);
            }
        }
    }
}

/// What [`ParsedXml::skip_current_element`] does, starting with `d` elements to leave.
pub open spec fn spec_skip(p: SpecParsedXml, d: int) -> (SpecParsedXml, Result<(), SpecParserError>)
    decreases p.tokens.len(),
{
    proof {
        lemma_next_depth(p);
    }
    let (q, o) = spec_next(p);
    match o {
        Some(Ok(i)) => if d + depth_change(i) == 0 {
            (q, Ok(()))
        } else {
            spec_skip(q, d + depth_change(i))
        },
        Some(Err(e)) => (q, Err(e)),
        None => (q, Ok(())),
    }
}

impl ParsedXml {
    /// Skips to the end of the element currently being looked at by the parser.
    /// If the parser is outside the root element, skips to the very end of the file.
    pub fn skip_current_element(&mut self) -> (r: Result<(), ParserError>)
        ensures
            (final(self)@, end_view(r)) == spec_skip(old(self)@, 1),
    {
        // Wide enough for any depth, since the depth never exceeds the number of open elements.
        let mut current_depth: u128 = 1;
        let ghost start_depth = depth(self@);
        assert(start_depth >= 0);
        loop
            invariant
                spec_skip(self@, current_depth as int) == spec_skip(old(self)@, 1),
                current_depth >= 1,
                current_depth == 1 + depth(self@) - start_depth,
                start_depth >= 0,
            decreases self.tokens@.len(),
        {
            let ghost before = self@;
            proof {
                lemma_next_depth(before);
            }
            let item = self.next();
            assert(self.names.len() == self.names@.len());
            match item {
                Some(Ok(Item::Element { .. })) => current_depth = current_depth + 1,
                Some(Ok(Item::EndCurrentElement)) => current_depth = current_depth - 1,
                Some(Ok(_)) => {},
                Some(Err(e)) => return Err(e),
                None => return Ok(()),
            }
            if current_depth == 0 {
                return Ok(());
            }
        }
    }
}

} // verus!

verus! {

/// How many elements a sequence of items leaves open: elements opened minus elements ended.
pub open spec fn nesting(items: Seq<SpecItem>) -> int
    decreases items.len(),
{
    if items.len() == 0 {
        0
    } else {
        nesting(items.drop_last()) + depth_change(items.last())
    }
}

/// Whether the reader's state fits with whether an element has been opened yet: before the
/// root element no name is recorded, and the states between tags come only after it.
pub open spec fn state_fits(p: SpecParsedXml, opened: bool) -> bool {
    match p.state {
        SpecState::Start { .. } => !opened && p.names.len() == 0,
        SpecState::Declaration { .. } => !opened && p.names.len() == 0,
        SpecState::Element { .. } => if opened {
            p.names.len() > 0
        } else {
            p.names.len() == 0
        },
        _ => opened,
    }
}

/// Whether every token of a stream stands for at least one character.
pub open spec fn tokens_nonempty(tokens: Seq<Result<SpecToken, SpecParserError>>) -> bool {
    forall|k: int|
        0 <= k < tokens.len() ==> (#[trigger] tokens[k] matches Ok(t) ==> token_text(t).len() > 0)
}

/// Whether a block of text being read is non-empty and lies inside an open element.
pub open spec fn text_fits(p: SpecParsedXml) -> bool {
    p.state matches SpecState::TextBlock(text) ==> text.len() > 0 && p.names.len() > 0
}

/// A reader that has returned `items` so far, without error: its state fits, the number of
/// elements it holds open is the number that `items` leaves open, its tokens each stand for some
/// text, and a block of text being read is non-empty and inside an element.
pub open spec fn well_nested(p: SpecParsedXml, items: Seq<SpecItem>) -> bool {
    &&& state_fits(p, items.len() > 0)
    &&& depth(p) == nesting(items)
    &&& tokens_nonempty(p.tokens)
    &&& text_fits(p)
}

proof fn lemma_next_fits(p: SpecParsedXml, opened: bool)
    requires
        state_fits(p, opened),
        tokens_nonempty(p.tokens),
        text_fits(p),
        !p.is_done,
    ensures
        tokens_nonempty(spec_next(p).0.tokens),
        text_fits(spec_next(p).0),
        spec_next(p).1 matches Some(Ok(i)) ==> {
            &&& state_fits(spec_next(p).0, true)
            &&& (i is Element && opened) ==> depth(p) > 0
            &&& !(i is Element) ==> opened
            &&& i matches SpecItem::Text(text) ==> text.len() > 0 && depth(p) > 0
        },
        spec_next(p).1 is None ==> opened,
    decreases p.tokens.len(),
{
    if p.tokens.len() > 0 {
        let rest = p.tokens.drop_first();
        assert(tokens_nonempty(rest)) by {
            assert forall|k: int| 0 <= k < rest.len() implies (#[trigger] rest[k] matches Ok(t)
                ==> token_text(t).len() > 0) by {
                assert(rest[k] == p.tokens[k + 1]);
            }
        }
        if let Ok(t) = p.tokens[0] {
            assert(token_text(t).len() > 0);
            let (s, n, o) = spec_process(p.state, p.names, t);
            let q = SpecParsedXml { tokens: rest, names: n, state: s, is_done: false };
            if o is None {
                assert(state_fits(q, opened));
                assert(depth(q) == depth(p));
                assert(text_fits(q));
                lemma_next_fits(q, opened);
            }
        }
    }
}

/// A fresh reader over tokens that each stand for some text is well nested, with nothing
/// returned yet.
pub proof fn law_fresh_reader_well_nested(tokens: Seq<Result<SpecToken, SpecParserError>>)
    requires
        tokens_nonempty(tokens),
    ensures
        well_nested(initial_parser(tokens), Seq::empty()),
{
}

/// Reading keeps the XML well nested. If a reader that is not done has returned `items`
/// without error and is well nested, then what `next` returns next keeps it so:
/// an element end only ever closes an element that is open; an element is only opened at the
/// outermost level when it is the first (root) element, and the first item is that element; a
/// text block is non-empty and lies inside an element; once the root element has been closed, no
/// further item comes; and the reader ends without an error only once every element it opened is
/// closed and after the root element was read.
pub proof fn law_reading_keeps_nesting(p: SpecParsedXml, items: Seq<SpecItem>)
    requires
        well_nested(p, items),
        !p.is_done,
    ensures
        spec_next(p).1 matches Some(Ok(i)) ==> {
            &&& well_nested(spec_next(p).0, items.push(i))
            &&& !spec_next(p).0.is_done
            &&& i is EndCurrentElement ==> nesting(items) > 0
            &&& (i is Element && items.len() > 0) ==> nesting(items) > 0
            &&& items.len() == 0 ==> i is Element
            &&& i matches SpecItem::Text(text) ==> text.len() > 0 && nesting(items) > 0
            &&& items.len() > 0 ==> nesting(items) > 0
        },
        spec_next(p).1 is None ==> nesting(items) == 0 && items.len() > 0,
{
    lemma_next_depth(p);
    lemma_next_fits(p, items.len() > 0);
    if let Some(Ok(i)) = spec_next(p).1 {
        let its = items.push(i);
        assert(its.drop_last() =~= items);
    }
}

/// Once the reader has reported the end of the XML or an error, it stays done and returns
/// nothing more.
pub proof fn law_reader_stays_done(p: SpecParsedXml)
    ensures
        (spec_next(p).1 is None || spec_next(p).1 matches Some(Err(_))) ==> spec_next(
            spec_next(p).0,
        ) == (spec_next(p).0, None::<Result<SpecItem, SpecParserError>>),
{
    lemma_next_depth(p);
}

proof fn lemma_skip_depth(p: SpecParsedXml, d: int)
    requires
        d >= 1,
    ensures
        spec_skip(p, d).1 is Ok ==> depth(spec_skip(p, d).0) == depth(p) - d || spec_skip(
            p,
            d,
        ).0.is_done,
    decreases p.tokens.len(),
{
    lemma_next_depth(p);
    let (q, o) = spec_next(p);
    if let Some(Ok(i)) = o {
        if d + depth_change(i) != 0 {
            lemma_skip_depth(q, d + depth_change(i));
        }
    }
}

/// Skipping the current element without an error leaves the reader one element shallower than
/// it was, just after that element's end; or, outside the root element, at the end of the XML.
pub proof fn law_skip_leaves_element(p: SpecParsedXml)
    ensures
        spec_skip(p, 1).1 is Ok ==> depth(spec_skip(p, 1).0) == depth(p) - 1 || spec_skip(
            p,
            1,
        ).0.is_done,
{
    lemma_skip_depth(p, 1);
}

/// Every token that the tokeniser yields from a text stands for at least one character, so a
/// reader over them starts well nested.
pub proof fn law_tokenised_text_nonempty(text: Seq<char>, failure: Option<Seq<char>>)
    ensures
        tokens_nonempty(token_stream(text, 0, failure)),
{
    law_tokens_well_formed(text);
    let ts = token_stream(text, 0, failure);
    let tokens = spec_tokens(text);
    assert forall|k: int| 0 <= k < ts.len() implies (#[trigger] ts[k] matches Ok(t)
        ==> token_text(t).len() > 0) by {
        if k < tokens.len() {
            assert(ts[k] == Ok::<SpecToken, SpecParserError>(tokens[k]));
            assert(well_formed_token(tokens[k]));
        }
    }
}

/// The state inside a quoted attribute value, with the text read of it so far.
pub open spec fn in_attribute_value(
    name: Seq<char>,
    attributes: Seq<(Seq<char>, Seq<char>)>,
    attribute_name: Seq<char>,
    text: Seq<char>,
) -> SpecState {
    SpecState::Element {
        name,
        attributes,
        current_attribute_name: Some(attribute_name),
        equals_found: true,
        quotation_mark_found: true,
        current_attribute_text: text,
    }
}

/// Tokens as entries of a token stream.
pub open spec fn entries(tokens: Seq<SpecToken>) -> Seq<Result<SpecToken, SpecParserError>> {
    tokens.map_values(|t: SpecToken| Ok::<SpecToken, SpecParserError>(t))
}

proof fn lemma_attribute_value(
    names: Seq<Seq<char>>,
    name: Seq<char>,
    attributes: Seq<(Seq<char>, Seq<char>)>,
    attribute_name: Seq<char>,
    text: Seq<char>,
    value: Seq<SpecToken>,
    after: Seq<Result<SpecToken, SpecParserError>>,
)
    requires
        forall|k: int|
            0 <= k < value.len() ==> !(#[trigger] value[k] is QuotationMark) && !(value[k] is StartTag),
    ensures
        spec_next(
            SpecParsedXml {
                tokens: entries(value) + after,
                names,
                state: in_attribute_value(name, attributes, attribute_name, text),
                is_done: false,
            },
        ) == spec_next(
            SpecParsedXml {
                tokens: after,
                names,
                state: in_attribute_value(name, attributes, attribute_name, text + tokens_text(value)),
                is_done: false,
            },
        ),
    decreases value.len(),
{
    if value.len() == 0 {
        assert(entries(value) + after =~= after);
        assert(text + tokens_text(value) =~= text);
    } else {
        let t = value[0];
        let rest = value.drop_first();
        assert((entries(value) + after)[0] == Ok::<SpecToken, SpecParserError>(t));
        assert((entries(value) + after).drop_first() =~= entries(rest) + after);
        assert forall|k: int| 0 <= k < rest.len() implies !(#[trigger] rest[k] is QuotationMark)
            && !(rest[k] is StartTag) by {
            assert(rest[k] == value[k + 1]);
        }
        lemma_attribute_value(
            names,
            name,
            attributes,
            attribute_name,
            text + token_text(t),
            rest,
            after,
        );
        assert(text + token_text(t) + tokens_text(rest) =~= text + tokens_text(value));
    }
}

/// The value of an attribute is the exact text between its quotation marks, whitespace
/// included: a self-closing element `<name attribute="value"/>` is returned with that attribute,
/// whose value is the text of every token between the quotation marks.
pub proof fn law_attribute_value_is_quoted_text(
    name: Seq<char>,
    attribute_name: Seq<char>,
    value: Seq<SpecToken>,
    rest: Seq<Result<SpecToken, SpecParserError>>,
)
    requires
        forall|k: int|
            0 <= k < value.len() ==> !(#[trigger] value[k] is QuotationMark) && !(value[k] is StartTag),
    ensures
        spec_next(
            initial_parser(
                seq![
                    Ok(SpecToken::StartTag),
                    Ok(SpecToken::Word(name)),
                    Ok(SpecToken::Whitespace(' ')),
                    Ok(SpecToken::Word(attribute_name)),
                    Ok(SpecToken::Equals),
                    Ok(SpecToken::QuotationMark),
                ] + entries(value) + seq![Ok(SpecToken::QuotationMark), Ok(SpecToken::Slash)]
                    + rest,
            ),
        ).1 == Some(
            Ok::<SpecItem, SpecParserError>(
                SpecItem::Element {
                    name,
                    attributes: seq![(attribute_name, tokens_text(value))],
                },
            ),
        ),
{
    let after: Seq<Result<SpecToken, SpecParserError>> = seq![
        Ok(SpecToken::QuotationMark),
        Ok(SpecToken::Slash),
    ] + rest;
    let head: Seq<Result<SpecToken, SpecParserError>> = seq![
        Ok(SpecToken::StartTag),
        Ok(SpecToken::Word(name)),
        Ok(SpecToken::Whitespace(' ')),
        Ok(SpecToken::Word(attribute_name)),
        Ok(SpecToken::Equals),
        Ok(SpecToken::QuotationMark),
    ];
    let tail = entries(value) + after;
    let all = head + entries(value) + seq![Ok(SpecToken::QuotationMark), Ok(SpecToken::Slash)]
        + rest;
    assert(all =~= head + tail);
    let empty: Seq<(Seq<char>, Seq<char>)> = Seq::empty();
    let names: Seq<Seq<char>> = Seq::empty();
    let p0 = initial_parser(all);
    let p1 = SpecParsedXml {
        tokens: all.drop_first(),
        names,
        state: SpecState::Start { found_declaration: false, found_start_tag: true },
        is_done: false,
    };
    let p2 = SpecParsedXml {
        tokens: p1.tokens.drop_first(),
        names,
        state: opened_element(name),
        is_done: false,
    };
    let p3 = SpecParsedXml {
        tokens: p2.tokens.drop_first(),
        names,
        state: opened_element(name),
        is_done: false,
    };
    let p4 = SpecParsedXml {
        tokens: p3.tokens.drop_first(),
        names,
        state: SpecState::Element {
            name,
            attributes: empty,
            current_attribute_name: Some(attribute_name),
            equals_found: false,
            quotation_mark_found: false,
            current_attribute_text: Seq::empty(),
        },
        is_done: false,
    };
    let p5 = SpecParsedXml {
        tokens: p4.tokens.drop_first(),
        names,
        state: SpecState::Element {
            name,
            attributes: empty,
            current_attribute_name: Some(attribute_name),
            equals_found: true,
            quotation_mark_found: false,
            current_attribute_text: Seq::empty(),
        },
        is_done: false,
    };
    let p6 = SpecParsedXml {
        tokens: p5.tokens.drop_first(),
        names,
        state: in_attribute_value(name, empty, attribute_name, Seq::empty()),
        is_done: false,
    };
    assert(all[0] == Ok::<SpecToken, SpecParserError>(SpecToken::StartTag));
    assert(spec_next(p0) == spec_next(p1));
    assert(p1.tokens[0] == Ok::<SpecToken, SpecParserError>(SpecToken::Word(name)));
    assert(spec_next(p1) == spec_next(p2));
    assert(p2.tokens[0] == Ok::<SpecToken, SpecParserError>(SpecToken::Whitespace(' ')));
    assert(spec_next(p2) == spec_next(p3));
    assert(p3.tokens[0] == Ok::<SpecToken, SpecParserError>(SpecToken::Word(attribute_name)));
    assert(spec_next(p3) == spec_next(p4));
    assert(p4.tokens[0] == Ok::<SpecToken, SpecParserError>(SpecToken::Equals));
    assert(spec_next(p4) == spec_next(p5));
    assert(p5.tokens[0] == Ok::<SpecToken, SpecParserError>(SpecToken::QuotationMark));
    assert(spec_next(p5) == spec_next(p6));
    assert(p6.tokens =~= tail);
    lemma_attribute_value(names, name, empty, attribute_name, Seq::empty(), value, after);
    let text = Seq::<char>::empty() + tokens_text(value);
    let p7 = SpecParsedXml {
        tokens: after,
        names,
        state: in_attribute_value(name, empty, attribute_name, text),
        is_done: false,
    };
    let p8 = SpecParsedXml {
        tokens: after.drop_first(),
        names,
        state: SpecState::Element {
            name,
            attributes: empty.push((attribute_name, text)),
            current_attribute_name: None,
            equals_found: false,
            quotation_mark_found: false,
            current_attribute_text: Seq::empty(),
        },
        is_done: false,
    };
    assert(after[0] == Ok::<SpecToken, SpecParserError>(SpecToken::QuotationMark));
    assert(spec_next(p7) == spec_next(p8));
    assert(after.drop_first()[0] == Ok::<SpecToken, SpecParserError>(SpecToken::Slash));
    assert(text =~= tokens_text(value));
    assert(empty.push((attribute_name, text)) =~= seq![(attribute_name, tokens_text(value))]);
}

} // verus!
