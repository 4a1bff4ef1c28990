//! Splits the characters of an XML text into tokens.

use super::{IoError, ParserError, SpecParserError};
use crate::string_handler::{push_char, string_from_range};
use std::collections::VecDeque;
use vstd::prelude::*;

verus! {

/// A single token of the XML text.
#[derive(Clone, Debug, PartialEq, Eq)]
pub enum Token {
    StartTag,
    EndTag,
    QuestionMark,
    Slash,
    Equals,
    QuotationMark,
    Word(String),
    Whitespace(char),
}

/// The mathematical value of a [`Token`].
pub enum SpecToken {
    StartTag,
    EndTag,
    QuestionMark,
    Slash,
    Equals,
    QuotationMark,
    Word(Seq<char>),
    Whitespace(char),
}

impl View for Token {
    type V = SpecToken;

    open spec fn view(&self) -> SpecToken {
        match self {
            Token::StartTag => SpecToken::StartTag,
            Token::EndTag => SpecToken::EndTag,
            Token::QuestionMark => SpecToken::QuestionMark,
            Token::Slash => SpecToken::Slash,
            Token::Equals => SpecToken::Equals,
            Token::QuotationMark => SpecToken::QuotationMark,
            Token::Word(w) => SpecToken::Word(w@),
            Token::Whitespace(c) => SpecToken::Whitespace(*c),
        }
    }
}

/// Whether a character has the Unicode `White_Space` property, which `char::is_whitespace`
/// tests: the tab, line feed, vertical tab, form feed and carriage return (`U+0009` to `U+000D`),
/// the space, `U+0085`, `U+00A0`, `U+1680`, `U+2000` to `U+200A`, `U+2028`, `U+2029`, `U+202F`,
/// `U+205F` and `U+3000`.
pub open spec fn spec_is_whitespace(c: char) -> bool {
    let n = c as u32;
    ||| 0x9 <= n <= 0xD
    ||| n == 0x20
    ||| n == 0x85
    ||| n == 0xA0
    ||| n == 0x1680
    ||| 0x2000 <= n <= 0x200A
    ||| n == 0x2028
    ||| n == 0x2029
    ||| n == 0x202F
    ||| n == 0x205F
    ||| n == 0x3000
}

/// Whether a character is whitespace, as `char::is_whitespace` decides.
pub fn is_whitespace(c: char) -> (r: bool)
    ensures
        r == spec_is_whitespace(c),
{
    let n = c as u32;
    (0x9 <= n && n <= 0xD) || n == 0x20 || n == 0x85 || n == 0xA0 || n == 0x1680 || (0x2000 <= n
        && n <= 0x200A) || n == 0x2028 || n == 0x2029 || n == 0x202F || n == 0x205F || n == 0x3000
}

/// The six characters that always form a token of their own.
pub open spec fn is_symbol(c: char) -> bool {
    c == '<' || c == '>' || c == '=' || c == '"' || c == '?' || c == '/'
}

/// A word ends before a symbol or a whitespace character.
pub open spec fn ends_word(c: char) -> bool {
    is_symbol(c) || spec_is_whitespace(c)
}

/// The index at which the word running through `s[i..]` stops: the first index at or after `i`
/// that holds a symbol or whitespace, or the end of `s`.
pub open spec fn word_end(s: Seq<char>, i: int) -> int
    decreases s.len() - i,
{
    if i < 0 || i >= s.len() || ends_word(s[i]) {
        i
    } else {
        word_end(s, i + 1)
    }
}

/// The token that starts at index `i` of `s` (with `i < s.len()`) and the index just after it.
pub open spec fn token_at(s: Seq<char>, i: int) -> (SpecToken, int) {
    let c = s[i];
    if c == '<' {
        (SpecToken::StartTag, i + 1)
    } else if c == '>' {
        (SpecToken::EndTag, i + 1)
    } else if c == '=' {
        (SpecToken::Equals, i + 1)
    } else if c == '"' {
        (SpecToken::QuotationMark, i + 1)
    } else if c == '?' {
        (SpecToken::QuestionMark, i + 1)
    } else if c == '/' {
        (SpecToken::Slash, i + 1)
    } else if spec_is_whitespace(c) {
        (SpecToken::Whitespace(c), i + 1)
    } else {
        let end = word_end(s, i + 1);
        (SpecToken::Word(s.subrange(i, end)), end)
    }
}

/// A word's end lies between its start and the end of the text: no character before the end
/// ends a word, and the character at the end, if there is one, does.
pub proof fn lemma_word_end_bounds(s: Seq<char>, i: int)
    requires
        0 <= i <= s.len(),
    ensures
        i <= word_end(s, i) <= s.len(),
        forall|k: int| i <= k < word_end(s, i) ==> !ends_word(#[trigger] s[k]),
        word_end(s, i) < s.len() ==> ends_word(s[word_end(s, i)]),
    decreases s.len() - i,
{
    if i < s.len() && !ends_word(s[i]) {
        lemma_word_end_bounds(s, i + 1);
    }
}

/// The tokens of `s` from index `i` on.
pub open spec fn tokens_from(s: Seq<char>, i: int) -> Seq<SpecToken>
    decreases s.len() - i,
{
    if i < 0 || i >= s.len() {
        seq![]
    } else {
        proof {
            lemma_word_end_bounds(s, i + 1);
        }
        let (t, next) = token_at(s, i);
        seq![t] + tokens_from(s, next)
    }
}

/// The tokens of a whole text.
pub open spec fn spec_tokens(s: Seq<char>) -> Seq<SpecToken> {
    tokens_from(s, 0)
}

} // verus!

verus! {

/// Copies the characters of `text` into a vector.
pub fn text_to_chars(text: &str) -> (chars: Vec<char>)
    ensures
        chars@ == text@,
{
    broadcast use vstd::string::group_string_axioms;
    let mut chars: Vec<char> = Vec::new();
    for c in it: text.chars()
        invariant
            it.seq() == text@,
            chars@ == it.seq().take(it.index()),
    {
        chars.push(c);
    }
    chars
}

} // verus!

verus! {

/// The characters that a token stands for.
pub open spec fn token_text(t: SpecToken) -> Seq<char> {
    match t {
        SpecToken::StartTag => seq!['<'],
        SpecToken::EndTag => seq!['>'],
        SpecToken::QuestionMark => seq!['?'],
        SpecToken::Slash => seq!['/'],
        SpecToken::Equals => seq!['='],
        SpecToken::QuotationMark => seq!['"'],
        SpecToken::Word(w) => w,
        SpecToken::Whitespace(c) => seq![c],
    }
}

/// The short name of a token.
pub open spec fn token_name(t: SpecToken) -> Seq<char> {
    match t {
        SpecToken::StartTag => "Start tag"@,
        SpecToken::EndTag => "End tag"@,
        SpecToken::QuestionMark => "Question mark"@,
        SpecToken::Slash => "Slash"@,
        SpecToken::Equals => "Equals"@,
        SpecToken::QuotationMark => "Quotation mark"@,
        SpecToken::Word(w) => "Word("@ + w + ")"@,
        SpecToken::Whitespace(c) => "Whitespace character("@ + seq![c] + ")"@,
    }
}

/// The name of a token followed by the text it stands for.
pub open spec fn token_description(t: SpecToken) -> Seq<char> {
    match t {
        SpecToken::StartTag => "Start tag: '<'"@,
        SpecToken::EndTag => "End tag: '>'"@,
        SpecToken::QuestionMark => "Question mark: '?'"@,
        SpecToken::Slash => "Slash: '/'"@,
        SpecToken::Equals => "Equals: '='"@,
        SpecToken::QuotationMark => "Quotation mark: '\"'"@,
        SpecToken::Word(w) => "Word: \""@ + w + "\""@,
        SpecToken::Whitespace(c) => "Whitespace character: '"@ + seq![c] + "'"@,
    }
}

impl Token {
    /// Adds the text of this token to the end of `str`.
    pub fn append_to(self, str: &mut String)
        ensures
            final(str)@ == old(str)@ + token_text(self@),
    {
        match self {
            Token::StartTag => push_char(str, '<'),
            Token::EndTag => push_char(str, '>'),
            Token::QuestionMark => push_char(str, '?'),
            Token::Slash => push_char(str, '/'),
            Token::Equals => push_char(str, '='),
            Token::QuotationMark => push_char(str, '"'),
            Token::Word(word) => str.append(word.as_str()),
            Token::Whitespace(c) => push_char(str, c),
        }
    }

    /// The short name of this token, such as `Word(text)`.
    pub fn to_string(&self) -> (s: String)
        ensures
            s@ == token_name(self@),
    {
        match self {
            Token::StartTag => "Start tag".to_owned(),
            Token::EndTag => "End tag".to_owned(),
            Token::QuestionMark => "Question mark".to_owned(),
            Token::Slash => "Slash".to_owned(),
            Token::Equals => "Equals".to_owned(),
            Token::QuotationMark => "Quotation mark".to_owned(),
            Token::Word(word) => {
                let mut s = "Word(".to_owned();
                s.append(word.as_str());
                s.append(")");
                s
            },
            Token::Whitespace(c) => {
                let mut s = "Whitespace character(".to_owned();
                push_char(&mut s, *c);
                s.append(")");
                s
            },
        }
    }

    /// The name of this token followed by its text, such as `Word: "text"`.
    pub fn describe(&self) -> (s: String)
        ensures
            s@ == token_description(self@),
    {
        match self {
            Token::StartTag => "Start tag: '<'".to_owned(),
            Token::EndTag => "End tag: '>'".to_owned(),
            Token::QuestionMark => "Question mark: '?'".to_owned(),
            Token::Slash => "Slash: '/'".to_owned(),
            Token::Equals => "Equals: '='".to_owned(),
            Token::QuotationMark => "Quotation mark: '\"'".to_owned(),
            Token::Word(word) => {
                let mut s = "Word: \"".to_owned();
                s.append(word.as_str());
                s.append("\"");
                s
            },
            Token::Whitespace(c) => {
                let mut s = "Whitespace character: '".to_owned();
                push_char(&mut s, *c);
                s.append("'");
                s
            },
        }
    }
}

} // verus!

verus! {

/// The mathematical value of one entry of a token stream.
pub open spec fn entry_view(r: Result<Token, ParserError>) -> Result<SpecToken, SpecParserError> {
    match r {
        Ok(t) => Ok(t@),
        Err(e) => Err(e@),
    }
}

/// The entries that tokenising `text` from index `i` on yields: each token in turn, then the
/// reported read failure, if there is one.
pub open spec fn token_stream(text: Seq<char>, i: int, failure: Option<Seq<char>>) -> Seq<
    Result<SpecToken, SpecParserError>,
> {
    tokens_from(text, i).map_values(|t: SpecToken| Ok(t)) + match failure {
        Some(m) => seq![Err(SpecParserError::IoError(m))],
        None => Seq::empty(),
    }
}

/// The position just after the last line break of `s`, or zero when it has none.
pub open spec fn last_line_end(s: Seq<char>) -> int
    decreases s.len(),
{
    if s.len() == 0 {
        0
    } else if s.last() == '\n' {
        s.len() as int
    } else {
        last_line_end(s.drop_last())
    }
}

proof fn lemma_last_line_end_bounds(s: Seq<char>)
    ensures
        0 <= last_line_end(s) <= s.len(),
    decreases s.len(),
{
    if s.len() > 0 && s.last() != '\n' {
        lemma_last_line_end_bounds(s.drop_last());
    }
}

/// The text that the tokeniser sees of what was read: all of it, or, when reading failed, its
/// complete lines.
pub open spec fn text_read(text: Seq<char>, failed: bool) -> Seq<char> {
    if failed {
        text.take(last_line_end(text))
    } else {
        text
    }
}

/// Finds the position just after the last line break.
fn complete_lines_end(chars: &Vec<char>) -> (end: usize)
    ensures
        end == last_line_end(chars@),
{
    let mut end: usize = chars.len();
    assert(chars@.take(end as int) == chars@);
    while end > 0
        invariant
            end <= chars@.len(),
            last_line_end(chars@) == last_line_end(chars@.take(end as int)),
        decreases end,
    {
        assert(chars@.take(end as int).drop_last() == chars@.take(end - 1));
        assert(chars@.take(end as int).last() == chars@[end - 1]);
        if chars[end - 1] == '\n' {
            return end;
        }
        end = end - 1;
    }
    end
}

/// The failure message held by an optional read failure.
pub open spec fn failure_view(f: Option<IoError>) -> Option<Seq<char>> {
    match f {
        Some(e) => Some(e.message@),
        None => None,
    }
}

/// A stream of tokens read from an XML text.
///
/// The stream yields the tokens of the text one by one and then, where reading the text stopped
/// with a failure, that failure; after that it yields nothing more.
#[derive(Debug)]
pub struct TokenisedXml {
    // The characters of the text that was read.
    text: Vec<char>,
    // How far into the text we are currently looking.
    offset: usize,
    // The failure to report once the text is used up.
    read_failure: Option<IoError>,
    // Stores if the end of the tokens (or a failure) has been reached.
    finished: bool,
    // Entries that were read ahead of time.
    next: VecDeque<Result<Token, ParserError>>,
}

impl View for TokenisedXml {
    type V = Seq<Result<SpecToken, SpecParserError>>;

    /// The entries that the stream has still to yield.
    closed spec fn view(&self) -> Seq<Result<SpecToken, SpecParserError>> {
        self.next@.map_values(|r: Result<Token, ParserError>| entry_view(r)) + if self.finished {
            Seq::empty()
        } else {
            token_stream(self.text@, self.offset as int, failure_view(self.read_failure))
        }
    }
}

proof fn lemma_stream_step(text: Seq<char>, i: int, failure: Option<Seq<char>>)
    requires
        0 <= i < text.len(),
    ensures
        token_stream(text, i, failure) == seq![Ok::<SpecToken, SpecParserError>(token_at(text, i).0)]
            + token_stream(text, token_at(text, i).1, failure),
{
    lemma_word_end_bounds(text, i + 1);
    let t = token_at(text, i).0;
    let rest = tokens_from(text, token_at(text, i).1);
    assert(tokens_from(text, i) == seq![t] + rest);
    assert((seq![t] + rest).map_values(|t: SpecToken| Ok::<SpecToken, SpecParserError>(t)) =~= seq![
        Ok(t),
    ] + rest.map_values(|t: SpecToken| Ok::<SpecToken, SpecParserError>(t)));
}

proof fn lemma_stream_end(text: Seq<char>, i: int, failure: Option<Seq<char>>)
    requires
        i >= text.len(),
    ensures
        token_stream(text, i, failure) == match failure {
            Some(m) => seq![Err::<SpecToken, SpecParserError>(SpecParserError::IoError(m))],
            None => Seq::<Result<SpecToken, SpecParserError>>::empty(),
        },
{
    assert(tokens_from(text, i) == Seq::<SpecToken>::empty());
    assert(tokens_from(text, i).map_values(|t: SpecToken| Ok::<SpecToken, SpecParserError>(t))
        =~= Seq::empty());
}

impl TokenisedXml {
    /// Creates a stream over the characters of `text`, reporting `read_failure` after them if
    /// reading the text stopped with a failure. Text is read a line at a time, so when reading
    /// failed, the characters after the last line break were not a complete line and are not
    /// tokenised.
    pub fn new(text: &str, read_failure: Option<IoError>) -> (xml: Self)
        ensures
            xml@ == token_stream(
                text_read(text@, read_failure is Some),
                0,
                failure_view(read_failure),
            ),
    {
        let mut chars = text_to_chars(text);
        if read_failure.is_some() {
            let end = complete_lines_end(&chars);
            proof {
                lemma_last_line_end_bounds(chars@);
            }
            chars.truncate(end);
            assert(chars@ == text@.take(last_line_end(text@)));
        }
        let xml = TokenisedXml {
            text: chars,
            offset: 0,
            read_failure,
            finished: false,
            next: VecDeque::new(),
        };
        assert(xml.next@.map_values(|r: Result<Token, ParserError>| entry_view(r)) =~= Seq::empty());
        assert(xml@ =~= token_stream(
            text_read(text@, read_failure is Some),
            0,
            failure_view(read_failure),
        ));
        xml
    }

    /// Returns the next entry of the stream, or `None` once the stream has nothing more to yield.
    /// After a failure or the end of the tokens, it keeps returning `None`.
    pub fn next(&mut self) -> (r: Option<Result<Token, ParserError>>)
        ensures
            old(self)@.len() == 0 ==> r is None && final(self)@ == old(self)@,
            old(self)@.len() > 0 ==> (r matches Some(e) && entry_view(e) == old(self)@[0]
                && final(self)@ == old(self)@.drop_first()),
    {
        if self.next.len() == 0 {
            self.add_token_to_queue();
        }
        self.next.pop_front()
    }

    /// Returns the next entry of the stream without consuming it.
    pub fn peek(&mut self) -> (r: Option<&Result<Token, ParserError>>)
        ensures
            final(self)@ == old(self)@,
            old(self)@.len() == 0 ==> r is None,
            old(self)@.len() > 0 ==> (r matches Some(e) && entry_view(*e) == old(self)@[0]),
    {
        if self.next.len() == 0 {
            self.add_token_to_queue();
        }
        if self.next.len() > 0 {
            Some(&self.next[0])
        } else {
            None
        }
    }

    /// Returns the entry `n` places ahead without consuming any: `peek_n(0)` returns the same
    /// entry as `peek()`.
    pub fn peek_n(&mut self, n: usize) -> (r: Option<&Result<Token, ParserError>>)
        requires
            n < usize::MAX,
        ensures
            final(self)@ == old(self)@,
            n >= old(self)@.len() ==> r is None,
            n < old(self)@.len() ==> (r matches Some(e) && entry_view(*e) == old(self)@[n as int]),
    {
        if self.next.len() <= n {
            let mut remaining = n + 1 - self.next.len();
            while remaining > 0 && !self.finished
                invariant
                    self@ == old(self)@,
                    self.finished || self.next@.len() + remaining >= n + 1,
                decreases remaining,
            {
                self.add_token_to_queue();
                remaining = remaining - 1;
            }
        }
        if n < self.next.len() {
            Some(&self.next[n])
        } else {
            None
        }
    }

    /// Reads the next entry into the read-ahead queue, unless the end of the stream was reached.
    fn add_token_to_queue(&mut self)
        ensures
            final(self)@ == old(self)@,
            final(self).finished || final(self).next@.len() == old(self).next@.len() + 1,
            old(self).finished ==> final(self).next == old(self).next,
    {
        if !self.finished {
            let ghost old_self = *self;
            let result = self.get_next_token();
            self.finished = match &result {
                Some(Ok(_)) => false,
                _ => true,
            };
            proof {
                let text = old_self.text@;
                let i = old_self.offset as int;
                let f = failure_view(old_self.read_failure);
                if i < text.len() {
                    lemma_stream_step(text, i, f);
                } else {
                    lemma_stream_end(text, i, f);
                }
            }
            if let Some(r) = result {
                self.next.push_back(r);
            }
            proof {
                let text = old_self.text@;
                let i = old_self.offset as int;
                let f = failure_view(old_self.read_failure);
                let q_old = old_self.next@.map_values(|r: Result<Token, ParserError>| entry_view(r));
                let q_new = self.next@.map_values(|r: Result<Token, ParserError>| entry_view(r));
                if i < text.len() {
                    assert(q_new =~= q_old.push(Ok(token_at(text, i).0)));
                    assert(self@ =~= old_self@);
                } else {
                    match old_self.read_failure {
                        Some(e) => {
                            assert(q_new =~= q_old.push(Err(SpecParserError::IoError(e.message@))));
                        },
                        None => {
                            assert(q_new =~= q_old);
                        },
                    }
                    assert(self@ =~= old_self@);
                }
            }
        }
    }

    /// Returns the token that starts at `self.offset` and moves past it.
    fn get_next_token(&mut self) -> (r: Option<Result<Token, ParserError>>)
        ensures
            final(self).next == old(self).next,
            final(self).finished == old(self).finished,
            final(self).text == old(self).text,
            old(self).offset < old(self).text@.len() ==> {
                &&& r matches Some(Ok(t)) && t@ == token_at(
                    old(self).text@,
                    old(self).offset as int,
                ).0
                &&& final(self).offset == token_at(old(self).text@, old(self).offset as int).1
                &&& final(self).read_failure == old(self).read_failure
            },
            old(self).offset >= old(self).text@.len() ==> {
                &&& match old(self).read_failure {
                    Some(e) => r == Some(Err::<Token, ParserError>(ParserError::IoError(e))),
                    None => r is None,
                }
                &&& final(self).offset == old(self).offset
            },
    {
        if self.offset >= self.text.len() {
            return match self.read_failure.take() {
                Some(e) => Some(Err(ParserError::IoError(e))),
                None => None,
            };
        }
        let c = self.text[self.offset];
        let (length, token) = if c == '<' {
            (1, Token::StartTag)
        } else if c == '>' {
            (1, Token::EndTag)
        } else if c == '=' {
            (1, Token::Equals)
        } else if c == '"' {
            (1, Token::QuotationMark)
        } else if c == '?' {
            (1, Token::QuestionMark)
        } else if c == '/' {
            (1, Token::Slash)
        } else if is_whitespace(c) {
            (1, Token::Whitespace(c))
        } else {
            let word = self.pop_word_from(self.offset);
            (word.1 - self.offset, Token::Word(word.0))
        };
        self.offset = self.offset + length;
        Some(Ok(token))
    }

    /// Gets the word that starts at `start` and returns it with the index just after it.
    fn pop_word_from(&self, start: usize) -> (r: (String, usize))
        requires
            start < self.text@.len(),
        ensures
            r.1 == word_end(self.text@, start + 1),
            r.0@ == self.text@.subrange(start as int, r.1 as int),
            start < r.1 <= self.text@.len(),
    {
        let length = self.text.len();
        let mut end = start + 1;
        while end < length
            invariant
                length == self.text@.len(),
                start < end <= self.text@.len(),
                word_end(self.text@, start + 1) == word_end(self.text@, end as int),
            ensures
                start < end <= self.text@.len(),
                word_end(self.text@, start + 1) == end,
            decreases self.text@.len() - end,
        {
            let c = self.text[end];
            if c == '<' || c == '>' || c == '=' || c == '"' || c == '?' || c == '/' || is_whitespace(
                c,
            ) {
                break;
            }
            end = end + 1;
        }
        (string_from_range(&self.text, start, end), end)
    }
}

} // verus!

verus! {

/// The text that a sequence of tokens stands for.
pub open spec fn tokens_text(ts: Seq<SpecToken>) -> Seq<char>
    decreases ts.len(),
{
    if ts.len() == 0 {
        Seq::empty()
    } else {
        token_text(ts[0]) + tokens_text(ts.drop_first())
    }
}

/// A token is well formed: a symbol token, a whitespace token holding a whitespace character,
/// or a non-empty word that holds no symbol and no whitespace.
pub open spec fn well_formed_token(t: SpecToken) -> bool {
    match t {
        SpecToken::Word(w) => w.len() > 0 && forall|j: int| 0 <= j < w.len() ==> !ends_word(#[trigger] w[j]),
        SpecToken::Whitespace(c) => spec_is_whitespace(c),
        _ => true,
    }
}

proof fn lemma_tokens_from_text(s: Seq<char>, i: int)
    requires
        0 <= i <= s.len(),
    ensures
        tokens_text(tokens_from(s, i)) == s.subrange(i, s.len() as int),
        forall|k: int| 0 <= k < tokens_from(s, i).len() ==> well_formed_token(
            #[trigger] tokens_from(s, i)[k],
        ),
        forall|k: int|
            0 <= k < tokens_from(s, i).len() - 1 ==> !((#[trigger] tokens_from(s, i)[k]) is Word
                && tokens_from(s, i)[k + 1] is Word),
    decreases s.len() - i,
{
    if i < s.len() {
        lemma_word_end_bounds(s, i + 1);
        let (t, next) = token_at(s, i);
        let rest = tokens_from(s, next);
        lemma_tokens_from_text(s, next);
        let ts = tokens_from(s, i);
        assert(ts == seq![t] + rest);
        assert(ts.drop_first() =~= rest);
        assert(token_text(t) =~= s.subrange(i, next));
        assert(s.subrange(i, s.len() as int) =~= s.subrange(i, next) + s.subrange(next, s.len() as int));
        if let SpecToken::Word(w) = t {
            assert forall|j: int| 0 <= j < w.len() implies !ends_word(#[trigger] w[j]) by {
                if j > 0 {
                    assert(w[j] == s[i + j]);
                }
            }
            if next < s.len() {
                assert(ends_word(s[next]));
                assert(rest[0] == token_at(s, next).0);
            }
        }
        assert forall|k: int| 0 <= k < ts.len() implies well_formed_token(#[trigger] ts[k]) by {
            if k > 0 {
                assert(ts[k] == rest[k - 1]);
            }
        }
        assert forall|k: int| 0 <= k < ts.len() - 1 implies !((#[trigger] ts[k]) is Word
            && ts[k + 1] is Word) by {
            if k > 0 {
                assert(ts[k] == rest[k - 1]);
                assert(ts[k + 1] == rest[k]);
            } else {
                assert(ts[1] == rest[0]);
            }
        }
    } else {
        assert(s.subrange(i, s.len() as int) =~= Seq::<char>::empty());
    }
}

/// Tokenising loses and adds nothing: the texts of the tokens of `s`, put together in order,
/// give back `s`.
pub proof fn law_tokens_give_back_text(s: Seq<char>)
    ensures
        tokens_text(spec_tokens(s)) == s,
{
    lemma_tokens_from_text(s, 0);
    assert(s.subrange(0, s.len() as int) =~= s);
}

/// Every token is well formed, and a word is never followed directly by another word: each word
/// runs as far as it can.
pub proof fn law_tokens_well_formed(s: Seq<char>)
    ensures
        forall|k: int| 0 <= k < spec_tokens(s).len() ==> well_formed_token(
            #[trigger] spec_tokens(s)[k],
        ),
        forall|k: int|
            0 <= k < spec_tokens(s).len() - 1 ==> !((#[trigger] spec_tokens(s)[k]) is Word
                && spec_tokens(s)[k + 1] is Word),
{
    lemma_tokens_from_text(s, 0);
}

/// A read failure can only be the last entry of a token stream: every entry before it is a token.
pub proof fn law_failure_is_last(text: Seq<char>, failure: Option<Seq<char>>)
    ensures
        forall|k: int|
            0 <= k < token_stream(text, 0, failure).len() - 1 ==> (#[trigger] token_stream(
                text,
                0,
                failure,
            )[k]) is Ok,
{
    let ts = tokens_from(text, 0);
    let oks = ts.map_values(|t: SpecToken| Ok::<SpecToken, SpecParserError>(t));
    assert forall|k: int| 0 <= k < token_stream(text, 0, failure).len() - 1 implies (
    #[trigger] token_stream(text, 0, failure)[k]) is Ok by {
        assert(token_stream(text, 0, failure)[k] == oks[k]);
    }
}

} // verus!
