use vstd::prelude::*;

verus! {

/// The lexical atoms of the search language.
#[derive(Clone, Copy, Debug, PartialEq, Eq, Structural)]
pub enum Token {
    /// No input is left.
    End,
    /// A character that starts no token.
    Error,
    /// The negation marker `not:`.
    Inverse,
    /// The field marker `tag:`.
    Tag,
    /// A `'`.
    QuoteSingle,
    /// A `"`.
    QuoteDouble,
    /// A maximal run of word characters.
    Word,
}

/// A token together with the span of characters it covers.
pub struct Lexeme {
    pub token: Token,
    pub start: int,
    pub end: int,
}

/// The characters with the Unicode `White_Space` property.
pub open spec fn space(c: char) -> bool {
    ('\u{9}' <= c && c <= '\u{d}') || c == ' ' || c == '\u{85}' || c == '\u{a0}'
        || c == '\u{1680}' || ('\u{2000}' <= c && c <= '\u{200a}') || c == '\u{2028}'
        || c == '\u{2029}' || c == '\u{202f}' || c == '\u{205f}' || c == '\u{3000}'
}

/// Characters that may stand in a word: anything but white space, quotes and `:`.
pub open spec fn word_char(c: char) -> bool {
    !space(c) && c != '\'' && c != '"' && c != ':'
}

/// The first position at or after `i` that does not hold white space.
pub open spec fn skip_space(s: Seq<char>, i: int) -> int
    decreases s.len() - i,
{
    if 0 <= i < s.len() && space(s[i]) {
        skip_space(s, i + 1)
    } else {
        i
    }
}

/// The first position at or after `i` that does not hold a word character.
pub open spec fn word_end(s: Seq<char>, i: int) -> int
    decreases s.len() - i,
{
    if 0 <= i < s.len() && word_char(s[i]) {
        word_end(s, i + 1)
    } else {
        i
    }
}

/// `not:` stands at position `p`.
pub open spec fn inverse_at(s: Seq<char>, p: int) -> bool {
    0 <= p && p + 4 <= s.len() && s[p] == 'n' && s[p + 1] == 'o' && s[p + 2] == 't' && s[p + 3]
        == ':'
}

/// `tag:` stands at position `p`.
pub open spec fn tag_at(s: Seq<char>, p: int) -> bool {
    0 <= p && p + 4 <= s.len() && s[p] == 't' && s[p + 1] == 'a' && s[p + 2] == 'g' && s[p + 3]
        == ':'
}

/// The token that scanning `s` from position `i` yields: white space is
/// skipped, then the markers, the quotes and words are recognised.
pub open spec fn lex(s: Seq<char>, i: int) -> Lexeme {
    let p = skip_space(s, i);
    if p >= s.len() {
        Lexeme { token: Token::End, start: p, end: p }
    } else if inverse_at(s, p) {
        Lexeme { token: Token::Inverse, start: p, end: p + 4 }
    } else if tag_at(s, p) {
        Lexeme { token: Token::Tag, start: p, end: p + 4 }
    } else if s[p] == '\'' {
        Lexeme { token: Token::QuoteSingle, start: p, end: p + 1 }
    } else if s[p] == '"' {
        Lexeme { token: Token::QuoteDouble, start: p, end: p + 1 }
    } else if word_char(s[p]) {
        Lexeme { token: Token::Word, start: p, end: word_end(s, p) }
    } else {
        Lexeme { token: Token::Error, start: p, end: p + 1 }
    }
}

pub proof fn lemma_skip_space_bounds(s: Seq<char>, i: int)
    requires
        0 <= i <= s.len(),
    ensures
        i <= skip_space(s, i) <= s.len(),
        skip_space(s, i) < s.len() ==> !space(s[skip_space(s, i)]),
    decreases s.len() - i,
{
    if i < s.len() && space(s[i]) {
        lemma_skip_space_bounds(s, i + 1);
    }
}

pub proof fn lemma_word_end_bounds(s: Seq<char>, i: int)
    requires
        0 <= i <= s.len(),
    ensures
        i <= word_end(s, i) <= s.len(),
        forall|k: int| i <= k < word_end(s, i) ==> word_char(#[trigger] s[k]),
    decreases s.len() - i,
{
    if i < s.len() && word_char(s[i]) {
        lemma_word_end_bounds(s, i + 1);
    }
}

/// Every token lies within the input, after the scan's starting point, and
/// every token but `End` covers at least one character.
pub proof fn lemma_lex_bounds(s: Seq<char>, i: int)
    requires
        0 <= i <= s.len(),
    ensures
        i <= lex(s, i).start <= lex(s, i).end <= s.len(),
        lex(s, i).token != Token::End ==> lex(s, i).start < lex(s, i).end,
        lex(s, i).token == Token::End ==> lex(s, i).end == s.len(),
{
    lemma_skip_space_bounds(s, i);
    let p = skip_space(s, i);
    if p < s.len() && word_char(s[p]) {
        lemma_word_end_bounds(s, p);
        lemma_word_end_bounds(s, p + 1);
    }
}

fn is_space(c: char) -> (r: bool)
    ensures
        r == space(c),
{
    ('\u{9}' <= c && c <= '\u{d}') || c == ' ' || c == '\u{85}' || c == '\u{a0}' || c
        == '\u{1680}' || ('\u{2000}' <= c && c <= '\u{200a}') || c == '\u{2028}' || c
        == '\u{2029}' || c == '\u{202f}' || c == '\u{205f}' || c == '\u{3000}'
}

fn is_word_char(c: char) -> (r: bool)
    ensures
        r == word_char(c),
{
    !is_space(c) && c != '\'' && c != '"' && c != ':'
}

/// Scans one token of `chars` from position `pos`.
fn scan(chars: &Vec<char>, pos: usize) -> (r: (Token, usize, usize))
    requires
        pos <= chars.len(),
    ensures
        lex(chars@, pos as int) == (Lexeme { token: r.0, start: r.1 as int, end: r.2 as int }),
{
    let ghost s = chars@;
    let len = chars.len();
    let mut p = pos;
    while p < len && is_space(chars[p])
        invariant
            pos <= p <= len,
            len == s.len(),
            s == chars@,
            skip_space(s, pos as int) == skip_space(s, p as int),
        decreases len - p,
    {
        p = p + 1;
    }
    assert(skip_space(s, p as int) == p as int);
    if p == len {
        return (Token::End, p, p);
    }
    if len - p >= 4 && chars[p] == 'n' && chars[p + 1] == 'o' && chars[p + 2] == 't' && chars[p
        + 3] == ':' {
        return (Token::Inverse, p, p + 4);
    }
    if len - p >= 4 && chars[p] == 't' && chars[p + 1] == 'a' && chars[p + 2] == 'g' && chars[p
        + 3] == ':' {
        return (Token::Tag, p, p + 4);
    }
    let c = chars[p];
    if c == '\'' {
        return (Token::QuoteSingle, p, p + 1);
    }
    if c == '"' {
        return (Token::QuoteDouble, p, p + 1);
    }
    if !is_word_char(c) {
        return (Token::Error, p, p + 1);
    }
    let mut e = p;
    while e < len && is_word_char(chars[e])
        invariant
            p <= e <= len,
            len == s.len(),
            s == chars@,
            word_end(s, p as int) == word_end(s, e as int),
        decreases len - e,
    {
        e = e + 1;
    }
    (Token::Word, p, e)
}


/// Splits a string into its characters.
fn chars_of(source: &str) -> (r: Vec<char>)
    ensures
        r@ == source@,
{
    let mut chars: Vec<char> = Vec::new();
    for c in it: source.chars()
        invariant
            chars@ == it.seq().take(it.index() as int),
    {
        chars.push(c);
    }
    assert(chars@ =~= source@);
    chars
}


/// A cursor over the tokens of a query string. It holds the token that
/// scanning from its position yields; `advance` moves the position to the
/// end of that token.
pub struct Lexer<'a> {
    source: &'a str,
    chars: Vec<char>,
    at: Cursor,
}

/// Where a lexer stands: the position it scanned from and what it found there.
#[derive(Clone, Copy)]
struct Cursor {
    pos: usize,
    token: Token,
    start: usize,
    end: usize,
}

impl<'a> Lexer<'a> {
    /// The characters of the input.
    pub closed spec fn input(&self) -> Seq<char> {
        self.chars@
    }

    /// The position from which the current token was scanned.
    pub closed spec fn pos(&self) -> int {
        self.at.pos as int
    }

    /// The current token and its span.
    pub open spec fn lexeme(&self) -> Lexeme {
        lex(self.input(), self.pos())
    }

    #[verifier::type_invariant]
    closed spec fn inv(&self) -> bool {
        &&& self.chars@ == self.source@
        &&& self.at.pos <= self.chars.len()
        &&& lex(self.chars@, self.at.pos as int) == (Lexeme {
            token: self.at.token,
            start: self.at.start as int,
            end: self.at.end as int,
        })
    }

    /// A lexer at the start of `source`.
    pub fn new(source: &'a str) -> (r: Self)
        ensures
            r.input() == source@,
            r.pos() == 0,
    {
        let chars = chars_of(source);
        let (token, start, end) = scan(&chars, 0);
        Lexer { source, chars, at: Cursor { pos: 0, token, start, end } }
    }

    /// The current token, which stays in place.
    pub fn current(&self) -> (t: Token)
        ensures
            t == self.lexeme().token,
            0 <= self.pos() <= self.input().len(),
    {
        proof {
            use_type_invariant(self);
        }
        self.at.token
    }

    /// Consumes the current token and returns it. Once the input is used
    /// up the lexer stays at `End`.
    pub fn advance(&mut self) -> (t: Token)
        ensures
            t == old(self).lexeme().token,
            final(self).input() == old(self).input(),
            final(self).pos() == old(self).lexeme().end,
            0 <= final(self).pos() <= final(self).input().len(),
    {
        proof {
            use_type_invariant(&*self);
            lemma_lex_bounds(self.chars@, self.at.pos as int);
        }
        let t = self.at.token;
        let (token, start, end) = scan(&self.chars, self.at.end);
        self.at = Cursor { pos: self.at.end, token, start, end };
        t
    }

    /// The text of the current token.
    pub fn slice(&self) -> (r: &'a str)
        ensures
            r@ == self.input().subrange(self.lexeme().start, self.lexeme().end),
    {
        proof {
            use_type_invariant(self);
            lemma_lex_bounds(self.chars@, self.at.pos as int);
        }
        self.source.substring_char(self.at.start, self.at.end)
    }
}

} // verus!
