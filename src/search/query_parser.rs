use vstd::prelude::*;

use super::lexer::{lex, lemma_lex_bounds, Lexeme, Lexer, Token};
use super::query::{
    strings_view, BoolQueryBuilder, BoolQueryV, ExactQueryBuilder, FuzzyQueryBuilder,
    FuzzyTermV, PhraseQueryBuilder, Query, QueryV, TermPairV,
};

verus! {

/// An exact match of `term` against `field`.
pub open spec fn exact(field: Seq<char>, term: Seq<char>) -> QueryV {
    QueryV::Exact { field, term }
}

/// A fuzzy match of `value` against `field`, with no tolerance configured.
pub open spec fn fuzzy(field: Seq<char>, value: Seq<char>) -> QueryV {
    QueryV::Fuzzy { field, fuzzy: FuzzyTermV { value, distance: 0, transposition: false } }
}

/// A phrase match of `terms`, in order, against `field`.
pub open spec fn phrase(field: Seq<char>, terms: Seq<Seq<char>>) -> QueryV {
    QueryV::Phrase { field, pair: TermPairV { terms, offsets: None } }
}

/// A bare word probes title, body and tag. Positive probes are `should`
/// clauses, fuzzy on title and body; negated probes are `must_not` clauses
/// and always exact.
pub open spec fn add_word(b: BoolQueryV, inverse: bool, w: Seq<char>) -> BoolQueryV {
    if inverse {
        b.add_must_not(exact("body"@, w)).add_must_not(exact("title"@, w)).add_must_not(
            exact("tag"@, w),
        )
    } else {
        b.add_should(fuzzy("title"@, w)).add_should(fuzzy("body"@, w)).add_should(
            exact("tag"@, w),
        )
    }
}

/// A single quoted term probes body, title and tag exactly.
pub open spec fn add_exact_fanout(b: BoolQueryV, inverse: bool, w: Seq<char>) -> BoolQueryV {
    if inverse {
        b.add_must_not(exact("body"@, w)).add_must_not(exact("title"@, w)).add_must_not(
            exact("tag"@, w),
        )
    } else {
        b.add_should(exact("body"@, w)).add_should(exact("title"@, w)).add_should(
            exact("tag"@, w),
        )
    }
}

/// Quoted terms: none add nothing, one is an exact fanout, several make a
/// phrase on title and on body.
pub open spec fn add_quoted(b: BoolQueryV, inverse: bool, terms: Seq<Seq<char>>) -> BoolQueryV {
    if terms.len() == 0 {
        b
    } else if terms.len() == 1 {
        add_exact_fanout(b, inverse, terms[0])
    } else if inverse {
        b.add_must_not(phrase("title"@, terms)).add_must_not(phrase("body"@, terms))
    } else {
        b.add_should(phrase("title"@, terms)).add_should(phrase("body"@, terms))
    }
}

/// A tag filter: one exact match on `tag`, required or excluded.
pub open spec fn add_tag(b: BoolQueryV, inverse: bool, w: Seq<char>) -> BoolQueryV {
    if inverse {
        b.add_must_not(exact("tag"@, w))
    } else {
        b.add_must(exact("tag"@, w))
    }
}

/// A quoted tag filter keeps a single term only; anything else is dropped.
pub open spec fn add_quoted_tag(b: BoolQueryV, inverse: bool, terms: Seq<Seq<char>>) -> BoolQueryV {
    if terms.len() == 1 {
        add_tag(b, inverse, terms[0])
    } else {
        b
    }
}

/// The text that a token covers.
pub open spec fn text(s: Seq<char>, l: Lexeme) -> Seq<char> {
    s.subrange(l.start, l.end)
}

/// The terms between an opening quote and its end, scanned from `p` with
/// `acc` already collected, and the position after them. Markers lose their
/// meaning inside quotes and count as terms. The end of input closes the
/// quote; the other quote character or an error makes it fail (`None`).
pub open spec fn quote_terms(s: Seq<char>, p: int, quote: Token, acc: Seq<Seq<char>>) -> Option<
    (Seq<Seq<char>>, int),
>
    decreases s.len() - p,
{
    if !(0 <= p <= s.len()) {
        None
    } else {
        let l = lex(s, p);
        proof {
            lemma_lex_bounds(s, p);
        }
        match l.token {
            Token::Inverse | Token::Tag | Token::Word => quote_terms(
                s,
                l.end,
                quote,
                acc.push(text(s, l)),
            ),
            Token::QuoteSingle | Token::QuoteDouble => if l.token == quote {
                Some((acc, l.end))
            } else {
                None
            },
            Token::End => Some((acc, p)),
            Token::Error => None,
        }
    }
}

/// The outcome of one grammar rule: whether parsing goes on, where the lexer
/// then stands, and the clauses collected so far.
pub struct Step {
    pub ok: bool,
    pub pos: int,
    pub acc: BoolQueryV,
}

/// `match_item := WORD | quoted`
pub open spec fn match_item(s: Seq<char>, p: int, inverse: bool, b: BoolQueryV) -> Step {
    let l = lex(s, p);
    match l.token {
        Token::Word => Step { ok: true, pos: l.end, acc: add_word(b, inverse, text(s, l)) },
        Token::QuoteSingle | Token::QuoteDouble => match quote_terms(s, l.end, l.token, seq![]) {
            Some((terms, q)) => Step { ok: true, pos: q, acc: add_quoted(b, inverse, terms) },
            None => Step { ok: false, pos: p, acc: b },
        },
        _ => Step { ok: false, pos: p, acc: b },
    }
}

/// `tag_item := "tag:" (WORD | quoted)`
pub open spec fn tag_item(s: Seq<char>, p: int, inverse: bool, b: BoolQueryV) -> Step {
    let m = lex(s, p);
    if m.token != Token::Tag {
        Step { ok: false, pos: p, acc: b }
    } else {
        let l = lex(s, m.end);
        match l.token {
            Token::Word => Step { ok: true, pos: l.end, acc: add_tag(b, inverse, text(s, l)) },
            Token::QuoteSingle | Token::QuoteDouble => match quote_terms(
                s,
                l.end,
                l.token,
                seq![],
            ) {
                Some((terms, q)) => Step {
                    ok: true,
                    pos: q,
                    acc: add_quoted_tag(b, inverse, terms),
                },
                None => Step { ok: false, pos: p, acc: b },
            },
            _ => Step { ok: false, pos: p, acc: b },
        }
    }
}

/// `inverse_item := "not:" (tag_item | match_item)`; a `not:` before the end
/// or before another `not:` is skipped.
pub open spec fn inverse_item(s: Seq<char>, p: int, b: BoolQueryV) -> Step {
    let m = lex(s, p);
    if m.token != Token::Inverse {
        Step { ok: false, pos: p, acc: b }
    } else {
        let l = lex(s, m.end);
        match l.token {
            Token::Tag => tag_item(s, m.end, true, b),
            Token::Word | Token::QuoteSingle | Token::QuoteDouble => match_item(s, m.end, true, b),
            Token::End => Step { ok: true, pos: m.end, acc: b },
            Token::Error => Step { ok: false, pos: p, acc: b },
            Token::Inverse => Step { ok: true, pos: l.end, acc: b },
        }
    }
}

/// `regular_item := tag_item | match_item`
pub open spec fn regular_item(s: Seq<char>, p: int, b: BoolQueryV) -> Step {
    let l = lex(s, p);
    match l.token {
        Token::Tag => tag_item(s, p, false, b),
        Token::Word | Token::QuoteSingle | Token::QuoteDouble => match_item(s, p, false, b),
        Token::End | Token::Error => Step { ok: false, pos: p, acc: b },
        Token::Inverse => Step { ok: true, pos: l.end, acc: b },
    }
}

/// The rule for the item that starts at `p`.
pub open spec fn item(s: Seq<char>, p: int, b: BoolQueryV) -> Step {
    if lex(s, p).token == Token::Inverse {
        inverse_item(s, p, b)
    } else {
        regular_item(s, p, b)
    }
}

pub proof fn lemma_quote_terms_progress(s: Seq<char>, p: int, quote: Token, acc: Seq<Seq<char>>)
    requires
        0 <= p <= s.len(),
    ensures
        quote_terms(s, p, quote, acc) matches Some((_, q)) ==> p <= q <= s.len(),
    decreases s.len() - p,
{
    lemma_lex_bounds(s, p);
    let l = lex(s, p);
    match l.token {
        Token::Inverse | Token::Tag | Token::Word => {
            lemma_quote_terms_progress(s, l.end, quote, acc.push(text(s, l)));
        },
        _ => {},
    }
}

/// A tag item that lets parsing go on has consumed input.
pub proof fn lemma_tag_item_progress(s: Seq<char>, p: int, inverse: bool, b: BoolQueryV)
    requires
        0 <= p <= s.len(),
    ensures
        tag_item(s, p, inverse, b).ok ==> p < tag_item(s, p, inverse, b).pos <= s.len(),
{
    lemma_lex_bounds(s, p);
    let m = lex(s, p);
    if m.token == Token::Tag {
        lemma_lex_bounds(s, m.end);
        let l = lex(s, m.end);
        lemma_quote_terms_progress(s, l.end, l.token, seq![]);
    }
}

/// A match item that lets parsing go on has consumed input.
pub proof fn lemma_match_item_progress(s: Seq<char>, p: int, inverse: bool, b: BoolQueryV)
    requires
        0 <= p <= s.len(),
    ensures
        match_item(s, p, inverse, b).ok ==> p < match_item(s, p, inverse, b).pos <= s.len(),
{
    lemma_lex_bounds(s, p);
    let l = lex(s, p);
    lemma_quote_terms_progress(s, l.end, l.token, seq![]);
}

/// Every item that lets parsing go on has consumed input.
pub proof fn lemma_item_progress(s: Seq<char>, p: int, b: BoolQueryV)
    requires
        0 <= p <= s.len(),
    ensures
        item(s, p, b).ok ==> p < item(s, p, b).pos <= s.len(),
{
    lemma_lex_bounds(s, p);
    let m = lex(s, p);
    if m.token == Token::Inverse {
        lemma_lex_bounds(s, m.end);
        lemma_tag_item_progress(s, m.end, true, b);
        lemma_match_item_progress(s, m.end, true, b);
    } else {
        lemma_tag_item_progress(s, p, false, b);
        lemma_match_item_progress(s, p, false, b);
    }
}

/// `query := item*`: items are parsed from `p` on, adding to `b`, until the
/// input ends, an error token comes, or a rule fails.
pub open spec fn parse_items(s: Seq<char>, p: int, b: BoolQueryV) -> BoolQueryV
    decreases s.len() - p,
{
    if !(0 <= p <= s.len()) {
        b
    } else {
        let l = lex(s, p);
        if l.token == Token::End || l.token == Token::Error {
            b
        } else {
            let st = item(s, p, b);
            proof {
                lemma_item_progress(s, p, b);
            }
            if st.ok {
                parse_items(s, st.pos, st.acc)
            } else {
                st.acc
            }
        }
    }
}

/// The boolean query that the search string `s` compiles to.
pub open spec fn parse_query(s: Seq<char>) -> QueryV {
    QueryV::Boolean(parse_items(s, 0, BoolQueryV::empty()))
}


/// Compiles a search string into a boolean query.
pub struct QueryParser<'a> {
    lexer: Lexer<'a>,
}

/// An exec rule's result agrees with the spec rule's step.
pub open spec fn agrees(r: Result<BoolQueryBuilder, BoolQueryBuilder>, pos: int, st: Step) -> bool {
    match r {
        Ok(b) => st.ok && b@ == st.acc && pos == st.pos,
        Err(b) => !st.ok && b@ == st.acc,
    }
}

fn exact_query(field: &str, term: &str) -> (r: Query)
    ensures
        r@ == exact(field@, term@),
{
    ExactQueryBuilder::new().with_field(field.to_owned()).with_term(term.to_owned()).build()
}

fn fuzzy_query(field: &str, value: &str) -> (r: Query)
    ensures
        r@ == fuzzy(field@, value@),
{
    FuzzyQueryBuilder::new().with_field(field.to_owned()).with_term(value.to_owned()).build()
}

fn copy_terms(terms: &Vec<String>) -> (r: Vec<String>)
    ensures
        strings_view(r@) == strings_view(terms@),
{
    let mut r: Vec<String> = Vec::new();
    let mut i: usize = 0;
    while i < terms.len()
        invariant
            i <= terms.len(),
            strings_view(r@) == strings_view(terms@).take(i as int),
        decreases terms.len() - i,
    {
        let ghost prev = strings_view(r@);
        let t = terms[i].clone();
        r.push(t);
        assert(strings_view(r@) =~= prev.push(terms[i as int]@));
        assert(strings_view(terms@).take(i + 1) =~= strings_view(terms@).take(i as int).push(
            terms[i as int]@,
        ));
        i = i + 1;
    }
    assert(strings_view(terms@).take(i as int) =~= strings_view(terms@));
    r
}

fn phrase_query(field: &str, terms: &Vec<String>) -> (r: Query)
    ensures
        r@ == phrase(field@, strings_view(terms@)),
{
    let b = PhraseQueryBuilder::new().with_field(field.to_owned()).with_terms(copy_terms(terms));
    assert(b@.terms =~= strings_view(terms@));
    b.build()
}

fn push_word(builder: BoolQueryBuilder, inverse: bool, w: &str) -> (r: BoolQueryBuilder)
    ensures
        r@ == add_word(builder@, inverse, w@),
{
    if inverse {
        builder.must_not(exact_query("body", w)).must_not(exact_query("title", w)).must_not(
            exact_query("tag", w),
        )
    } else {
        builder.should(fuzzy_query("title", w)).should(fuzzy_query("body", w)).should(
            exact_query("tag", w),
        )
    }
}

fn push_quoted(builder: BoolQueryBuilder, inverse: bool, terms: &Vec<String>) -> (r:
    BoolQueryBuilder)
    ensures
        r@ == add_quoted(builder@, inverse, strings_view(terms@)),
{
    if terms.len() == 0 {
        builder
    } else if terms.len() == 1 {
        let w = terms[0].as_str();
        if inverse {
            builder.must_not(exact_query("body", w)).must_not(exact_query("title", w)).must_not(
                exact_query("tag", w),
            )
        } else {
            builder.should(exact_query("body", w)).should(exact_query("title", w)).should(
                exact_query("tag", w),
            )
        }
    } else if inverse {
        builder.must_not(phrase_query("title", terms)).must_not(phrase_query("body", terms))
    } else {
        builder.should(phrase_query("title", terms)).should(phrase_query("body", terms))
    }
}

fn push_tag(builder: BoolQueryBuilder, inverse: bool, w: &str) -> (r: BoolQueryBuilder)
    ensures
        r@ == add_tag(builder@, inverse, w@),
{
    if inverse {
        builder.must_not(exact_query("tag", w))
    } else {
        builder.must(exact_query("tag", w))
    }
}

/// Collects the terms up to the closing quote; the lexer starts just after
/// the opening one.
fn inside_quote(lexer: &mut Lexer, quote: Token) -> (r: Option<Vec<String>>)
    requires
        0 <= old(lexer).pos() <= old(lexer).input().len(),
    ensures
        final(lexer).input() == old(lexer).input(),
        0 <= final(lexer).pos() <= final(lexer).input().len(),
        match quote_terms(old(lexer).input(), old(lexer).pos(), quote, seq![]) {
            Some((terms, q)) => r matches Some(v) && strings_view(v@) == terms && final(lexer).pos()
                == q,
            None => r is None,
        },
{
    let ghost s = lexer.input();
    let ghost p0 = lexer.pos();
    let mut terms: Vec<String> = Vec::new();
    assert(strings_view(terms@) =~= seq![]);
    loop
        invariant
            lexer.input() == s,
            s == old(lexer).input(),
            p0 == old(lexer).pos(),
            0 <= lexer.pos() <= s.len(),
            quote_terms(s, lexer.pos(), quote, strings_view(terms@)) == quote_terms(
                s,
                p0,
                quote,
                seq![],
            ),
        decreases s.len() - lexer.pos(),
    {
        proof {
            lemma_lex_bounds(s, lexer.pos());
        }
        let ghost l = lexer.lexeme();
        let t = lexer.current();
        match t {
            Token::Inverse | Token::Tag | Token::Word => {
                let ghost before = strings_view(terms@);
                let w = lexer.slice().to_owned();
                terms.push(w);
                assert(strings_view(terms@) =~= before.push(text(s, l)));
                lexer.advance();
            },
            Token::QuoteSingle | Token::QuoteDouble => {
                if expect_token(lexer, quote) {
                    return Some(terms);
                } else {
                    return None;
                }
            },
            Token::End => {
                return Some(terms);
            },
            Token::Error => {
                return None;
            },
        }
    }
}


/// Consumes the current token if it is `token`; says whether it was.
fn expect_token(lexer: &mut Lexer, token: Token) -> (r: bool)
    requires
        0 <= old(lexer).pos() <= old(lexer).input().len(),
    ensures
        final(lexer).input() == old(lexer).input(),
        0 <= final(lexer).pos() <= final(lexer).input().len(),
        r == (old(lexer).lexeme().token == token),
        r ==> final(lexer).pos() == old(lexer).lexeme().end,
        !r ==> final(lexer).pos() == old(lexer).pos(),
{
    if lexer.current() == token {
        lexer.advance();
        true
    } else {
        false
    }
}

fn match_item_exec(lexer: &mut Lexer, inverse: bool, builder: BoolQueryBuilder) -> (r: Result<
    BoolQueryBuilder,
    BoolQueryBuilder,
>)
    requires
        0 <= old(lexer).pos() <= old(lexer).input().len(),
    ensures
        final(lexer).input() == old(lexer).input(),
        0 <= final(lexer).pos() <= final(lexer).input().len(),
        agrees(r, final(lexer).pos(), match_item(old(lexer).input(), old(lexer).pos(), inverse, builder@)),
{
    proof {
        lemma_lex_bounds(lexer.input(), lexer.pos());
    }
    let t = lexer.current();
    match t {
        Token::Word => {
            let b = push_word(builder, inverse, lexer.slice());
            lexer.advance();
            Ok(b)
        },
        Token::QuoteSingle | Token::QuoteDouble => {
            lexer.advance();
            match inside_quote(lexer, t) {
                Some(terms) => Ok(push_quoted(builder, inverse, &terms)),
                None => Err(builder),
            }
        },
        _ => Err(builder),
    }
}

fn tag_item_exec(lexer: &mut Lexer, inverse: bool, builder: BoolQueryBuilder) -> (r: Result<
    BoolQueryBuilder,
    BoolQueryBuilder,
>)
    requires
        0 <= old(lexer).pos() <= old(lexer).input().len(),
    ensures
        final(lexer).input() == old(lexer).input(),
        0 <= final(lexer).pos() <= final(lexer).input().len(),
        agrees(r, final(lexer).pos(), tag_item(old(lexer).input(), old(lexer).pos(), inverse, builder@)),
{
    proof {
        lemma_lex_bounds(lexer.input(), lexer.pos());
    }
    if !expect_token(lexer, Token::Tag) {
        return Err(builder);
    }
    proof {
        lemma_lex_bounds(lexer.input(), lexer.pos());
    }
    let t = lexer.current();
    match t {
        Token::Word => {
            let b = push_tag(builder, inverse, lexer.slice());
            lexer.advance();
            Ok(b)
        },
        Token::QuoteSingle | Token::QuoteDouble => {
            lexer.advance();
            match inside_quote(lexer, t) {
                Some(terms) => {
                    if terms.len() == 1 {
                        Ok(push_tag(builder, inverse, terms[0].as_str()))
                    } else {
                        Ok(builder)
                    }
                },
                None => Err(builder),
            }
        },
        _ => Err(builder),
    }
}

fn inverse_item_exec(lexer: &mut Lexer, builder: BoolQueryBuilder) -> (r: Result<
    BoolQueryBuilder,
    BoolQueryBuilder,
>)
    requires
        0 <= old(lexer).pos() <= old(lexer).input().len(),
    ensures
        final(lexer).input() == old(lexer).input(),
        0 <= final(lexer).pos() <= final(lexer).input().len(),
        agrees(r, final(lexer).pos(), inverse_item(old(lexer).input(), old(lexer).pos(), builder@)),
{
    proof {
        lemma_lex_bounds(lexer.input(), lexer.pos());
    }
    if !expect_token(lexer, Token::Inverse) {
        return Err(builder);
    }
    proof {
        lemma_lex_bounds(lexer.input(), lexer.pos());
    }
    match lexer.current() {
        Token::Tag => tag_item_exec(lexer, true, builder),
        Token::Word | Token::QuoteSingle | Token::QuoteDouble => match_item_exec(lexer, true, builder),
        Token::End => Ok(builder),
        Token::Error => Err(builder),
        Token::Inverse => {
            lexer.advance();
            Ok(builder)
        },
    }
}

fn regular_item_exec(lexer: &mut Lexer, builder: BoolQueryBuilder) -> (r: Result<
    BoolQueryBuilder,
    BoolQueryBuilder,
>)
    requires
        0 <= old(lexer).pos() <= old(lexer).input().len(),
    ensures
        final(lexer).input() == old(lexer).input(),
        0 <= final(lexer).pos() <= final(lexer).input().len(),
        agrees(r, final(lexer).pos(), regular_item(old(lexer).input(), old(lexer).pos(), builder@)),
{
    proof {
        lemma_lex_bounds(lexer.input(), lexer.pos());
    }
    match lexer.current() {
        Token::Tag => tag_item_exec(lexer, false, builder),
        Token::Word | Token::QuoteSingle | Token::QuoteDouble => match_item_exec(lexer, false, builder),
        Token::End | Token::Error => Err(builder),
        Token::Inverse => {
            lexer.advance();
            Ok(builder)
        },
    }
}

fn parse_items_exec(lexer: &mut Lexer, builder: BoolQueryBuilder) -> (r: BoolQueryBuilder)
    requires
        0 <= old(lexer).pos() <= old(lexer).input().len(),
    ensures
        r@ == parse_items(old(lexer).input(), old(lexer).pos(), builder@),
{
    let ghost s = lexer.input();
    let mut acc = builder;
    loop
        invariant
            lexer.input() == s,
            s == old(lexer).input(),
            0 <= lexer.pos() <= s.len(),
            parse_items(s, lexer.pos(), acc@) == parse_items(s, old(lexer).pos(), builder@),
        decreases s.len() - lexer.pos(),
    {
        let ghost p = lexer.pos();
        let t = lexer.current();
        if t == Token::End || t == Token::Error {
            return acc;
        }
        proof {
            lemma_item_progress(s, p, acc@);
        }
        let r = if t == Token::Inverse {
            inverse_item_exec(lexer, acc)
        } else {
            regular_item_exec(lexer, acc)
        };
        match r {
            Ok(b) => {
                acc = b;
            },
            Err(b) => {
                return b;
            },
        }
    }
}

impl<'a> QueryParser<'a> {
    /// The search string being compiled.
    pub closed spec fn source(&self) -> Seq<char> {
        self.lexer.input()
    }

    #[verifier::type_invariant]
    closed spec fn at_start(&self) -> bool {
        self.lexer.pos() == 0
    }

    pub fn new(query_str: &'a str) -> (r: Self)
        ensures
            r.source() == query_str@,
    {
        QueryParser { lexer: Lexer::new(query_str) }
    }

    /// Compiles the whole search string. Never fails: on malformed input the
    /// clauses collected before the fault are kept.
    pub fn parse(self) -> (q: Query)
        ensures
            q@ == parse_query(self.source()),
    {
        proof {
            use_type_invariant(&self);
        }
        let QueryParser { mut lexer } = self;
        parse_items_exec(&mut lexer, BoolQueryBuilder::new()).build()
    }
}

} // verus!
