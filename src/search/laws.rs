use vstd::prelude::*;

use super::lexer::{lemma_lex_bounds, lex, skip_space, word_char, word_end, Lexeme, Token};
use super::query::{BoolQueryV, QueryV};
use super::query_parser::{
    add_quoted, add_tag, add_word, exact, fuzzy, item, parse_items, parse_query, phrase,
    quote_terms, text,
};

verus! {

/// A word as a user types it: at least one character, and none of white
/// space, quotes or `:`.
pub open spec fn plain_word(w: Seq<char>) -> bool {
    w.len() > 0 && forall|i: int| 0 <= i < w.len() ==> word_char(#[trigger] w[i])
}

proof fn lemma_word_end_run(s: Seq<char>, p: int, n: int)
    requires
        0 <= p,
        0 <= n,
        p + n <= s.len(),
        forall|k: int| p <= k < p + n ==> word_char(#[trigger] s[k]),
        p + n == s.len() || !word_char(s[p + n]),
    ensures
        word_end(s, p) == p + n,
    decreases n,
{
    if n > 0 {
        lemma_word_end_run(s, p + 1, n - 1);
    }
}

/// A plain word at `p` that is followed by the end or by a character that
/// ends it (but not `:`) is one `Word` token.
proof fn lemma_lex_word(s: Seq<char>, p: int, w: Seq<char>)
    requires
        0 <= p,
        p + w.len() <= s.len(),
        s.subrange(p, p + w.len()) == w,
        plain_word(w),
        p + w.len() < s.len() ==> !word_char(s[p + w.len()]) && s[p + w.len()] != ':',
    ensures
        lex(s, p) == (Lexeme { token: Token::Word, start: p, end: p + w.len() }),
        text(s, lex(s, p)) == w,
{
    assert forall|k: int| p <= k < p + w.len() implies word_char(#[trigger] s[k]) by {
        assert(s[k] == w[k - p]);
    }
    assert(word_char(s[p]));
    assert(skip_space(s, p) == p);
    lemma_word_end_run(s, p, w.len() as int);
    assert(!(s[p + 3] == ':' && p + 4 <= s.len()) || w.len() <= 3);
}

/// The end of the input is `End`.
proof fn lemma_lex_end(s: Seq<char>)
    ensures
        lex(s, s.len() as int) == (Lexeme { token: Token::End, start: s.len() as int, end: s.len() as int }),
{
}

/// Parsing a lone plain word `w` gives three `should` clauses: fuzzy on
/// title, fuzzy on body, exact on tag.
pub proof fn lemma_plain_word(w: Seq<char>)
    requires
        plain_word(w),
    ensures
        parse_query(w) == QueryV::Boolean(
            BoolQueryV {
                must: seq![],
                must_not: seq![],
                should: seq![fuzzy("title"@, w), fuzzy("body"@, w), exact("tag"@, w)],
                minimum_should_match: None,
            },
        ),
{
    assert(w.subrange(0, w.len() as int) =~= w);
    lemma_lex_word(w, 0, w);
    lemma_lex_end(w);
    let st = item(w, 0, BoolQueryV::empty());
    assert(st.ok && st.pos == w.len() && st.acc == add_word(BoolQueryV::empty(), false, w));
    assert(parse_items(w, w.len() as int, st.acc) == st.acc);
    let b = parse_items(w, 0, BoolQueryV::empty());
    assert(b == st.acc);
    assert(b.should =~= seq![fuzzy("title"@, w), fuzzy("body"@, w), exact("tag"@, w)]);
    assert(b.must =~= seq![]);
    assert(b.must_not =~= seq![]);
}


/// Parsing `not:` before a plain word `w` gives three exact `must_not`
/// clauses: on body, title and tag.
pub proof fn lemma_negated_word(w: Seq<char>)
    requires
        plain_word(w),
    ensures
        parse_query("not:"@ + w) == QueryV::Boolean(
            BoolQueryV {
                must: seq![],
                must_not: seq![exact("body"@, w), exact("title"@, w), exact("tag"@, w)],
                should: seq![],
                minimum_should_match: None,
            },
        ),
{
    reveal_strlit("not:");
    let s = "not:"@ + w;
    assert(s.subrange(4, s.len() as int) =~= w);
    assert(skip_space(s, 0) == 0);
    lemma_lex_word(s, 4, w);
    lemma_lex_end(s);
    let st = item(s, 0, BoolQueryV::empty());
    assert(st.ok && st.pos == s.len() && st.acc == add_word(BoolQueryV::empty(), true, w));
    assert(parse_items(s, s.len() as int, st.acc) == st.acc);
    let b = parse_items(s, 0, BoolQueryV::empty());
    assert(b == st.acc);
    assert(b.must_not =~= seq![exact("body"@, w), exact("title"@, w), exact("tag"@, w)]);
    assert(b.must =~= seq![]);
    assert(b.should =~= seq![]);
}

/// Parsing `tag:` before a plain word `w` gives one `must` clause, an exact
/// match of `w` on tag.
pub proof fn lemma_tag_filter(w: Seq<char>)
    requires
        plain_word(w),
    ensures
        parse_query("tag:"@ + w) == QueryV::Boolean(
            BoolQueryV {
                must: seq![exact("tag"@, w)],
                must_not: seq![],
                should: seq![],
                minimum_should_match: None,
            },
        ),
{
    reveal_strlit("tag:");
    let s = "tag:"@ + w;
    assert(s.subrange(4, s.len() as int) =~= w);
    assert(skip_space(s, 0) == 0);
    lemma_lex_word(s, 4, w);
    lemma_lex_end(s);
    let st = item(s, 0, BoolQueryV::empty());
    assert(st.ok && st.pos == s.len() && st.acc == add_tag(BoolQueryV::empty(), false, w));
    assert(parse_items(s, s.len() as int, st.acc) == st.acc);
    let b = parse_items(s, 0, BoolQueryV::empty());
    assert(b == st.acc);
    assert(b.must =~= seq![exact("tag"@, w)]);
    assert(b.must_not =~= seq![]);
    assert(b.should =~= seq![]);
}

/// Parsing `not:tag:` before a plain word `w` gives one `must_not` clause,
/// an exact match of `w` on tag.
pub proof fn lemma_negated_tag_filter(w: Seq<char>)
    requires
        plain_word(w),
    ensures
        parse_query("not:tag:"@ + w) == QueryV::Boolean(
            BoolQueryV {
                must: seq![],
                must_not: seq![exact("tag"@, w)],
                should: seq![],
                minimum_should_match: None,
            },
        ),
{
    reveal_strlit("not:tag:");
    let s = "not:tag:"@ + w;
    assert(s.subrange(8, s.len() as int) =~= w);
    assert(skip_space(s, 0) == 0);
    assert(skip_space(s, 4) == 4);
    lemma_lex_word(s, 8, w);
    lemma_lex_end(s);
    let st = item(s, 0, BoolQueryV::empty());
    assert(st.ok && st.pos == s.len() && st.acc == add_tag(BoolQueryV::empty(), true, w));
    assert(parse_items(s, s.len() as int, st.acc) == st.acc);
    let b = parse_items(s, 0, BoolQueryV::empty());
    assert(b == st.acc);
    assert(b.must_not =~= seq![exact("tag"@, w)]);
    assert(b.must =~= seq![]);
    assert(b.should =~= seq![]);
}


/// A double-quoted plain word `w` is matched exactly: three `should`
/// clauses on body, title and tag, none of them fuzzy.
pub proof fn lemma_quoted_word(w: Seq<char>)
    requires
        plain_word(w),
    ensures
        parse_query(seq!['"'] + w + seq!['"']) == QueryV::Boolean(
            BoolQueryV {
                must: seq![],
                must_not: seq![],
                should: seq![exact("body"@, w), exact("title"@, w), exact("tag"@, w)],
                minimum_should_match: None,
            },
        ),
{
    let s = seq!['"'] + w + seq!['"'];
    let n = w.len() as int;
    assert(s.subrange(1, 1 + n) =~= w);
    assert(s[1 + n] == '"');
    assert(skip_space(s, 0) == 0);
    assert(skip_space(s, 1 + n) == 1 + n);
    lemma_lex_word(s, 1, w);
    lemma_lex_end(s);
    assert(quote_terms(s, 1 + n, Token::QuoteDouble, seq![w]) == Some((seq![w], 2 + n)));
    assert(quote_terms(s, 1, Token::QuoteDouble, seq![]) == Some((seq![w], 2 + n))) by {
        assert(seq![].push(w) =~= seq![w]);
    }
    let st = item(s, 0, BoolQueryV::empty());
    assert(st.ok && st.pos == s.len() && st.acc == add_quoted(BoolQueryV::empty(), false, seq![w]));
    assert(parse_items(s, s.len() as int, st.acc) == st.acc);
    let b = parse_items(s, 0, BoolQueryV::empty());
    assert(b == st.acc);
    assert(b.should =~= seq![exact("body"@, w), exact("title"@, w), exact("tag"@, w)]);
    assert(b.must =~= seq![]);
    assert(b.must_not =~= seq![]);
}

/// A double-quoted phrase of two plain words `a b` gives two `should`
/// phrase clauses, on title and on body, with the words in order.
pub proof fn lemma_quoted_phrase(a: Seq<char>, b: Seq<char>)
    requires
        plain_word(a),
        plain_word(b),
    ensures
        parse_query(seq!['"'] + a + seq![' '] + b + seq!['"']) == QueryV::Boolean(
            BoolQueryV {
                must: seq![],
                must_not: seq![],
                should: seq![phrase("title"@, seq![a, b]), phrase("body"@, seq![a, b])],
                minimum_should_match: None,
            },
        ),
{
    let s = seq!['"'] + a + seq![' '] + b + seq!['"'];
    let n = a.len() as int;
    let m = b.len() as int;
    assert(s.subrange(1, 1 + n) =~= a);
    assert(s.subrange(2 + n, 2 + n + m) =~= b);
    assert(s[1 + n] == ' ');
    assert(s[2 + n + m] == '"');
    assert(skip_space(s, 0) == 0);
    assert(skip_space(s, 2 + n) == 2 + n) by {
        assert(word_char(s[2 + n]));
    }
    assert(skip_space(s, 1 + n) == 2 + n);
    assert(skip_space(s, 2 + n + m) == 2 + n + m);
    lemma_lex_word(s, 1, a);
    lemma_lex_word(s, 2 + n, b);
    lemma_lex_end(s);
    let ab = seq![a, b];
    assert(quote_terms(s, 2 + n + m, Token::QuoteDouble, ab) == Some((ab, 3 + n + m)));
    assert(quote_terms(s, 1 + n, Token::QuoteDouble, seq![a]) == Some((ab, 3 + n + m))) by {
        assert(seq![a].push(b) =~= ab);
    }
    assert(quote_terms(s, 1, Token::QuoteDouble, seq![]) == Some((ab, 3 + n + m))) by {
        assert(seq![].push(a) =~= seq![a]);
    }
    let st = item(s, 0, BoolQueryV::empty());
    assert(st.ok && st.pos == s.len() && st.acc == add_quoted(BoolQueryV::empty(), false, ab));
    assert(parse_items(s, s.len() as int, st.acc) == st.acc);
    let r = parse_items(s, 0, BoolQueryV::empty());
    assert(r == st.acc);
    assert(r.should =~= seq![phrase("title"@, ab), phrase("body"@, ab)]);
    assert(r.must =~= seq![]);
    assert(r.must_not =~= seq![]);
}


/// Parsing depends on the search string alone: equal strings compile to
/// equal queries.
pub proof fn lemma_parse_deterministic(s1: Seq<char>, s2: Seq<char>)
    requires
        s1 == s2,
    ensures
        parse_query(s1) == parse_query(s2),
{
}

/// A quote token that the same quote follows at once.
pub open spec fn empty_quotes_at(s: Seq<char>, p: int) -> bool {
    let l = lex(s, p);
    (l.token == Token::QuoteSingle || l.token == Token::QuoteDouble) && lex(s, l.end).token
        == l.token
}

/// The position after the empty quotes at `p`.
pub open spec fn after_empty_quotes(s: Seq<char>, p: int) -> int {
    lex(s, lex(s, p).end).end
}

/// An empty pair of quotes adds no clause: parsing goes on after it with
/// the clauses collected so far.
pub proof fn lemma_empty_quotes(s: Seq<char>, p: int, b: BoolQueryV)
    requires
        0 <= p <= s.len(),
        empty_quotes_at(s, p),
    ensures
        parse_items(s, p, b) == parse_items(s, after_empty_quotes(s, p), b),
{
    let l = lex(s, p);
    lemma_lex_bounds(s, p);
    lemma_lex_bounds(s, l.end);
    assert(quote_terms(s, l.end, l.token, seq![]) == Some((Seq::<Seq<char>>::empty(), after_empty_quotes(s, p))));
    let st = item(s, p, b);
    assert(st.ok && st.pos == after_empty_quotes(s, p) && st.acc == b);
}

/// A negated empty pair of quotes (`not:""`) adds no clause either.
pub proof fn lemma_negated_empty_quotes(s: Seq<char>, p: int, b: BoolQueryV)
    requires
        0 <= p <= s.len(),
        lex(s, p).token == Token::Inverse,
        empty_quotes_at(s, lex(s, p).end),
    ensures
        parse_items(s, p, b) == parse_items(s, after_empty_quotes(s, lex(s, p).end), b),
{
    let m = lex(s, p);
    lemma_lex_bounds(s, p);
    let l = lex(s, m.end);
    lemma_lex_bounds(s, m.end);
    lemma_lex_bounds(s, l.end);
    assert(quote_terms(s, l.end, l.token, seq![]) == Some((Seq::<Seq<char>>::empty(), after_empty_quotes(s, m.end))));
    let st = item(s, p, b);
    assert(st.ok && st.pos == after_empty_quotes(s, m.end) && st.acc == b);
}


/// An empty pair of quotes after `tag:` (`tag:""`) adds no clause either.
pub proof fn lemma_tag_empty_quotes(s: Seq<char>, p: int, b: BoolQueryV)
    requires
        0 <= p <= s.len(),
        lex(s, p).token == Token::Tag,
        empty_quotes_at(s, lex(s, p).end),
    ensures
        parse_items(s, p, b) == parse_items(s, after_empty_quotes(s, lex(s, p).end), b),
{
    let m = lex(s, p);
    lemma_lex_bounds(s, p);
    let l = lex(s, m.end);
    lemma_lex_bounds(s, m.end);
    lemma_lex_bounds(s, l.end);
    assert(quote_terms(s, l.end, l.token, seq![]) == Some((Seq::<Seq<char>>::empty(), after_empty_quotes(s, m.end))));
    let st = item(s, p, b);
    assert(st.ok && st.pos == after_empty_quotes(s, m.end) && st.acc == b);
}

} // verus!
