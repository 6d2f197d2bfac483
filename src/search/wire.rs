use vstd::prelude::*;

use super::query::{strings_view, QueryV};

verus! {

/// The JSON string literal, quotes and escapes included, that serde_json
/// writes for `s`.
pub uninterp spec fn json_string(s: Seq<char>) -> Seq<char>;

/// Relies on serde_json's `Display` for `Value::String`: it writes the JSON
/// string literal for the text, and depends on the text alone.
#[verifier::external_body]
pub(crate) fn quote(s: &str) -> (r: String)
    ensures
        r@ == json_string(s@),
{
    serde_json::Value::String(s.to_owned()).to_string()
}

/// The decimal digit for `n < 10`.
pub open spec fn digit(n: nat) -> char {
    if n == 0 {
        '0'
    } else if n == 1 {
        '1'
    } else if n == 2 {
        '2'
    } else if n == 3 {
        '3'
    } else if n == 4 {
        '4'
    } else if n == 5 {
        '5'
    } else if n == 6 {
        '6'
    } else if n == 7 {
        '7'
    } else if n == 8 {
        '8'
    } else {
        '9'
    }
}

/// The decimal notation of `n`, without leading zeros.
pub open spec fn decimal(n: nat) -> Seq<char>
    decreases n,
{
    if n < 10 {
        seq![digit(n)]
    } else {
        decimal(n / 10).push(digit(n % 10))
    }
}

/// The items separated by commas.
pub open spec fn join(items: Seq<Seq<char>>) -> Seq<char>
    decreases items.len(),
{
    if items.len() == 0 {
        seq![]
    } else if items.len() == 1 {
        items[0]
    } else {
        join(items.drop_last()) + seq![','] + items.last()
    }
}

/// A JSON array of already encoded items.
pub open spec fn array(items: Seq<Seq<char>>) -> Seq<char> {
    seq!['['] + join(items) + seq![']']
}

/// `null`, or the number.
pub open spec fn opt_number(n: Option<u64>) -> Seq<char> {
    match n {
        Some(v) => decimal(v as nat),
        None => "null"@,
    }
}

pub open spec fn boolean(b: bool) -> Seq<char> {
    if b {
        "true"@
    } else {
        "false"@
    }
}

/// The encoded items of a clause list.
pub open spec fn clauses(qs: Seq<QueryV>) -> Seq<Seq<char>>
    decreases qs, 0nat,
{
    Seq::new(qs.len(), |i: int| if 0 <= i < qs.len() { wire(qs[i]) } else { seq![] })
}

/// The JSON text of a query on the wire: each variant is an object keyed
/// by its operator name, and leaf matches are keyed by their field.
pub open spec fn wire(q: QueryV) -> Seq<char>
    decreases q, 1nat,
{
    match q {
        QueryV::Boolean(b) => "{\"bool\":{\"must\":"@ + array(clauses(b.must)) + ",\"must_not\":"@
            + array(clauses(b.must_not)) + ",\"should\":"@ + array(clauses(b.should))
            + ",\"minimum_should_match\":"@ + opt_number(b.minimum_should_match)
            + ",\"boost\":null}}"@,
        QueryV::Exact { field, term } => "{\"term\":{"@ + json_string(field) + ":"@ + json_string(
            term,
        ) + "}}"@,
        QueryV::Fuzzy { field, fuzzy } => "{\"fuzzy\":{"@ + json_string(field) + ":{\"value\":"@
            + json_string(fuzzy.value) + ",\"distance\":"@ + decimal(fuzzy.distance as nat)
            + ",\"transposition\":"@ + boolean(fuzzy.transposition) + "}}}"@,
        QueryV::Phrase { field, pair } => "{\"phrase\":{"@ + json_string(field) + ":{\"terms\":"@
            + array(pair.terms.map_values(|t: Seq<char>| json_string(t))) + match pair.offsets {
            Some(o) => ",\"offsets\":"@ + array(o.map_values(|n: usize| decimal(n as nat))),
            None => seq![],
        } + "}}}"@,
    }
}


fn digit_str(n: u64) -> (r: &'static str)
    requires
        n < 10,
    ensures
        r@ == seq![digit(n as nat)],
{
    proof {
        reveal_strlit("0");
        reveal_strlit("1");
        reveal_strlit("2");
        reveal_strlit("3");
        reveal_strlit("4");
        reveal_strlit("5");
        reveal_strlit("6");
        reveal_strlit("7");
        reveal_strlit("8");
        reveal_strlit("9");
    }
    if n == 0 {
        "0"
    } else if n == 1 {
        "1"
    } else if n == 2 {
        "2"
    } else if n == 3 {
        "3"
    } else if n == 4 {
        "4"
    } else if n == 5 {
        "5"
    } else if n == 6 {
        "6"
    } else if n == 7 {
        "7"
    } else if n == 8 {
        "8"
    } else {
        "9"
    }
}

/// The decimal notation of `n`.
pub fn decimal_string(n: u64) -> (r: String)
    ensures
        r@ == decimal(n as nat),
    decreases n,
{
    if n < 10 {
        String::from_str(digit_str(n))
    } else {
        let mut r = decimal_string(n / 10);
        r.append(digit_str(n % 10));
        r
    }
}

/// `true` or `false`.
pub(crate) fn boolean_string(b: bool) -> (r: &'static str)
    ensures
        r@ == boolean(b),
{
    if b {
        "true"
    } else {
        "false"
    }
}

/// `null` or the number.
pub(crate) fn opt_number_string(n: Option<u64>) -> (r: String)
    ensures
        r@ == opt_number(n),
{
    match n {
        Some(v) => decimal_string(v),
        None => String::from_str("null"),
    }
}

proof fn lemma_join_push(items: Seq<Seq<char>>, x: Seq<char>)
    ensures
        join(items.push(x)) == if items.len() == 0 {
            x
        } else {
            join(items) + seq![','] + x
        },
{
    assert(items.push(x).drop_last() =~= items);
}

/// A JSON array of already encoded items.
pub(crate) fn array_string(items: &Vec<String>) -> (r: String)
    ensures
        r@ == array(strings_view(items@)),
{
    let ghost v = strings_view(items@);
    let mut r = String::from_str("[");
    proof {
        reveal_strlit("[");
        reveal_strlit("]");
        reveal_strlit(",");
    }
    let mut i: usize = 0;
    while i < items.len()
        invariant
            i <= items.len(),
            v == strings_view(items@),
            r@ == seq!['['] + join(v.take(i as int)),
        decreases items.len() - i,
    {
        proof {
            reveal_strlit(",");
            assert(v[i as int] == items@[i as int]@);
            lemma_join_push(v.take(i as int), v[i as int]);
            assert(v.take(i + 1) =~= v.take(i as int).push(v[i as int]));
        }
        if i > 0 {
            r.append(",");
        }
        r.append(items[i].as_str());
        assert(r@ =~= seq!['['] + join(v.take(i + 1)));
        i = i + 1;
    }
    assert(v.take(i as int) =~= v);
    r.append("]");
    r
}

} // verus!
