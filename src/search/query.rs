use vstd::prelude::*;

use super::wire::{
    array, array_string, boolean_string, clauses, decimal, decimal_string, json_string,
    opt_number_string, quote, wire,
};

verus! {

/// What a query means: the tree of clauses that the search engine receives.
pub enum QueryV {
    Boolean(BoolQueryV),
    Exact { field: Seq<char>, term: Seq<char> },
    Fuzzy { field: Seq<char>, fuzzy: FuzzyTermV },
    Phrase { field: Seq<char>, pair: TermPairV },
}

/// The clause lists of a boolean query, in insertion order.
pub struct BoolQueryV {
    pub must: Seq<QueryV>,
    pub must_not: Seq<QueryV>,
    pub should: Seq<QueryV>,
    pub minimum_should_match: Option<u64>,
}

/// The value side of a fuzzy match.
pub struct FuzzyTermV {
    pub value: Seq<char>,
    pub distance: u8,
    pub transposition: bool,
}

/// The value side of a phrase match.
pub struct TermPairV {
    pub terms: Seq<Seq<char>>,
    pub offsets: Option<Seq<usize>>,
}

impl BoolQueryV {
    /// A boolean query without any clause or modifier.
    pub open spec fn empty() -> Self {
        BoolQueryV {
            must: Seq::empty(),
            must_not: Seq::empty(),
            should: Seq::empty(),
            minimum_should_match: None,
        }
    }

    /// No clause list holds anything.
    pub open spec fn is_empty(self) -> bool {
        self.must.len() == 0 && self.must_not.len() == 0 && self.should.len() == 0
    }

    pub open spec fn add_must(self, q: QueryV) -> Self {
        BoolQueryV { must: self.must.push(q), ..self }
    }

    pub open spec fn add_must_not(self, q: QueryV) -> Self {
        BoolQueryV { must_not: self.must_not.push(q), ..self }
    }

    pub open spec fn add_should(self, q: QueryV) -> Self {
        BoolQueryV { should: self.should.push(q), ..self }
    }
}

/// The views of a list of strings.
pub open spec fn strings_view(v: Seq<String>) -> Seq<Seq<char>> {
    v.map_values(|s: String| s@)
}

/// A compiled search query. Top-level queries are always `Boolean`.
#[derive(Debug)]
pub enum Query {
    Boolean { bool: BoolQuery },
    Exact(ExactTerm),
    Fuzzy(FuzzyQuery),
    Phrase(PhraseQuery),
}

/// An exact term match against one field.
#[derive(Debug, Clone)]
pub struct ExactTerm {
    term: KeyValue<String>,
}

/// A combination of sub-queries.
#[derive(Debug)]
pub struct BoolQuery {
    must: Vec<Query>,
    must_not: Vec<Query>,
    should: Vec<Query>,
    minimum_should_match: Option<u64>,
}

/// An approximate term match against one field.
#[derive(Debug, Clone)]
pub struct FuzzyQuery {
    fuzzy: KeyValue<FuzzyTerm>,
}

#[derive(Debug, Clone)]
pub struct FuzzyTerm {
    value: String,
    distance: u8,
    transposition: bool,
}

/// An ordered multi-term match against one field.
#[derive(Debug, Clone)]
pub struct PhraseQuery {
    phrase: KeyValue<TermPair>,
}

#[derive(Debug, Clone)]
pub struct TermPair {
    terms: Vec<String>,
    offsets: Option<Vec<usize>>,
}

/// A field name and what is matched against it.
#[derive(Debug, Clone)]
pub struct KeyValue<T> {
    pub field: String,
    pub value: T,
}

impl<T: View> View for KeyValue<T> {
    type V = (Seq<char>, T::V);

    open spec fn view(&self) -> (Seq<char>, T::V) {
        (self.field@, self.value@)
    }
}

impl View for FuzzyTerm {
    type V = FuzzyTermV;

    closed spec fn view(&self) -> FuzzyTermV {
        FuzzyTermV { value: self.value@, distance: self.distance, transposition: self.transposition }
    }
}

impl View for TermPair {
    type V = TermPairV;

    closed spec fn view(&self) -> TermPairV {
        TermPairV {
            terms: strings_view(self.terms@),
            offsets: match self.offsets {
                Some(o) => Some(o@),
                None => None,
            },
        }
    }
}

impl View for ExactTerm {
    type V = QueryV;

    closed spec fn view(&self) -> QueryV {
        QueryV::Exact { field: self.term.field@, term: self.term.value@ }
    }
}

impl View for FuzzyQuery {
    type V = QueryV;

    closed spec fn view(&self) -> QueryV {
        QueryV::Fuzzy { field: self.fuzzy.field@, fuzzy: self.fuzzy.value@ }
    }
}

impl View for PhraseQuery {
    type V = QueryV;

    closed spec fn view(&self) -> QueryV {
        QueryV::Phrase { field: self.phrase.field@, pair: self.phrase.value@ }
    }
}

/// The views of a list of queries.
pub open spec fn queries_view(v: Seq<Query>) -> Seq<QueryV> {
    v.map_values(|q: Query| q@)
}

impl View for BoolQuery {
    type V = BoolQueryV;

    closed spec fn view(&self) -> BoolQueryV {
        BoolQueryV {
            must: queries_view(self.must@),
            must_not: queries_view(self.must_not@),
            should: queries_view(self.should@),
            minimum_should_match: self.minimum_should_match,
        }
    }
}

closed spec fn query_view(q: Query) -> QueryV
    decreases q,
{
    match q {
        Query::Boolean { bool } => QueryV::Boolean(
            BoolQueryV {
                must: Seq::new(
                    bool.must.len() as nat,
                    |i: int|
                        if 0 <= i < bool.must.len() {
                            query_view(bool.must[i])
                        } else {
                            QueryV::Boolean(BoolQueryV::empty())
                        },
                ),
                must_not: Seq::new(
                    bool.must_not.len() as nat,
                    |i: int|
                        if 0 <= i < bool.must_not.len() {
                            query_view(bool.must_not[i])
                        } else {
                            QueryV::Boolean(BoolQueryV::empty())
                        },
                ),
                should: Seq::new(
                    bool.should.len() as nat,
                    |i: int|
                        if 0 <= i < bool.should.len() {
                            query_view(bool.should[i])
                        } else {
                            QueryV::Boolean(BoolQueryV::empty())
                        },
                ),
                minimum_should_match: bool.minimum_should_match,
            },
        ),
        Query::Exact(e) => e@,
        Query::Fuzzy(f) => f@,
        Query::Phrase(p) => p@,
    }
}

impl View for Query {
    type V = QueryV;

    closed spec fn view(&self) -> QueryV {
        query_view(*self)
    }
}

/// The view of a boolean query seen as a query is its clause lists.
proof fn lemma_boolean_view(b: BoolQuery)
    ensures
        (Query::Boolean { bool: b })@ == QueryV::Boolean(b@),
{
    let q = Query::Boolean { bool: b };
    assert(query_view(q) == QueryV::Boolean(b@)) by {
        let bv = b@;
        if let QueryV::Boolean(v) = query_view(q) {
            assert(v.must =~= bv.must);
            assert(v.must_not =~= bv.must_not);
            assert(v.should =~= bv.should);
        }
    }
}

impl Query {
    /// Whether a boolean query has no clause at all. Callers use it to skip
    /// sending a vacuous query.
    pub fn is_empty(&self) -> (r: bool)
        requires
            self@ is Boolean,
        ensures
            r == self@->Boolean_0.is_empty(),
    {
        match self {
            Query::Boolean { bool: b } => {
                proof {
                    lemma_boolean_view(*b);
                }
                b.is_empty()
            },
            _ => {
                // Only boolean queries are admitted.
                proof {
                    assert(false);
                }
                true
            },
        }
    }
}

impl ExactTerm {
    pub fn new(term: KeyValue<String>) -> (r: Self)
        ensures
            r@ == (QueryV::Exact { field: term.field@, term: term.value@ }),
    {
        Self { term }
    }
}

impl BoolQuery {
    pub fn is_empty(&self) -> (r: bool)
        ensures
            r == self@.is_empty(),
    {
        self.must.len() == 0 && self.must_not.len() == 0 && self.should.len() == 0
    }
}

impl FuzzyTerm {
    pub fn new(value: String, distance: u8, transposition: bool) -> (r: Self)
        ensures
            r@ == (FuzzyTermV { value: value@, distance, transposition }),
    {
        Self { value, distance, transposition }
    }
}

impl FuzzyQuery {
    pub fn new(fuzzy: KeyValue<FuzzyTerm>) -> (r: Self)
        ensures
            r@ == (QueryV::Fuzzy { field: fuzzy.field@, fuzzy: fuzzy.value@ }),
    {
        Self { fuzzy }
    }
}

impl TermPair {
    pub fn new(terms: Vec<String>, offsets: Option<Vec<usize>>) -> (r: Self)
        ensures
            r@.terms == strings_view(terms@),
            r@.offsets == (match offsets {
                Some(o) => Some(o@),
                None => None,
            }),
    {
        TermPair { terms, offsets }
    }
}

impl PhraseQuery {
    pub fn new(phrase: KeyValue<TermPair>) -> (r: Self)
        ensures
            r@ == (QueryV::Phrase { field: phrase.field@, pair: phrase.value@ }),
    {
        PhraseQuery { phrase }
    }
}


/// An accumulator of clauses, finalised once into a `Query::Boolean`.
/// Clauses keep the order in which they were added.
pub struct BoolQueryBuilder {
    must: Vec<Query>,
    must_not: Vec<Query>,
    should: Vec<Query>,
    minimum_should_match: Option<u64>,
}

impl View for BoolQueryBuilder {
    type V = BoolQueryV;

    closed spec fn view(&self) -> BoolQueryV {
        BoolQueryV {
            must: queries_view(self.must@),
            must_not: queries_view(self.must_not@),
            should: queries_view(self.should@),
            minimum_should_match: self.minimum_should_match,
        }
    }
}

impl BoolQueryBuilder {
    pub fn new() -> (r: Self)
        ensures
            r@ == BoolQueryV::empty(),
    {
        let r = Self { must: vec![], must_not: vec![], should: vec![], minimum_should_match: None };
        assert(r@.must =~= Seq::empty());
        assert(r@.must_not =~= Seq::empty());
        assert(r@.should =~= Seq::empty());
        r
    }

    pub fn build(self) -> (r: Query)
        ensures
            r@ == QueryV::Boolean(self@),
    {
        let b = BoolQuery {
            must: self.must,
            must_not: self.must_not,
            should: self.should,
            minimum_should_match: self.minimum_should_match,
        };
        proof {
            lemma_boolean_view(b);
        }
        Query::Boolean { bool: b }
    }

    pub fn must(self, q: Query) -> (r: Self)
        ensures
            r@ == self@.add_must(q@),
    {
        let mut b = self;
        b.must.push(q);
        assert(b@.must =~= self@.must.push(q@));
        b
    }

    pub fn must_not(self, q: Query) -> (r: Self)
        ensures
            r@ == self@.add_must_not(q@),
    {
        let mut b = self;
        b.must_not.push(q);
        assert(b@.must_not =~= self@.must_not.push(q@));
        b
    }

    pub fn should(self, q: Query) -> (r: Self)
        ensures
            r@ == self@.add_should(q@),
    {
        let mut b = self;
        b.should.push(q);
        assert(b@.should =~= self@.should.push(q@));
        b
    }

    pub fn minimum_should_match(self, s: u64) -> (r: Self)
        ensures
            r@ == (BoolQueryV { minimum_should_match: Some(s), ..self@ }),
    {
        let mut b = self;
        b.minimum_should_match = Some(s);
        b
    }
}

/// Assembles an exact term match; field and term are both required.
pub struct ExactQueryBuilder {
    field: Option<String>,
    term: Option<String>,
}

/// What an exact-match builder has been given so far.
pub struct ExactBuilderV {
    pub field: Option<Seq<char>>,
    pub term: Option<Seq<char>>,
}

pub open spec fn opt_view(o: Option<String>) -> Option<Seq<char>> {
    match o {
        Some(s) => Some(s@),
        None => None,
    }
}

impl View for ExactQueryBuilder {
    type V = ExactBuilderV;

    closed spec fn view(&self) -> ExactBuilderV {
        ExactBuilderV { field: opt_view(self.field), term: opt_view(self.term) }
    }
}

impl ExactQueryBuilder {
    pub fn new() -> (r: Self)
        ensures
            r@ == (ExactBuilderV { field: None, term: None }),
    {
        Self { field: None, term: None }
    }

    pub fn build(self) -> (r: Query)
        requires
            self@.field is Some,
            self@.term is Some,
        ensures
            r@ == (QueryV::Exact { field: self@.field->0, term: self@.term->0 }),
    {
        let field = self.field.unwrap();
        let value = self.term.unwrap();
        Query::Exact(ExactTerm::new(KeyValue { field, value }))
    }

    pub fn with_field(self, f: String) -> (r: Self)
        ensures
            r@ == (ExactBuilderV { field: Some(f@), ..self@ }),
    {
        let mut b = self;
        b.field = Some(f);
        b
    }

    pub fn with_term(self, term: String) -> (r: Self)
        ensures
            r@ == (ExactBuilderV { term: Some(term@), ..self@ }),
    {
        let mut b = self;
        b.term = Some(term);
        b
    }
}

/// Assembles a phrase match; the field is required.
pub struct PhraseQueryBuilder {
    field: Option<String>,
    terms: Vec<String>,
}

/// What a phrase builder has been given so far.
pub struct PhraseBuilderV {
    pub field: Option<Seq<char>>,
    pub terms: Seq<Seq<char>>,
}

impl View for PhraseQueryBuilder {
    type V = PhraseBuilderV;

    closed spec fn view(&self) -> PhraseBuilderV {
        PhraseBuilderV { field: opt_view(self.field), terms: strings_view(self.terms@) }
    }
}

impl PhraseQueryBuilder {
    pub fn new() -> (r: Self)
        ensures
            r@ == (PhraseBuilderV { field: None, terms: Seq::empty() }),
    {
        let r = Self { field: None, terms: vec![] };
        assert(r@.terms =~= Seq::empty());
        r
    }

    pub fn build(self) -> (r: Query)
        requires
            self@.field is Some,
        ensures
            r@ == (QueryV::Phrase {
                field: self@.field->0,
                pair: TermPairV { terms: self@.terms, offsets: None },
            }),
    {
        let field = self.field.unwrap();
        let value = TermPair::new(self.terms, None);
        Query::Phrase(PhraseQuery::new(KeyValue { field, value }))
    }

    pub fn with_field(self, f: String) -> (r: Self)
        ensures
            r@ == (PhraseBuilderV { field: Some(f@), ..self@ }),
    {
        let mut b = self;
        b.field = Some(f);
        b
    }

    /// Appends each of `terms`, in order.
    pub fn with_terms(self, terms: Vec<String>) -> (r: Self)
        ensures
            r@ == (PhraseBuilderV { terms: self@.terms + strings_view(terms@), ..self@ }),
    {
        let mut b = self;
        let mut rest = terms;
        b.terms.append(&mut rest);
        assert(b@.terms =~= self@.terms + strings_view(terms@));
        b
    }

    pub fn with_term(self, term: String) -> (r: Self)
        ensures
            r@ == (PhraseBuilderV { terms: self@.terms.push(term@), ..self@ }),
    {
        let mut b = self;
        b.terms.push(term);
        assert(b@.terms =~= self@.terms.push(term@));
        b
    }
}

/// Assembles a fuzzy match; field and value are required, the edit distance
/// starts at 0 and transpositions start disabled.
pub struct FuzzyQueryBuilder {
    field: Option<String>,
    value: Option<String>,
    distance: u8,
    transposition: bool,
}

/// What a fuzzy builder has been given so far.
pub struct FuzzyBuilderV {
    pub field: Option<Seq<char>>,
    pub value: Option<Seq<char>>,
    pub distance: u8,
    pub transposition: bool,
}

impl View for FuzzyQueryBuilder {
    type V = FuzzyBuilderV;

    closed spec fn view(&self) -> FuzzyBuilderV {
        FuzzyBuilderV {
            field: opt_view(self.field),
            value: opt_view(self.value),
            distance: self.distance,
            transposition: self.transposition,
        }
    }
}

impl FuzzyQueryBuilder {
    pub fn new() -> (r: Self)
        ensures
            r@ == (FuzzyBuilderV { field: None, value: None, distance: 0, transposition: false }),
    {
        Self { field: None, value: None, distance: 0, transposition: false }
    }

    pub fn build(self) -> (r: Query)
        requires
            self@.field is Some,
            self@.value is Some,
        ensures
            r@ == (QueryV::Fuzzy {
                field: self@.field->0,
                fuzzy: FuzzyTermV {
                    value: self@.value->0,
                    distance: self@.distance,
                    transposition: self@.transposition,
                },
            }),
    {
        let field = self.field.unwrap();
        let value = FuzzyTerm::new(self.value.unwrap(), self.distance, self.transposition);
        Query::Fuzzy(FuzzyQuery::new(KeyValue { field, value }))
    }

    pub fn with_field(self, f: String) -> (r: Self)
        ensures
            r@ == (FuzzyBuilderV { field: Some(f@), ..self@ }),
    {
        let mut b = self;
        b.field = Some(f);
        b
    }

    pub fn with_term(self, v: String) -> (r: Self)
        ensures
            r@ == (FuzzyBuilderV { value: Some(v@), ..self@ }),
    {
        let mut b = self;
        b.value = Some(v);
        b
    }

    pub fn with_distance(self, d: u8) -> (r: Self)
        ensures
            r@ == (FuzzyBuilderV { distance: d, ..self@ }),
    {
        let mut b = self;
        b.distance = d;
        b
    }

    pub fn with_transposition(self, t: bool) -> (r: Self)
        ensures
            r@ == (FuzzyBuilderV { transposition: t, ..self@ }),
    {
        let mut b = self;
        b.transposition = t;
        b
    }
}


/// The encoded clauses of a list, as a JSON array.
fn clauses_json(qs: &Vec<Query>) -> (r: String)
    ensures
        r@ == array(clauses(queries_view(qs@))),
    decreases qs,
{
    let ghost target = clauses(queries_view(qs@));
    let mut items: Vec<String> = Vec::new();
    let mut i: usize = 0;
    while i < qs.len()
        invariant
            i <= qs.len(),
            target == clauses(queries_view(qs@)),
            strings_view(items@) == target.take(i as int),
        decreases qs.len() - i,
    {
        proof {
            assert(decreases_to!(qs => qs[i as int]));
        }
        let ghost prev = strings_view(items@);
        let item = qs[i].to_json();
        items.push(item);
        assert(strings_view(items@) =~= prev.push(target[i as int]));
        assert(target.take(i + 1) =~= target.take(i as int).push(target[i as int]));
        i = i + 1;
    }
    assert(target.take(i as int) =~= target);
    array_string(&items)
}

impl Query {
    /// The JSON text that the search engine receives for this query.
    pub fn to_json(&self) -> (r: String)
        ensures
            r@ == wire(self@),
        decreases self,
    {
        match self {
            Query::Boolean { bool: b } => {
                proof {
                    lemma_boolean_view(*b);
                }
                let mut r = String::from_str("{\"bool\":{\"must\":");
                r.append(clauses_json(&b.must).as_str());
                r.append(",\"must_not\":");
                r.append(clauses_json(&b.must_not).as_str());
                r.append(",\"should\":");
                r.append(clauses_json(&b.should).as_str());
                r.append(",\"minimum_should_match\":");
                r.append(opt_number_string(b.minimum_should_match).as_str());
                r.append(",\"boost\":null}}");
                assert(r@ =~= wire(self@));
                r
            },
            Query::Exact(e) => {
                let mut r = String::from_str("{\"term\":{");
                r.append(quote(e.term.field.as_str()).as_str());
                r.append(":");
                r.append(quote(e.term.value.as_str()).as_str());
                r.append("}}");
                assert(r@ =~= wire(self@));
                r
            },
            Query::Fuzzy(f) => {
                let t = &f.fuzzy.value;
                let mut r = String::from_str("{\"fuzzy\":{");
                r.append(quote(f.fuzzy.field.as_str()).as_str());
                r.append(":{\"value\":");
                r.append(quote(t.value.as_str()).as_str());
                r.append(",\"distance\":");
                r.append(decimal_string(t.distance as u64).as_str());
                r.append(",\"transposition\":");
                r.append(boolean_string(t.transposition));
                r.append("}}}");
                assert(r@ =~= wire(self@));
                r
            },
            Query::Phrase(p) => {
                let pair = &p.phrase.value;
                let mut r = String::from_str("{\"phrase\":{");
                r.append(quote(p.phrase.field.as_str()).as_str());
                r.append(":{\"terms\":");
                r.append(terms_json(&pair.terms).as_str());
                match &pair.offsets {
                    Some(o) => {
                        r.append(",\"offsets\":");
                        r.append(offsets_json(o).as_str());
                    },
                    None => {},
                }
                r.append("}}}");
                assert(r@ =~= wire(self@));
                r
            },
        }
    }
}

/// The terms of a phrase, each encoded as a JSON string.
fn terms_json(terms: &Vec<String>) -> (r: String)
    ensures
        r@ == array(strings_view(terms@).map_values(|t: Seq<char>| json_string(t))),
{
    let ghost target = strings_view(terms@).map_values(|t: Seq<char>| json_string(t));
    let mut items: Vec<String> = Vec::new();
    let mut i: usize = 0;
    while i < terms.len()
        invariant
            i <= terms.len(),
            target == strings_view(terms@).map_values(|t: Seq<char>| json_string(t)),
            strings_view(items@) == target.take(i as int),
        decreases terms.len() - i,
    {
        let ghost prev = strings_view(items@);
        items.push(quote(terms[i].as_str()));
        assert(strings_view(items@) =~= prev.push(target[i as int]));
        assert(target.take(i + 1) =~= target.take(i as int).push(target[i as int]));
        i = i + 1;
    }
    assert(target.take(i as int) =~= target);
    array_string(&items)
}

/// Phrase offsets as a JSON array of numbers.
fn offsets_json(offsets: &Vec<usize>) -> (r: String)
    ensures
        r@ == array(offsets@.map_values(|n: usize| decimal(n as nat))),
{
    let ghost target = offsets@.map_values(|n: usize| decimal(n as nat));
    let mut items: Vec<String> = Vec::new();
    let mut i: usize = 0;
    while i < offsets.len()
        invariant
            i <= offsets.len(),
            target == offsets@.map_values(|n: usize| decimal(n as nat)),
            strings_view(items@) == target.take(i as int),
        decreases offsets.len() - i,
    {
        let ghost prev = strings_view(items@);
        items.push(decimal_string(offsets[i] as u64));
        assert(strings_view(items@) =~= prev.push(target[i as int]));
        assert(target.take(i + 1) =~= target.take(i as int).push(target[i as int]));
        i = i + 1;
    }
    assert(target.take(i as int) =~= target);
    array_string(&items)
}


/// Whether two lists of strings hold the same texts.
fn strings_eq(a: &Vec<String>, b: &Vec<String>) -> (r: bool)
    ensures
        r == (strings_view(a@) == strings_view(b@)),
{
    if a.len() != b.len() {
        return false;
    }
    let mut i: usize = 0;
    while i < a.len()
        invariant
            i <= a.len(),
            a.len() == b.len(),
            forall|j: int| 0 <= j < i ==> a@[j]@ == b@[j]@,
        decreases a.len() - i,
    {
        if a[i] != b[i] {
            assert(strings_view(a@)[i as int] != strings_view(b@)[i as int]);
            return false;
        }
        i = i + 1;
    }
    assert(strings_view(a@) =~= strings_view(b@));
    true
}

/// Whether two lists of numbers are equal.
fn numbers_eq(a: &Vec<usize>, b: &Vec<usize>) -> (r: bool)
    ensures
        r == (a@ == b@),
{
    if a.len() != b.len() {
        return false;
    }
    let mut i: usize = 0;
    while i < a.len()
        invariant
            i <= a.len(),
            a.len() == b.len(),
            forall|j: int| 0 <= j < i ==> a@[j] == b@[j],
        decreases a.len() - i,
    {
        if a[i] != b[i] {
            return false;
        }
        i = i + 1;
    }
    assert(a@ =~= b@);
    true
}

/// Whether two clause lists mean the same clauses.
fn queries_eq(a: &Vec<Query>, b: &Vec<Query>) -> (r: bool)
    ensures
        r == (queries_view(a@) == queries_view(b@)),
    decreases a,
{
    if a.len() != b.len() {
        return false;
    }
    let mut i: usize = 0;
    while i < a.len()
        invariant
            i <= a.len(),
            a.len() == b.len(),
            forall|j: int| 0 <= j < i ==> a@[j]@ == b@[j]@,
        decreases a.len() - i,
    {
        proof {
            assert(decreases_to!(a => a[i as int]));
        }
        if !a[i].same_as(&b[i]) {
            assert(queries_view(a@)[i as int] != queries_view(b@)[i as int]);
            return false;
        }
        i = i + 1;
    }
    assert(queries_view(a@) =~= queries_view(b@));
    true
}

impl Query {
    /// Structural equality: the two queries mean the same clauses.
    fn same_as(&self, other: &Query) -> (r: bool)
        ensures
            r == (self@ == other@),
        decreases self,
    {
        match (self, other) {
            (Query::Boolean { bool: a }, Query::Boolean { bool: b }) => {
                proof {
                    lemma_boolean_view(*a);
                    lemma_boolean_view(*b);
                }
                queries_eq(&a.must, &b.must) && queries_eq(&a.must_not, &b.must_not) && queries_eq(
                    &a.should,
                    &b.should,
                ) && a.minimum_should_match == b.minimum_should_match
            },
            (Query::Exact(a), Query::Exact(b)) => a.term.field == b.term.field && a.term.value
                == b.term.value,
            (Query::Fuzzy(a), Query::Fuzzy(b)) => {
                let (x, y) = (&a.fuzzy, &b.fuzzy);
                x.field == y.field && x.value.value == y.value.value && x.value.distance
                    == y.value.distance && x.value.transposition == y.value.transposition
            },
            (Query::Phrase(a), Query::Phrase(b)) => {
                let (x, y) = (&a.phrase, &b.phrase);
                x.field == y.field && strings_eq(&x.value.terms, &y.value.terms) && match (
                    &x.value.offsets,
                    &y.value.offsets,
                ) {
                    (Some(o), Some(p)) => numbers_eq(o, p),
                    (None, None) => true,
                    _ => false,
                }
            },
            _ => false,
        }
    }
}

impl PartialEq for Query {
    fn eq(&self, other: &Query) -> (r: bool)
        ensures
            r == (self@ == other@),
    {
        self.same_as(other)
    }
}

impl vstd::std_specs::cmp::PartialEqSpecImpl for Query {
    open spec fn obeys_eq_spec() -> bool {
        true
    }

    open spec fn eq_spec(&self, other: &Query) -> bool {
        self@ == other@
    }
}

} // verus!
