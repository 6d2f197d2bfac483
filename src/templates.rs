use vstd::prelude::*;

verus! {

/// The data of a results page: the items, the search text to show again,
/// and the page that follows, if any.
pub struct PageTemplate<I> {
    next_page: Option<i64>,
    query_str: Option<String>,
    items: I,
}

impl<I> PageTemplate<I> {
    pub closed spec fn spec_next_page(&self) -> Option<i64> {
        self.next_page
    }

    pub closed spec fn spec_query(&self) -> Option<Seq<char>> {
        match self.query_str {
            Some(q) => Some(q@),
            None => None,
        }
    }

    pub closed spec fn spec_items(&self) -> I {
        self.items
    }

    /// A page without search text or following page.
    pub fn new(items: I) -> (r: Self)
        ensures
            r.spec_next_page() is None,
            r.spec_query() is None,
            r.spec_items() == items,
    {
        Self { next_page: None, query_str: None, items }
    }

    /// A page of results for the search text `q`.
    pub fn new_with_query(items: I, q: String) -> (r: Self)
        ensures
            r.spec_next_page() is None,
            r.spec_query() == Some(q@),
            r.spec_items() == items,
    {
        Self { next_page: None, query_str: Some(q), items }
    }

    /// A page that `next_page` follows.
    pub fn new_with_next_page(next_page: Option<i64>, items: I) -> (r: Self)
        ensures
            r.spec_next_page() == next_page,
            r.spec_query() is None,
            r.spec_items() == items,
    {
        Self { next_page, items, query_str: None }
    }

    /// The search text that the page's search box shows: the query, or
    /// nothing.
    pub fn search_text(&self) -> (r: &str)
        ensures
            r@ == match self.spec_query() {
                Some(q) => q,
                None => ""@,
            },
    {
        match &self.query_str {
            Some(q) => q.as_str(),
            None => "",
        }
    }

    pub fn next_page(&self) -> (r: Option<i64>)
        ensures
            r == self.spec_next_page(),
    {
        self.next_page
    }

    /// Hands the items out, for rendering.
    pub fn into_items(self) -> (r: I)
        ensures
            r == self.spec_items(),
    {
        self.items
    }
}

} // verus!
