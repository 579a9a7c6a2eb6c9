//! The query value handed to the read path.

use vstd::prelude::*;

verus! {

/// One query, held as the textual query-language representation it serializes
/// to. The client treats the text as opaque.
pub struct Query {
    text: String,
}

impl View for Query {
    type V = Seq<char>;

    closed spec fn view(&self) -> Seq<char> {
        self.text@
    }
}

impl Query {
    pub fn new(text: String) -> (q: Query)
        ensures
            q@ == text@,
    {
        Query { text }
    }

    /// The query's own textual representation.
    pub fn to_query_text(&self) -> (r: String)
        ensures
            r@ == self@,
    {
        self.text.clone()
    }
}

} // verus!
