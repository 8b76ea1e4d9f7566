//! Sort keys of the listing and search endpoints.

use vstd::prelude::*;

verus! {

/// The orders in which the remote API can rank shaders.
#[derive(Clone, Copy, Debug, PartialEq, Eq, Structural)]
pub enum SortBy {
    Name,
    Love,
    Popular,
    Newest,
    Hot,
}

/// The wire token of a sort key: the value of the `sort` query parameter.
pub open spec fn sort_token(sort_by: SortBy) -> Seq<char> {
    match sort_by {
        SortBy::Name => "name"@,
        SortBy::Love => "love"@,
        SortBy::Popular => "popular"@,
        SortBy::Newest => "newest"@,
        SortBy::Hot => "hot"@,
    }
}

impl SortBy {
    /// The lowercase token that stands for this key on the wire.
    pub fn as_str(&self) -> (token: &'static str)
        ensures
            token@ == sort_token(*self),
    {
        match self {
            SortBy::Name => "name",
            SortBy::Love => "love",
            SortBy::Popular => "popular",
            SortBy::Newest => "newest",
            SortBy::Hot => "hot",
        }
    }
}

/// Distinct sort keys have distinct wire tokens: the mapping is one-to-one.
pub proof fn lemma_sort_token_injective(a: SortBy, b: SortBy)
    requires
        sort_token(a) == sort_token(b),
    ensures
        a == b,
{
    reveal_strlit("name");
    reveal_strlit("love");
    reveal_strlit("popular");
    reveal_strlit("newest");
    reveal_strlit("hot");
    if a != b {
        let ta = sort_token(a);
        let tb = sort_token(b);
        assert(ta.len() == tb.len());
        assert(ta[0] == tb[0]);
        assert(ta[1] == tb[1]);
    }
}

} // verus!
