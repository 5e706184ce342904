//! `GET /docs`: which of the caller's documents to list.

use vstd::prelude::*;

verus! {

/// The query string of the request.
#[derive(Debug, Clone)]
pub struct Params {
    pub search: Option<String>,
}

/// Which documents a listing shows.
#[derive(Debug, Clone)]
pub enum Listing {
    /// All of the caller's documents, newest first.
    All,
    /// Those whose title or text matches the search, newest first.
    Matching(String),
}

/// What a listing with these parameters shows: everything where the search
/// is missing or empty, the matches of the search otherwise.
pub open spec fn listing_of(params: Params) -> Option<Seq<char>> {
    match params.search {
        Some(s) => if s@.len() == 0 {
            None
        } else {
            Some(s@)
        },
        None => None,
    }
}

/// Chooses the listing for the parameters of a request.
pub fn listing(params: Params) -> (r: Listing)
    ensures
        match listing_of(params) {
            None => r is All,
            Some(s) => r matches Listing::Matching(t) && t@ == s,
        },
{
    match params.search {
        Some(s) => {
            if s.as_str().is_empty() {
                Listing::All
            } else {
                Listing::Matching(s)
            }
        },
        None => Listing::All,
    }
}

} // verus!
