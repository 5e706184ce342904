//! `GET`, `PUT` and `DELETE /docs/{id}`: the answer for one document.

use crate::models::text;
use vstd::prelude::*;

verus! {

/// The body of the response, for documents of type `D`.
#[derive(Debug, Clone)]
pub struct DocResponse<D> {
    pub doc: Option<D>,
    pub error: Option<String>,
}

/// Answers for the document that the store returned for the caller, if
/// any: 200 with the document, or 404 with a message where the caller has
/// no such document.
pub fn reply<D>(found: Option<D>) -> (r: (u16, DocResponse<D>))
    ensures
        match found {
            Some(d) => r.0 == 200 && r.1.doc == Some(d) && r.1.error is None,
            None => r.0 == 404 && r.1.doc is None && text(r.1.error) == Some(
                "Document not found"@,
            ),
        },
{
    match found {
        Some(d) => (200, DocResponse { doc: Some(d), error: None }),
        None => (
            404,
            DocResponse { doc: None, error: Some(String::from_str("Document not found")) },
        ),
    }
}

} // verus!
