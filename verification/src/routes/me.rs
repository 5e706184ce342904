//! `GET /me`: the identity of the caller.

use crate::auth::CurrentUser;
use vstd::prelude::*;

verus! {

/// The caller as the response shows it.
#[derive(Debug, Clone)]
pub struct MeUser {
    pub id: String,
    pub email: String,
}

/// The body of the response.
#[derive(Debug, Clone)]
pub struct MeResponse {
    pub user: MeUser,
}

/// Answers with status 200 and the identity that the guard attached to the
/// request.
pub fn handler(auth_user: &CurrentUser) -> (r: (u16, MeResponse))
    ensures
        r.0 == 200,
        r.1.user.id@ == auth_user.id@,
        r.1.user.email@ == auth_user.email@,
{
    (200, MeResponse { user: MeUser { id: auth_user.id.clone(), email: auth_user.email.clone() } })
}

} // verus!
