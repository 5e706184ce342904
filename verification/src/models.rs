//! The user record and the changes the sign-in flow asks the store to make.

use vstd::prelude::*;

verus! {

/// One row of the user store.
///
/// `verification_code` holds the hash of the code that is outstanding, and
/// `None` once it has been redeemed.
#[derive(Debug, Clone)]
pub struct User {
    pub id: String,
    pub email: String,
    pub verification_code: Option<String>,
    pub created_at: String,
}

/// The fields of a row to be inserted. The store assigns the rest.
#[derive(Debug, Clone)]
pub struct CreateUser {
    pub email: String,
    pub verification_code: Option<String>,
}

/// New values for a row. `email: None` keeps the address;
/// `verification_code` is the column's new value, `None` clearing it.
#[derive(Debug, Clone)]
pub struct UpdateUser {
    pub email: Option<String>,
    pub verification_code: Option<String>,
}

/// A single mutation of the user store.
#[derive(Debug, Clone)]
pub enum StoreAction {
    /// Insert a new row.
    Insert(CreateUser),
    /// Overwrite fields of the row with this id.
    Update { id: String, changes: UpdateUser },
    /// Clear the code of the row with this id, provided the stored hash is
    /// still `expected`. The store compares and clears in one step.
    ClearCode { id: String, expected: String },
}

/// The characters of an optional string.
pub open spec fn text(s: Option<String>) -> Option<Seq<char>> {
    match s {
        Some(t) => Some(t@),
        None => None,
    }
}

/// A user record as mathematical values.
pub struct UserView {
    pub id: Seq<char>,
    pub email: Seq<char>,
    pub verification_code: Option<Seq<char>>,
    pub created_at: Seq<char>,
}

impl View for User {
    type V = UserView;

    open spec fn view(&self) -> UserView {
        UserView {
            id: self.id@,
            email: self.email@,
            verification_code: text(self.verification_code),
            created_at: self.created_at@,
        }
    }
}

/// The record that a lookup returned, if any, as mathematical values.
pub open spec fn seen(user: Option<&User>) -> Option<UserView> {
    match user {
        Some(u) => Some(u@),
        None => None,
    }
}

/// A store action as mathematical values.
pub enum StoreActionView {
    Insert { email: Seq<char>, verification_code: Option<Seq<char>> },
    Update { id: Seq<char>, new_email: Option<Seq<char>>, verification_code: Option<Seq<char>> },
    ClearCode { id: Seq<char>, expected: Seq<char> },
}

impl View for StoreAction {
    type V = StoreActionView;

    open spec fn view(&self) -> StoreActionView {
        match *self {
            StoreAction::Insert(c) => StoreActionView::Insert {
                email: c.email@,
                verification_code: text(c.verification_code),
            },
            StoreAction::Update { id, changes } => StoreActionView::Update {
                id: id@,
                new_email: text(changes.email),
                verification_code: text(changes.verification_code),
            },
            StoreAction::ClearCode { id, expected } => StoreActionView::ClearCode {
                id: id@,
                expected: expected@,
            },
        }
    }
}

impl StoreActionView {
    /// The hash that the row holds once the action is done; `None` where it
    /// leaves the row without a code.
    pub open spec fn new_hash(self) -> Option<Seq<char>> {
        match self {
            StoreActionView::Insert { email, verification_code } => verification_code,
            StoreActionView::Update { id, new_email, verification_code } => verification_code,
            StoreActionView::ClearCode { id, expected } => None,
        }
    }

    /// Whether a store that held `before` for an address and carried the
    /// action out may hold `after` for it. The store assigns the id and the
    /// creation time of a new row; a conditional clear is carried out only
    /// where the stored hash is the expected one.
    pub open spec fn carried_out(self, before: Option<UserView>, after: UserView) -> bool {
        match self {
            StoreActionView::Insert { email, verification_code } => {
                &&& before is None
                &&& after.email == email
                &&& after.verification_code == verification_code
            },
            StoreActionView::Update { id, new_email, verification_code } => {
                &&& before matches Some(b)
                &&& b.id == id
                &&& after.id == b.id
                &&& after.created_at == b.created_at
                &&& after.email == match new_email {
                    Some(e) => e,
                    None => b.email,
                }
                &&& after.verification_code == verification_code
            },
            StoreActionView::ClearCode { id, expected } => {
                &&& before matches Some(b)
                &&& b.id == id
                &&& b.verification_code == Some(expected)
                &&& after.id == b.id
                &&& after.created_at == b.created_at
                &&& after.email == b.email
                &&& after.verification_code is None
            },
        }
    }
}

} // verus!
