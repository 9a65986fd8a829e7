use vstd::prelude::*;

verus! {

/// A row of the `users` table.
pub struct UserRecord {
    pub id: i64,
    pub username: String,
    pub password_hash: String,
}

} // verus!
