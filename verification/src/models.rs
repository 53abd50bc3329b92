//! Stored records.
use vstd::prelude::*;

verus! {

/// A user as stored: identifier, unique name and password hash (PHC string).
pub struct UserRecord {
    pub id: i64,
    pub username: String,
    pub password_hash: String,
}

} // verus!
