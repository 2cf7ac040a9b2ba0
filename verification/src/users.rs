use vstd::prelude::*;

verus! {

/// A stored account: its id, e-mail address and bcrypt password hash.
#[derive(Debug)]
pub struct UserRecord {
    pub id: u128,
    pub email: String,
    pub password_hash: String,
}

} // verus!
