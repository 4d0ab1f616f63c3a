use vstd::prelude::*;

verus! {

/// A customer of a business, as stored. Timestamps are microseconds since the Unix epoch.
#[derive(Debug)]
pub struct Customer {
    pub id: String,
    pub business_id: String,
    pub name: String,
    pub email: String,
    pub created_at: i64,
    pub updated_at: i64,
}

} // verus!
