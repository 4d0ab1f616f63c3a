use vstd::prelude::*;

verus! {

/// A registered business, as stored. Timestamps are microseconds since the Unix epoch.
#[derive(Debug)]
pub struct Business {
    pub id: String,
    pub name: String,
    pub api_key_hash: String,
    pub api_key_prefix: String,
    pub is_active: bool,
    pub created_at: i64,
    pub updated_at: i64,
}

} // verus!
