use vstd::prelude::*;

verus! {

/// A listed server, as the listing endpoints return it.
#[derive(Debug)]
pub struct Server {
    pub id: Option<i64>,
    pub server_id: String,
    pub server_name: String,
    pub icon_url: Option<String>,
    pub banner_url: Option<String>,
    pub invite_link: Option<String>,
    pub members: i64,
    pub description: Option<String>,
    pub is_verified: i64,
    pub is_nsfw: i64,
    pub owner: Option<String>,
    pub owner_id: Option<String>,
    pub added_on: Option<String>,
    pub last_bumped: Option<String>,
}

/// The body of a sync request: a server's listing as its bot reports it.
#[derive(Debug)]
pub struct SyncServerInput {
    pub server_id: String,
    pub server_name: String,
    pub icon_url: Option<String>,
    pub banner_url: Option<String>,
    pub invite_link: String,
    pub members: Option<i64>,
    pub description: Option<String>,
    pub is_nsfw: Option<i64>,
    pub owner: Option<String>,
    pub owner_id: Option<String>,
}

/// The body of a patch request: the moderation fields to change; an
/// absent field keeps its stored value.
#[derive(Debug)]
pub struct PatchServerInput {
    pub is_verified: Option<i64>,
    pub is_nsfw: Option<i64>,
    pub description: Option<String>,
}

/// A copy of an optional text, equal to it.
pub fn copy_opt_text(s: &Option<String>) -> (r: Option<String>)
    ensures
        r == *s,
{
    match s {
        Some(t) => Some(t.clone()),
        None => None,
    }
}

} // verus!
