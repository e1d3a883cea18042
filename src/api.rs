//! Addresses and headers of the remote service's endpoints.

use vstd::prelude::*;
use vstd::string::*;

verus! {

pub open spec fn base_uri() -> Seq<char> {
    "https://mds.production.momentos.life"@
}

pub fn login_uri() -> (r: String)
    ensures
        r@ == base_uri() + "/login"@,
{
    let mut s = String::from_str("https://mds.production.momentos.life");
    s.append("/login");
    s
}

/// The endpoint listing a user's groups.
pub fn user_groups_uri(user_id: &str) -> (r: String)
    ensures
        r@ == base_uri() + "/api/v1/users/"@ + user_id@ + "/groups"@,
{
    let mut s = String::from_str("https://mds.production.momentos.life");
    s.append("/api/v1/users/");
    s.append(user_id);
    s.append("/groups");
    s
}

/// The endpoint listing a group's events.
pub fn grouped_events_uri(group_id: &str) -> (r: String)
    ensures
        r@ == base_uri() + "/api/v1/groups/"@ + group_id@ + "/events"@,
{
    let mut s = String::from_str("https://mds.production.momentos.life");
    s.append("/api/v1/groups/");
    s.append(group_id);
    s.append("/events");
    s
}

/// The endpoint giving one event's detail.
pub fn event_uri(group_id: &str, event_id: &str) -> (r: String)
    ensures
        r@ == base_uri() + "/api/v1/groups/"@ + group_id@ + "/events/"@ + event_id@,
{
    let mut s = String::from_str("https://mds.production.momentos.life");
    s.append("/api/v1/groups/");
    s.append(group_id);
    s.append("/events/");
    s.append(event_id);
    s
}

/// The query of the event endpoint: the fields wanted, and a download link
/// for the recording resolved in the same response.
pub fn event_query() -> (r: Vec<(String, String)>)
    ensures
        r@.len() == 2,
        r@[0].0@ == "fields"@,
        r@[0].1@ == "title,recording,published,transcript"@,
        r@[1].0@ == "presignedURL"@,
        r@[1].1@ == "true"@,
{
    let mut r: Vec<(String, String)> = Vec::new();
    r.push((String::from_str("fields"), String::from_str("title,recording,published,transcript")));
    r.push((String::from_str("presignedURL"), String::from_str("true")));
    r
}

/// The value of the `Authorization` header for a bearer token.
pub fn bearer(token: &str) -> (r: String)
    ensures
        r@ == "Bearer "@ + token@,
{
    let mut s = String::from_str("Bearer ");
    s.append(token);
    s
}

} // verus!
