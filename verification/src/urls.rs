//! Endpoint URL construction: deterministic string computation only.
//!
//! The resource modules map a base URL (and optionally a server-issued id)
//! to the endpoint path `{base_url}/{resource}[/{id}]`.  Identifiers are
//! opaque server-issued ids and are assumed to be already URL-safe, so no
//! encoding is performed here, and no validation or network work.

use vstd::prelude::*;

pub mod api_keys;
pub mod domains;
pub mod emails;

verus! {

/// The collection endpoint for a resource: `{base_url}/{resource}`.
pub open spec fn resource_base_spec(base_url: Seq<char>, resource: Seq<char>) -> Seq<char> {
    base_url + "/"@ + resource
}

/// The item endpoint for a resource: `{base_url}/{resource}/{id}`.
pub open spec fn resource_with_id_spec(
    base_url: Seq<char>,
    resource: Seq<char>,
    id: Seq<char>,
) -> Seq<char> {
    base_url + "/"@ + resource + "/"@ + id
}

/// Joins a base URL and a resource name into the collection endpoint.
pub fn resource_base(base_url: &str, resource: &str) -> (r: String)
    ensures
        r@ == resource_base_spec(base_url@, resource@),
{
    let r = String::from_str(base_url).concat("/").concat(resource);
    proof {
        assert(r@ =~= resource_base_spec(base_url@, resource@));
    }
    r
}

/// Joins a base URL, a resource name and a server-issued id into the item
/// endpoint.
pub fn resource_with_id(base_url: &str, resource: &str, id: &str) -> (r: String)
    ensures
        r@ == resource_with_id_spec(base_url@, resource@, id@),
{
    let r = String::from_str(base_url).concat("/").concat(resource).concat("/").concat(id);
    proof {
        assert(r@ =~= resource_with_id_spec(base_url@, resource@, id@));
    }
    r
}

} // verus!
