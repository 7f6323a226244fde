//! Endpoints of the domain resource.

use vstd::prelude::*;

verus! {

/// The collection endpoint for domains: `{base_url}/domains`.
pub fn base(base_url: &str) -> (r: String)
    ensures
        r@ == crate::urls::resource_base_spec(base_url@, "domains"@),
{
    crate::urls::resource_base(base_url, "domains")
}

/// The item endpoint for one domain: `{base_url}/domains/{domain_id}`.
pub fn with_id(base_url: &str, domain_id: &str) -> (r: String)
    ensures
        r@ == crate::urls::resource_with_id_spec(base_url@, "domains"@, domain_id@),
{
    crate::urls::resource_with_id(base_url, "domains", domain_id)
}

} // verus!
