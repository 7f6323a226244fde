//! Endpoints of the API key resource.

use vstd::prelude::*;

verus! {

/// The collection endpoint for API keys: `{base_url}/api-keys`.
pub fn base(base_url: &str) -> (r: String)
    ensures
        r@ == crate::urls::resource_base_spec(base_url@, "api-keys"@),
{
    crate::urls::resource_base(base_url, "api-keys")
}

/// The item endpoint for one API key: `{base_url}/api-keys/{api_key_id}`.
pub fn with_id(base_url: &str, api_key_id: &str) -> (r: String)
    ensures
        r@ == crate::urls::resource_with_id_spec(base_url@, "api-keys"@, api_key_id@),
{
    crate::urls::resource_with_id(base_url, "api-keys", api_key_id)
}

} // verus!
