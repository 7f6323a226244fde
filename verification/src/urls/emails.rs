//! Endpoints of the email resource.

use vstd::prelude::*;

verus! {

/// The collection endpoint for emails: `{base_url}/emails`.
pub fn base(base_url: &str) -> (r: String)
    ensures
        r@ == crate::urls::resource_base_spec(base_url@, "emails"@),
{
    crate::urls::resource_base(base_url, "emails")
}

/// The item endpoint for one email: `{base_url}/emails/{email_id}`.
pub fn with_id(base_url: &str, email_id: &str) -> (r: String)
    ensures
        r@ == crate::urls::resource_with_id_spec(base_url@, "emails"@, email_id@),
{
    crate::urls::resource_with_id(base_url, "emails", email_id)
}

} // verus!
