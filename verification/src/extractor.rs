//! Extraction of typed values from response bodies. Only the token
//! payload is read inside the library — it feeds the access controller's
//! own logic; every other body is handed back to the caller whole.

use vstd::prelude::*;

verus! {

use crate::models;

/// What the token endpoint's JSON body parses to, if anything: the
/// `access_token` string and the `expires_at` epoch second. Applied by
/// the `extract_access_token` wrapper below.
pub uninterp spec fn access_token_fields_of(body: Seq<u8>) -> Option<(Seq<char>, i64)>;

/// Relies on serde_json: parses the body as a JSON object and reads its
/// `access_token` string and `expires_at` integer.
#[verifier::external_body]
pub fn extract_access_token(body: &[u8]) -> (r: Option<models::AccessToken>)
    ensures
        match r {
            Some(t) => access_token_fields_of(body@) == Some((t.access_token@, t.expires_at)),
            None => access_token_fields_of(body@) is None,
        },
{
    let value: serde_json::Value = serde_json::from_slice(body).ok()?;
    let access_token = value.get("access_token")?.as_str()?.to_owned();
    let expires_at = value.get("expires_at")?.as_i64()?;
    Some(models::AccessToken { access_token, expires_at })
}

} // verus!
