//! Value-typed convenience operations over the key-value store.

use vstd::prelude::*;

use crate::api::kv::{base64_decoded, KVPair};
use crate::api::ApiResponse;
use crate::error::ClientError;

verus! {

/// Extracts the decoded value bytes from the entries a non-recursive read
/// returned, keeping the response metadata.
///
/// The store returns a list of entries even for a single key; the API
/// guarantees at most one entry for a non-recursive read, so the last entry
/// is taken. An empty list, or an entry with no value, is an empty-response
/// error; a value that is not valid Base64 is a decode error. The caller
/// decodes the returned bytes into its target type.
pub fn read_value(res: ApiResponse<Vec<KVPair>>) -> (r: Result<
    ApiResponse<Vec<u8>>,
    ClientError,
>)
    ensures
        r is Ok <==> ({
            &&& res.response@.len() > 0
            &&& res.response@.last().value matches Some(b)
            &&& base64_decoded(b@) is Some
        }),
        r matches Ok(a) ==> {
            &&& res.response@.last().value matches Some(b) && Some(a.response@) == base64_decoded(
                b@,
            )
            &&& a.cache == res.cache
            &&& a.content_hash == res.content_hash
            &&& a.default_acl_policy == res.default_acl_policy
            &&& a.index == res.index
            &&& a.known_leader == res.known_leader
            &&& a.last_contact == res.last_contact
            &&& a.query_backend == res.query_backend
        },
        (res.response@.len() == 0 || (res.response@.len() > 0 && res.response@.last().value
            is None)) ==> (r matches Err(e) && e == ClientError::EmptyResponseError),
        ({
            &&& res.response@.len() > 0
            &&& res.response@.last().value matches Some(b)
            &&& base64_decoded(b@) is None
        }) ==> (r matches Err(e) && e matches ClientError::Base64DecodeError { .. }),
{
    let mut res = res;
    if res.response.len() == 0 {
        return Err(ClientError::EmptyResponseError);
    }
    let entry = res.response.pop().unwrap();
    let encoded = match entry.value {
        Some(b) => b,
        None => {
            return Err(ClientError::EmptyResponseError);
        },
    };
    let bytes = match encoded.try_into_bytes() {
        Ok(v) => v,
        Err(e) => {
            return Err(e);
        },
    };
    Ok(
        ApiResponse {
            cache: res.cache,
            content_hash: res.content_hash,
            default_acl_policy: res.default_acl_policy,
            index: res.index,
            known_leader: res.known_leader,
            last_contact: res.last_contact,
            query_backend: res.query_backend,
            response: bytes,
        },
    )
}

} // verus!
