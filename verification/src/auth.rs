//! The credential that every request of a run carries.

use vstd::prelude::*;

verus! {

/// The value of the authorization header for an access token.
pub open spec fn bearer_of(access_token: Seq<char>) -> Seq<char> {
    "Bearer "@ + access_token
}

/// Builds the value of the authorization header for the access token that
/// the token endpoint granted.
pub fn get_auth_header(access_token: &str) -> (header: String)
    ensures
        header@ == bearer_of(access_token@),
{
    let mut header = "Bearer ".to_owned();
    header.append(access_token);
    header
}

} // verus!
