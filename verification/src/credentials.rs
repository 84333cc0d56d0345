//! Credentials an upload request hands to the remote store.

use vstd::prelude::*;

verus! {

/// The credential set carried by an inbound upload request.
///
/// The core only carries these through to the remote client; it never
/// interprets them.
#[derive(Clone, Debug)]
pub struct AwsCredentials {
    pub access_key_id: String,
    pub secret_access_key: String,
    pub session_token: String,
    pub identity_id: String,
}

impl AwsCredentials {
    pub fn new(
        access_key_id: String,
        secret_access_key: String,
        session_token: String,
        identity_id: String,
    ) -> (c: AwsCredentials)
        ensures
            c.access_key_id == access_key_id,
            c.secret_access_key == secret_access_key,
            c.session_token == session_token,
            c.identity_id == identity_id,
    {
        AwsCredentials { access_key_id, secret_access_key, session_token, identity_id }
    }
}

} // verus!
