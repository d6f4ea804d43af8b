//! Adapter-specific configuration.

use vstd::prelude::*;

verus! {

/// Config knobs the api adapter needs but the command layer doesn't.
#[derive(Debug, Clone)]
pub struct ApiConfig {
    /// Allowed bearer tokens; empty disables authentication.
    pub bearer_tokens: Vec<String>,
    /// HMAC key used to sign and verify the public view links.
    pub link_signing_key: Vec<u8>,
    /// Default lifetime of newly minted signed links, in seconds.
    pub link_ttl_secs: u64,
    /// Public origin used to render absolute signed-link URLs.
    pub public_base_url: String,
    /// HMAC key used to sign outbound webhook bodies.
    pub webhook_signing_key: Vec<u8>,
}

impl Default for ApiConfig {
    fn default() -> (c: Self)
        ensures
            c.bearer_tokens@.len() == 0,
            c.link_signing_key@.len() == 0,
            c.link_ttl_secs == 60 * 60 * 24 * 30,
            c.public_base_url@ == "http://localhost:7400"@,
            c.webhook_signing_key@.len() == 0,
    {
        ApiConfig {
            bearer_tokens: Vec::new(),
            link_signing_key: Vec::new(),
            link_ttl_secs: 60 * 60 * 24 * 30,
            public_base_url: "http://localhost:7400".to_owned(),
            webhook_signing_key: Vec::new(),
        }
    }
}

} // verus!
