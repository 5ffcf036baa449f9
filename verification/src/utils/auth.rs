//! The authentication provider: where it is asked.

use vstd::prelude::*;
use vstd::string::StringExecFns;

use crate::server::Server;

verus! {

/// The address at which the provider checks `token` on behalf of the
/// server with the secret `key`.
pub open spec fn spec_auth_url(token: Seq<char>, key: Seq<char>) -> Seq<char> {
    "https://vxchat.netlify.app/api/auth?token="@ + token + "&key="@ + key
}

/// The address at which the provider checks the server's own secret.
pub open spec fn spec_test_url(key: Seq<char>, id: Seq<char>) -> Seq<char> {
    "https://vxchat.netlify.app/api/auth-test?key="@ + key + "&id="@ + id
}

/// The address to ask for the user behind `token`.
pub fn auth(server: &Server, token: &str) -> (url: String)
    ensures
        url@ == spec_auth_url(token@, server@.config.server_key),
{
    let mut url = "https://vxchat.netlify.app/api/auth?token=".to_owned();
    url.append(token);
    url.append("&key=");
    url.append(server.config.server_key.as_str());
    url
}

/// The address to ask whether the provider knows this server.
pub fn test(server: &Server) -> (url: String)
    ensures
        url@ == spec_test_url(server@.config.server_key, server@.config.server_id),
{
    let mut url = "https://vxchat.netlify.app/api/auth-test?key=".to_owned();
    url.append(server.config.server_key.as_str());
    url.append("&id=");
    url.append(server.config.server_id.as_str());
    url
}

} // verus!
