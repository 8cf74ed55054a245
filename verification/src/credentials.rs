use vstd::prelude::*;
use vstd::string::*;

verus! {

/// The authentication mode chosen at construction time: either a static
/// API key is configured, or the default credential chain is used.
#[derive(Clone, PartialEq, Eq, Structural, Debug)]
pub enum Credential {
    ApiKey,
    DefaultChain,
}

/// Chooses the authentication mode. A configured key selects `ApiKey`;
/// its absence is a valid selector for the default chain, not an error.
/// The header that carries the token on a request: a dedicated key header
/// in API-key mode, a bearer authorization header in default-chain mode.
pub fn auth_header(cred: &Credential, token: &str) -> (h: (String, String))
    ensures
        *cred == Credential::ApiKey ==> h.0@ == "api-key"@ && h.1@ == token@,
        *cred == Credential::DefaultChain ==> h.0@ == "Authorization"@ && h.1@ == "Bearer "@
            + token@,
{
    match cred {
        Credential::ApiKey => (String::from_str("api-key"), String::from_str(token)),
        Credential::DefaultChain => (
            String::from_str("Authorization"),
            String::from_str("Bearer ").concat(token),
        ),
    }
}

pub fn resolve(has_api_key: bool) -> (c: Credential)
    ensures
        c == (if has_api_key {
            Credential::ApiKey
        } else {
            Credential::DefaultChain
        }),
{
    if has_api_key {
        Credential::ApiKey
    } else {
        Credential::DefaultChain
    }
}

} // verus!
