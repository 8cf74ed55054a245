use vstd::prelude::*;
use vstd::string::*;

use crate::errors::ProviderError;

verus! {

/// Immutable configuration of the remote endpoint: where to send, which
/// deployment, and which protocol version to ask for.
pub struct EndpointConfig {
    pub base_url: String,
    pub deployment: String,
    pub api_version: String,
}

/// The api-version asked for when configuration names none.
pub fn default_api_version() -> (v: &'static str)
    ensures
        v@ == "2024-10-21"@,
{
    "2024-10-21"
}

/// The configured api-version, or the stock one where none was configured.
pub fn api_version_or_default(configured: Option<String>) -> (v: String)
    ensures
        configured matches Option::Some(s) ==> v == s,
        configured is None ==> v@ == "2024-10-21"@,
{
    match configured {
        Option::Some(s) => s,
        Option::None => String::from_str(default_api_version()),
    }
}

/// `s` without its trailing slashes.
pub open spec fn strip_trailing_slashes(s: Seq<char>) -> Seq<char>
    decreases s.len(),
{
    if s.len() > 0 && s.last() == '/' {
        strip_trailing_slashes(s.drop_last())
    } else {
        s
    }
}

/// The request URL composed from the configuration: the base without its
/// trailing slashes, the fixed chat-completions path for the deployment,
/// and the api-version query parameter.
pub open spec fn spec_request_url(
    base: Seq<char>,
    deployment: Seq<char>,
    api_version: Seq<char>,
) -> Seq<char> {
    strip_trailing_slashes(base) + "/openai/deployments/"@ + deployment + "/chat/completions"@
        + "?api-version="@ + api_version
}

/// Whether `url::Url::parse` accepts `s` as an absolute URL.
pub uninterp spec fn url_parse_ok(s: Seq<char>) -> bool;

/// Relies on url::Url::parse: it accepts a string exactly when it can
/// parse an absolute URL from it, and reports a parse error otherwise.
/// Returns that error's message, or nothing on acceptance.
#[verifier::external_body]
fn check_base_url(s: &str) -> (r: Option<String>)
    ensures
        r is None <==> url_parse_ok(s@),
{
    match url::Url::parse(s) {
        Ok(_) => None,
        Err(e) => Some(e.to_string()),
    }
}

/// The length of `s` once trailing slashes are dropped.
fn stripped_len(s: &str) -> (k: usize)
    ensures
        k <= s@.len(),
        s@.subrange(0, k as int) == strip_trailing_slashes(s@),
{
    let n = s.unicode_len();
    proof {
        assert(s@.subrange(0, n as int) =~= s@);
    }
    let mut k = n;
    while k > 0 && s.get_char(k - 1) == '/'
        invariant
            0 <= k <= n == s@.len(),
            strip_trailing_slashes(s@) == strip_trailing_slashes(s@.subrange(0, k as int)),
        decreases k,
    {
        proof {
            let cur = s@.subrange(0, k as int);
            assert(cur.last() == s@[k - 1]);
            assert(cur.drop_last() =~= s@.subrange(0, k - 1));
        }
        k -= 1;
    }
    proof {
        let cur = s@.subrange(0, k as int);
        if k == 0 {
            assert(cur =~= strip_trailing_slashes(cur));
        } else {
            assert(cur.last() == s@[k - 1]);
        }
        assert(s@.subrange(0, s@.len() as int) =~= s@);
    }
    k
}

/// Builds the request URL once per call. Rejects, with the parser's
/// message, exactly the bases that do not parse as absolute URLs;
/// otherwise the result is the composed URL.
pub fn build_request_url(config: &EndpointConfig) -> (r: Result<String, ProviderError>)
    ensures
        r is Ok <==> url_parse_ok(config.base_url@),
        r matches Ok(u) ==> u@ == spec_request_url(
            config.base_url@,
            config.deployment@,
            config.api_version@,
        ),
        r matches Err(e) ==> e matches ProviderError::TransportFailed(m) && m@.take(18)
            == "Invalid base URL: "@,
{
    proof {
        reveal_strlit("Invalid base URL: ");
    }
    match check_base_url(config.base_url.as_str()) {
        Option::Some(detail) => Result::Err(
            ProviderError::TransportFailed(
                String::from_str("Invalid base URL: ").concat(detail.as_str()),
            ),
        ),
        Option::None => {
            let k = stripped_len(config.base_url.as_str());
            let stripped = config.base_url.as_str().substring_char(0, k);
            let u = String::from_str(stripped)
                .concat("/openai/deployments/")
                .concat(config.deployment.as_str())
                .concat("/chat/completions")
                .concat("?api-version=")
                .concat(config.api_version.as_str());
            Result::Ok(u)
        },
    }
}

/// The composed URL is the same whether or not the configured base
/// carries a trailing slash.
pub proof fn lemma_url_ignores_trailing_slash(
    base: Seq<char>,
    deployment: Seq<char>,
    api_version: Seq<char>,
)
    ensures
        spec_request_url(base.push('/'), deployment, api_version) == spec_request_url(
            base,
            deployment,
            api_version,
        ),
{
    assert(base.push('/').last() == '/');
    assert(base.push('/').drop_last() =~= base);
}

} // verus!
