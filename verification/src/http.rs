use vstd::prelude::*;
use crate::errors::ResolverError;

verus! {

// The engine asks one thing of its HTTP collaborator: a client able to
// fetch bytes from a URL with a total timeout and an optional proxy.  The
// client value itself is opaque to the engine; a manager merely owns one
// and hands it to whoever performs a download.

#[verifier::external_type_specification]
#[verifier::external_body]
pub struct ExClient(reqwest::Client);

/// Relies on `reqwest::Client::builder` and `reqwest::ClientBuilder::build`:
/// constructs a client whose requests all carry the given total timeout.
/// Building can fail (the TLS backend may not initialize), so nothing is
/// promised of the outcome; on failure the collaborator's message comes
/// back.
#[verifier::external_body]
fn build_client(timeout_secs: u64) -> (r: Result<reqwest::Client, String>) {
    reqwest::Client::builder()
        .timeout(std::time::Duration::from_secs(timeout_secs))
        .build()
        .map_err(|e| e.to_string())
}

/// Relies on `reqwest::Proxy::all` (which rejects a proxy URL it cannot
/// parse) besides `reqwest::Client::builder` and
/// `reqwest::ClientBuilder::build`; the proxy is applied to every request
/// the client makes.  Nothing is promised of the outcome.
#[verifier::external_body]
fn build_client_with_proxy(timeout_secs: u64, proxy_url: &str) -> (r: Result<
    reqwest::Client,
    String,
>) {
    match reqwest::Proxy::all(proxy_url) {
        Ok(p) => reqwest::Client::builder()
            .timeout(std::time::Duration::from_secs(timeout_secs))
            .proxy(p)
            .build()
            .map_err(|e| e.to_string()),
        Err(e) => Err(e.to_string()),
    }
}

/// Builds the HTTP client a manager owns: GET with a total timeout, and a
/// proxy when the configuration names one.  Whatever the collaborator's
/// outcome, a failure surfaces as a network failure carrying its message.
pub fn create_http_client(timeout_secs: u64, proxy: &str) -> (r: Result<
    reqwest::Client,
    ResolverError,
>)
    ensures
        r matches Err(e) ==> e matches ResolverError::NetworkFailure(_),
{
    let built = if proxy.is_empty() {
        build_client(timeout_secs)
    } else {
        build_client_with_proxy(timeout_secs, proxy)
    };
    match built {
        Ok(c) => Ok(c),
        Err(m) => Err(ResolverError::NetworkFailure(m)),
    }
}

} // verus!
