use vstd::prelude::*;

verus! {

/// The failure kinds a resolution can surface to its caller.
///
/// A browser that is simply absent from the machine is not an error:
/// version discovery reports it as `Ok(None)` instead.
#[derive(Debug, Clone, PartialEq, Eq)]
pub enum ResolverError {
    /// The browser binary exists but its version could not be read
    /// (corrupt metadata, unexpected probe output).
    VersionDiscoveryFailed(String),
    /// The browser or driver has no online distribution channel; carries
    /// the canonical driver name.  Terminal by design, never transient.
    DownloadUnavailable(String),
    /// A network operation failed or timed out on a channel that does exist.
    NetworkFailure(String),
    /// The driver cache could not be written.
    CacheWriteFailure(String),
}

/// The wording used when a driver cannot be fetched online.
pub open spec fn download_unavailable_message(driver: Seq<char>) -> Seq<char> {
    driver + " not available for download"@
}

impl ResolverError {
    pub open spec fn is_download_unavailable(&self) -> bool {
        self matches ResolverError::DownloadUnavailable(_)
    }

    /// Human-readable description of the failure.
    pub fn message(&self) -> (r: String)
        ensures
            match self {
                ResolverError::VersionDiscoveryFailed(d) => r@ == "cannot discover browser version: "@ + d@,
                ResolverError::DownloadUnavailable(d) => r@ == download_unavailable_message(d@),
                ResolverError::NetworkFailure(d) => r@ == "network failure: "@ + d@,
                ResolverError::CacheWriteFailure(d) => r@ == "cannot write to driver cache: "@ + d@,
            },
    {
        match self {
            ResolverError::VersionDiscoveryFailed(d) => {
                String::from_str("cannot discover browser version: ").concat(d.as_str())
            },
            ResolverError::DownloadUnavailable(d) => {
                String::from_str(d.as_str()).concat(" not available for download")
            },
            ResolverError::NetworkFailure(d) => {
                String::from_str("network failure: ").concat(d.as_str())
            },
            ResolverError::CacheWriteFailure(d) => {
                String::from_str("cannot write to driver cache: ").concat(d.as_str())
            },
        }
    }
}

/// Shared fallback for every operation that cannot be served online for a
/// given browser: one uniform error kind, carrying the canonical driver
/// name, returned without attempting any network call.
pub fn unavailable_download<T>(driver_name: &str) -> (r: Result<T, ResolverError>)
    ensures
        r matches Err(e) && e matches ResolverError::DownloadUnavailable(d) && d@ == driver_name@,
{
    Err(ResolverError::DownloadUnavailable(driver_name.to_owned()))
}

} // verus!
