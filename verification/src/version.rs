use vstd::prelude::*;
use crate::errors::ResolverError;

verus! {

/// What a read-only probe of the browser binary at its expected location
/// reported.  The probe itself (file metadata, a version-reporting
/// command) is input/output work done by the caller; deciding what it
/// means is the engine's job, and never involves the network.
#[derive(Debug, Clone, PartialEq, Eq)]
pub enum BinaryProbe {
    /// No file exists at the expected location.
    Missing,
    /// The binary exists and its version-reporting mechanism printed this.
    VersionOutput(String),
    /// The binary exists but its version metadata could not be read.
    Unreadable(String),
}

/// A target driver version.  A driver that ships bundled with the
/// operating system has no independent versioning: that is the explicit
/// `Bundled` state, kept apart from `Unknown` ("the version could not be
/// determined") so callers can tell the two conditions apart.
#[derive(Debug, Clone, PartialEq, Eq)]
pub enum ResolvedVersion {
    /// A concrete version string.
    Concrete(String),
    /// The version could not be determined.
    Unknown,
    /// Versioning does not apply: the driver ships with the OS or browser.
    Bundled,
}

pub open spec fn is_digit(c: char) -> bool {
    c == '0' || c == '1' || c == '2' || c == '3' || c == '4' || c == '5' || c == '6' || c == '7'
        || c == '8' || c == '9'
}

/// A character a well-formed version string may hold.
pub open spec fn is_version_char(c: char) -> bool {
    is_digit(c) || c == '.'
}

/// ASCII whitespace that version probes pad their output with.
pub open spec fn is_space(c: char) -> bool {
    c == ' ' || c == '\n' || c == '\t' || c == '\r'
}

pub open spec fn trim_front(s: Seq<char>) -> Seq<char>
    decreases s.len(),
{
    if s.len() > 0 && is_space(s.first()) {
        trim_front(s.drop_first())
    } else {
        s
    }
}

pub open spec fn trim_back(s: Seq<char>) -> Seq<char>
    decreases s.len(),
{
    if s.len() > 0 && is_space(s.last()) {
        trim_back(s.drop_last())
    } else {
        s
    }
}

/// Probe output with the surrounding whitespace removed.
pub open spec fn trimmed(s: Seq<char>) -> Seq<char> {
    trim_back(trim_front(s))
}

/// A plausible version string: non-empty, digits and dots only.
pub open spec fn version_like(s: Seq<char>) -> bool {
    s.len() > 0 && forall|i: int| 0 <= i < s.len() ==> is_version_char(#[trigger] s[i])
}

/// Whether a probe outcome counts as a discovery failure: the binary is
/// there but no version can be read from it.  An absent binary is not a
/// failure.
pub open spec fn discovery_fails(probe: BinaryProbe) -> bool {
    match probe {
        BinaryProbe::Missing => false,
        BinaryProbe::VersionOutput(out) => !version_like(trimmed(out@)),
        BinaryProbe::Unreadable(_) => true,
    }
}

/// Removes leading and trailing whitespace from probe output.
pub fn trim_output<'a>(s: &'a str) -> (r: &'a str)
    ensures
        r@ == trimmed(s@),
{
    let n = s.unicode_len();
    let mut lo: usize = 0;
    proof {
        assert(s@.skip(0) =~= s@);
    }
    while lo < n
        invariant
            n == s@.len(),
            lo <= n,
            trim_front(s@) == trim_front(s@.skip(lo as int)),
        ensures
            lo <= n,
            trim_front(s@) == trim_front(s@.skip(lo as int)),
            lo == n || !is_space(s@[lo as int]),
        decreases n - lo,
    {
        let c = s.get_char(lo);
        proof {
            assert(s@.skip(lo as int).first() == s@[lo as int]);
        }
        if c == ' ' || c == '\n' || c == '\t' || c == '\r' {
            proof {
                assert(s@.skip(lo as int).drop_first() =~= s@.skip(lo as int + 1));
            }
            lo = lo + 1;
        } else {
            break;
        }
    }
    proof {
        assert(s@.skip(lo as int) =~= s@.subrange(lo as int, n as int));
        if lo == n {
            assert(s@.skip(lo as int).len() == 0);
        } else {
            assert(s@.skip(lo as int).first() == s@[lo as int]);
        }
        assert(trim_front(s@) == s@.subrange(lo as int, n as int));
    }
    let mut hi: usize = n;
    while hi > lo
        invariant
            lo <= hi <= n,
            n == s@.len(),
            trim_back(s@.subrange(lo as int, n as int)) == trim_back(
                s@.subrange(lo as int, hi as int),
            ),
        ensures
            lo <= hi <= n,
            trim_back(s@.subrange(lo as int, n as int)) == trim_back(
                s@.subrange(lo as int, hi as int),
            ),
            hi == lo || !is_space(s@[hi - 1]),
        decreases hi,
    {
        let c = s.get_char(hi - 1);
        proof {
            assert(s@.subrange(lo as int, hi as int).last() == s@[hi - 1]);
        }
        if c == ' ' || c == '\n' || c == '\t' || c == '\r' {
            proof {
                assert(s@.subrange(lo as int, hi as int).drop_last() =~= s@.subrange(
                    lo as int,
                    hi - 1,
                ));
            }
            hi = hi - 1;
        } else {
            break;
        }
    }
    proof {
        let t = s@.subrange(lo as int, hi as int);
        if hi == lo {
            assert(t.len() == 0);
        } else {
            assert(t.last() == s@[hi - 1]);
        }
        assert(trim_back(t) == t);
        assert(trimmed(s@) == t);
    }
    s.substring_char(lo, hi)
}

/// Extracts a version from probe output: the trimmed output when it looks
/// like a version, a discovery failure (carrying the raw output) when it
/// does not.
pub fn parse_version_output(out: &str) -> (r: Result<String, ResolverError>)
    ensures
        version_like(trimmed(out@)) ==> (r matches Ok(v) && v@ == trimmed(out@)),
        !version_like(trimmed(out@)) ==> (r matches Err(e) && e matches
            ResolverError::VersionDiscoveryFailed(m) && m@ == out@),
{
    let t = trim_output(out);
    let n = t.unicode_len();
    if n == 0 {
        return Err(ResolverError::VersionDiscoveryFailed(out.to_owned()));
    }
    let mut i: usize = 0;
    while i < n
        invariant
            n == t@.len(),
            i <= n,
            t@ == trimmed(out@),
            forall|j: int| 0 <= j < i ==> is_version_char(#[trigger] t@[j]),
        decreases n - i,
    {
        let c = t.get_char(i);
        if !(c == '.' || c == '0' || c == '1' || c == '2' || c == '3' || c == '4' || c == '5'
            || c == '6' || c == '7' || c == '8' || c == '9') {
            return Err(ResolverError::VersionDiscoveryFailed(out.to_owned()));
        }
        i = i + 1;
    }
    Ok(t.to_owned())
}

/// What a probe of the browser binary means for version discovery: an
/// absent binary is no error, merely an absent version; a binary whose
/// version cannot be read is a discovery failure.
pub fn discover_version_from_probe(probe: &BinaryProbe) -> (r: Result<
    Option<String>,
    ResolverError,
>)
    ensures
        match probe {
            BinaryProbe::Missing => r matches Ok(v) && v is None,
            BinaryProbe::VersionOutput(out) => {
                &&& version_like(trimmed(out@)) ==> (r matches Ok(v) && v matches Some(ver)
                    && ver@ == trimmed(out@))
                &&& !version_like(trimmed(out@)) ==> (r matches Err(e) && e matches
                    ResolverError::VersionDiscoveryFailed(m) && m@ == out@)
            },
            BinaryProbe::Unreadable(d) => r matches Err(e) && e matches
                ResolverError::VersionDiscoveryFailed(m) && m@ == d@,
        },
{
    match probe {
        BinaryProbe::Missing => Ok(None),
        BinaryProbe::VersionOutput(out) => {
            match parse_version_output(out.as_str()) {
                Ok(v) => Ok(Some(v)),
                Err(e) => Err(e),
            }
        },
        BinaryProbe::Unreadable(d) => Err(
            ResolverError::VersionDiscoveryFailed(d.clone()),
        ),
    }
}

} // verus!
