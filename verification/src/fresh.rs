//! The freshness rule for cached thumbnails.
//!
//! A cached thumbnail may be reused only while it is strictly newer than its
//! source. A missing cache file simply means "not fresh"; a failure to read
//! the source's metadata is a real error and propagates.

use vstd::prelude::*;
use crate::error::IoKind;

verus! {

/// What reading a file's modification time produced: the timestamp, in
/// seconds, or the kind of I/O failure.
pub type MtimeResult = Result<i64, IoKind>;

/// The freshness decision: reuse the cache iff both timestamps could be
/// read and the source is strictly older than the cached output. A missing
/// cache file is a miss, not an error; any other failure propagates, the
/// source's first.
pub open spec fn spec_is_fresh(source: MtimeResult, cache: MtimeResult) -> Result<bool, IoKind> {
    match source {
        Err(kind) => Err(kind),
        Ok(source_mtime) => match cache {
            Err(IoKind::NotFound) => Ok(false),
            Err(kind) => Err(kind),
            Ok(cache_mtime) => Ok(source_mtime < cache_mtime),
        },
    }
}

/// Decides whether the cached thumbnail is still valid, given the outcome
/// of reading each file's modification time.
pub fn is_fresh(source: MtimeResult, cache: MtimeResult) -> (r: Result<bool, IoKind>)
    ensures
        r == spec_is_fresh(source, cache),
{
    match source {
        Err(kind) => Err(kind),
        Ok(source_mtime) => match cache {
            Err(IoKind::NotFound) => Ok(false),
            Err(kind) => Err(kind),
            Ok(cache_mtime) => Ok(source_mtime < cache_mtime),
        },
    }
}

/// The freshness rule with the retry policy applied first. A failed
/// generation leaves the placeholder in the cache slot with a fresh
/// timestamp, so under the plain rule a transient failure would never be
/// retried until the source changes; with the retry policy enabled, a
/// cached output recognized as the placeholder is treated as stale
/// outright. A source metadata failure still propagates.
pub open spec fn spec_is_fresh_with_retry(
    source: MtimeResult,
    cache: MtimeResult,
    retry_failures: bool,
    cache_is_placeholder: bool,
) -> Result<bool, IoKind> {
    if retry_failures && cache_is_placeholder {
        match source {
            Err(kind) => Err(kind),
            Ok(source_mtime) => Ok(false),
        }
    } else {
        spec_is_fresh(source, cache)
    }
}

/// Decides freshness under the configurable retry-on-failure policy:
/// exactly the plain rule, except that an enabled policy declares a
/// placeholder-holding cache file stale. With the policy disabled the two
/// rules agree on every input.
pub fn is_fresh_with_retry(
    source: MtimeResult,
    cache: MtimeResult,
    retry_failures: bool,
    cache_is_placeholder: bool,
) -> (r: Result<bool, IoKind>)
    ensures
        r == spec_is_fresh_with_retry(source, cache, retry_failures, cache_is_placeholder),
        !retry_failures ==> r == spec_is_fresh(source, cache),
{
    if retry_failures && cache_is_placeholder {
        match source {
            Err(kind) => Err(kind),
            Ok(source_mtime) => Ok(false),
        }
    } else {
        is_fresh(source, cache)
    }
}

/// The retry policy in one line: whatever the timestamps say, an enabled
/// policy never reuses a cached placeholder, so the failure is retried.
pub proof fn lemma_retry_policy_invalidates_placeholder(source_mtime: i64, cache_mtime: i64)
    ensures
        spec_is_fresh_with_retry(Ok(source_mtime), Ok(cache_mtime), true, true) == Result::<
            bool,
            IoKind,
        >::Ok(false),
{
}

/// Invalidation: once the source's modification time has advanced to or
/// past the cached output's, the cache is no longer fresh, so the next
/// request must regenerate.
pub proof fn lemma_stale_source_invalidates(source_mtime: i64, cache_mtime: i64)
    requires
        source_mtime >= cache_mtime,
    ensures
        spec_is_fresh(Ok(source_mtime), Ok(cache_mtime)) == Result::<bool, IoKind>::Ok(false),
{
}

/// Freshness: a cached output strictly newer than its unmodified source is
/// reused, whatever state the in-flight bookkeeping is in.
pub proof fn lemma_newer_cache_is_fresh(source_mtime: i64, cache_mtime: i64)
    requires
        source_mtime < cache_mtime,
    ensures
        spec_is_fresh(Ok(source_mtime), Ok(cache_mtime)) == Result::<bool, IoKind>::Ok(true),
{
}

} // verus!
