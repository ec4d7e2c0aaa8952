//! The on-disk image cache: one file per key under the cache root that
//! alphred manages. The sole cache-hit path is an existing file; on a miss
//! the fetch runs and its bytes are stored; a fetch failure is propagated
//! unchanged and makes no cache entry. Probing and storing are two alphred
//! calls, so two concurrent misses for one key may both fetch — accepted
//! redundant work, since alphred keeps whichever file exists first. Note
//! that alphred writes the file in place rather than staging it under a
//! temporary name and publishing it atomically, so an interruption
//! mid-write can leave a truncated file that later hits never revalidate:
//! an accepted tradeoff of building on alphred's one-call cache API, which
//! neither stages writes nor exposes the cache root for a helper that
//! could.

use vstd::prelude::*;

use crate::model::{FetchError, PipelineError};

verus! {

/// A returned cache path ends with the file name it was asked for: the
/// cache root joined with the name.
pub open spec fn path_ends_with(p: Seq<char>, name: Seq<char>) -> bool {
    p.len() >= name.len() && p.skip(p.len() - name.len()) == name
}

/// Relies on alphred::cached: when a file of this name already exists
/// under the cache root, its path (the root joined with the name) comes
/// back without the closure ever running; the probe closure always fails,
/// so a miss, a missing cache-root variable, or a root that cannot be
/// created all come back as None.
#[verifier::external_body]
fn cache_probe(file_name: &str) -> (r: Option<String>)
    ensures
        r matches Some(p) ==> path_ends_with(p@, file_name@),
{
    alphred::cached(file_name, || Err(anyhow::Error::msg("absent")))
        .ok()
        .map(|p| p.to_string_lossy().into_owned())
}

/// Relies on alphred::cached: writes the bytes to a file of this name
/// under the cache root (keeping an already-existing file instead, without
/// rewriting it) and returns the file's path, the root joined with the
/// name; None when the root is unavailable or the write fails.
#[verifier::external_body]
fn cache_store(file_name: &str, bytes: &Vec<u8>) -> (r: Option<String>)
    ensures
        r matches Some(p) ==> path_ends_with(p@, file_name@),
{
    let data = bytes.clone();
    alphred::cached(file_name, move || Ok(data.clone()))
        .ok()
        .map(|p| p.to_string_lossy().into_owned())
}

/// Returns the cached file path for a key, fetching and storing the bytes
/// on a miss. A fetch failure is handed back unchanged as Fetch(..) and
/// makes no cache entry; an unavailable root or a failed write is Cache,
/// which can only arise once the fetch has succeeded — a fetch failure is
/// never rewrapped as a cache error.
pub fn get_or_fetch<F: Fn() -> Result<Vec<u8>, FetchError>>(key: &str, fetch: F) -> (r: Result<
    String,
    PipelineError,
>)
    requires
        call_requires(fetch, ()),
    ensures
        r matches Ok(p) ==> path_ends_with(p@, key@),
        r matches Err(PipelineError::Fetch(fe)) ==> call_ensures(
            fetch,
            (),
            Result::<Vec<u8>, FetchError>::Err(fe),
        ),
        r == Result::<String, PipelineError>::Err(PipelineError::Cache) ==> exists|b: Vec<u8>|
            call_ensures(fetch, (), Result::<Vec<u8>, FetchError>::Ok(b)),
{
    match cache_probe(key) {
        Some(p) => Ok(p),
        None => match fetch() {
            Err(fe) => Err(PipelineError::Fetch(fe)),
            Ok(bytes) => match cache_store(key, &bytes) {
                Some(p) => Ok(p),
                None => {
                    proof {
                        assert(call_ensures(fetch, (), Result::<Vec<u8>, FetchError>::Ok(bytes)));
                        assert(exists|b: Vec<u8>|
                            call_ensures(fetch, (), Result::<Vec<u8>, FetchError>::Ok(b)));
                    }
                    Err(PipelineError::Cache)
                },
            },
        },
    }
}

} // verus!
