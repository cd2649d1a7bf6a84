//! The catalog cache: the most recently fetched `Metadata`, replaced
//! wholesale on each successful fetch.
//!
//! The surrounding application shares one `CatalogCache` behind a
//! reader/writer lock.  Because the cache's entire state is the single
//! `Option<Metadata>` below, and `replace` installs a complete catalog in one
//! assignment under the exclusive lock, a reader holding the shared lock
//! observes either the previous complete catalog or the new one — there is no
//! state in which the car map of one catalog is paired with the track map of
//! another.

use vstd::prelude::*;

use crate::errors::SyncError;
use crate::models::Metadata;
use crate::remote::{interpret_catalog_response, spec_status_success};

verus! {

/// Holds the most recent complete catalog, or nothing before the first
/// successful fetch.
#[derive(Debug, Clone)]
pub struct CatalogCache {
    pub metadata: Option<Metadata>,
}

impl CatalogCache {
    /// An empty cache: no catalog loaded yet.
    pub fn new() -> (r: CatalogCache)
        ensures
            r.metadata is None,
    {
        CatalogCache { metadata: None }
    }

    /// The stored catalog, exactly as the last `replace` left it.
    pub fn get(&self) -> (r: Option<&Metadata>)
        ensures
            match r {
                Some(m) => self.metadata == Some(*m),
                None => self.metadata is None,
            },
    {
        match &self.metadata {
            Some(m) => Some(m),
            None => None,
        }
    }

    /// Installs a complete new catalog in a single whole-record write.  A
    /// fetch failure never reaches this point, so a failed fetch leaves the
    /// previous catalog untouched.
    pub fn replace(&mut self, new_metadata: Metadata)
        ensures
            final(self).metadata == Some(new_metadata),
    {
        self.metadata = Some(new_metadata);
    }

    /// Applies the outcome of a catalog fetch.  On success the answer's
    /// catalog replaces the stored one as a whole; on any failure — bad
    /// status or malformed body — the previously stored catalog (or the
    /// not-yet-loaded state) stays exactly as it was and the error
    /// propagates.
    pub fn apply_fetch_outcome(&mut self, status: u16, parsed: Option<Metadata>) -> (r: Result<
        (),
        SyncError,
    >)
        ensures
            match r {
                Ok(()) => spec_status_success(status) && parsed is Some && final(self).metadata
                    == Some(parsed->Some_0),
                Err(e) => {
                    &&& *final(self) == *old(self)
                    &&& e == SyncError::Remote
                    &&& !spec_status_success(status) || parsed is None
                },
            },
    {
        match interpret_catalog_response(status, parsed) {
            Ok(m) => {
                self.replace(m);
                Ok(())
            },
            Err(e) => Err(e),
        }
    }

    /// The stored catalog, or `NotReady` while none is loaded; reconciliation
    /// fails fast on an absent catalog instead of guessing.
    pub fn require(&self) -> (r: Result<&Metadata, SyncError>)
        ensures
            match r {
                Ok(m) => self.metadata == Some(*m),
                Err(e) => self.metadata is None && e == SyncError::NotReady,
            },
    {
        match &self.metadata {
            Some(m) => Ok(m),
            None => Err(SyncError::NotReady),
        }
    }
}

/// A reader never observes a mixed catalog: whichever of two complete
/// catalogs the cache holds, the car entries and the track entries the reader
/// sees both come from that same catalog.
pub proof fn lemma_catalog_swap_atomic(cache: CatalogCache, before: Metadata, after: Metadata)
    requires
        cache.metadata == Some(before) || cache.metadata == Some(after),
    ensures
        (cache.metadata->Some_0.cars == before.cars && cache.metadata->Some_0.tracks
            == before.tracks) || (cache.metadata->Some_0.cars == after.cars
            && cache.metadata->Some_0.tracks == after.tracks),
{
}

} // verus!
