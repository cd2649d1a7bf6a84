//! The records exchanged with the remote services and the catalog that names
//! local directories.
//!
//! The remote catalog keys its car and track entries by the decimal string
//! form of their numeric ids.  The catalog is modelled here as association
//! lists of `(key, entry)` pairs; `spec_assoc` gives the lookup semantics
//! (first matching key wins, as a map with unique keys behaves).

use vstd::prelude::*;

verus! {

/// Body of the token-refresh request: the refresh token to exchange.
#[derive(Debug, Clone)]
pub struct RefreshTokenRequest {
    pub refresh_token: String,
}

/// Body of a successful token-refresh answer.
#[derive(Debug, Clone)]
pub struct RefreshTokenResponse {
    pub id_token: String,
    pub refresh_token: String,
    pub expires_in: String,
}

/// One downloadable artifact as the listing endpoint reports it.  Identity
/// for download purposes is (datapack_id, session_id, file_name); the remote
/// does not guarantee uniqueness.
#[derive(Debug, Clone)]
pub struct DatapackFile {
    pub file_name: String,
    pub display_name: String,
    pub track_id: u32,
    pub car_id: u32,
    pub datapack_id: String,
    pub session_id: String,
}

/// A car entry of the catalog.
#[derive(Debug, Clone)]
pub struct CarInfo {
    pub id: u32,
    pub display_name: String,
    pub iracing_path: Option<String>,
}

/// A track entry of the catalog.
#[derive(Debug, Clone)]
pub struct TrackInfo {
    pub id: u32,
    pub display_name: String,
    pub iracing_path: Option<String>,
}

/// The whole catalog: cars and tracks, each keyed by the decimal string form
/// of the entry's id.  Replaced as a unit, never updated in place.
#[derive(Debug, Clone)]
pub struct Metadata {
    pub cars: Vec<(String, CarInfo)>,
    pub tracks: Vec<(String, TrackInfo)>,
}

/// Association-list lookup: the first entry whose key reads `key`.
pub open spec fn spec_assoc<T>(entries: Seq<(String, T)>, key: Seq<char>) -> Option<T>
    decreases entries.len(),
{
    if entries.len() == 0 {
        None
    } else if entries[0].0@ == key {
        Some(entries[0].1)
    } else {
        spec_assoc(entries.drop_first(), key)
    }
}

proof fn lemma_assoc_skip<T>(entries: Seq<(String, T)>, key: Seq<char>, i: int)
    requires
        0 <= i <= entries.len(),
        forall|j: int| 0 <= j < i ==> (#[trigger] entries[j]).0@ != key,
    ensures
        spec_assoc(entries, key) == spec_assoc(entries.skip(i), key),
    decreases i,
{
    if i > 0 {
        assert(entries.skip(0) =~= entries);
        assert(entries.drop_first() =~= entries.skip(1));
        lemma_assoc_skip(entries.skip(1), key, i - 1);
        assert(entries.skip(1).skip(i - 1) =~= entries.skip(i));
    } else {
        assert(entries.skip(0) =~= entries);
    }
}

/// First entry of `entries` whose key equals `key`, if any.
fn assoc_get<'a, T>(entries: &'a Vec<(String, T)>, key: &String) -> (r: Option<&'a T>)
    ensures
        match r {
            Some(t) => spec_assoc(entries@, key@) == Some(*t),
            None => spec_assoc(entries@, key@) is None,
        },
{
    let n = entries.len();
    let mut i: usize = 0;
    while i < n
        invariant
            n == entries@.len(),
            i <= n,
            forall|j: int| 0 <= j < i ==> (#[trigger] entries@[j]).0@ != key@,
        decreases n - i,
    {
        if entries[i].0 == *key {
            proof {
                lemma_assoc_skip(entries@, key@, i as int);
                assert(entries@.skip(i as int)[0] == entries@[i as int]);
            }
            return Some(&entries[i].1);
        }
        i = i + 1;
    }
    proof {
        lemma_assoc_skip(entries@, key@, n as int);
        assert(entries@.skip(n as int).len() == 0);
    }
    None
}

impl Metadata {
    /// The car entry stored under this key, if any.
    pub fn get_car<'a>(&'a self, key: &String) -> (r: Option<&'a CarInfo>)
        ensures
            match r {
                Some(c) => spec_assoc(self.cars@, key@) == Some(*c),
                None => spec_assoc(self.cars@, key@) is None,
            },
    {
        assoc_get(&self.cars, key)
    }

    /// The track entry stored under this key, if any.
    pub fn get_track<'a>(&'a self, key: &String) -> (r: Option<&'a TrackInfo>)
        ensures
            match r {
                Some(t) => spec_assoc(self.tracks@, key@) == Some(*t),
                None => spec_assoc(self.tracks@, key@) is None,
            },
    {
        assoc_get(&self.tracks, key)
    }
}

} // verus!
