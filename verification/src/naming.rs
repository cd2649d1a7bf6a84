//! The filesystem-naming policy: where a downloaded artifact belongs.
//!
//! An artifact lands in `setups/<car name>/<track name>/<display name>`.
//! The car name is the catalog's canonical path override when one is set,
//! otherwise the display name; the track name is always the display name.
//! An id absent from the catalog falls back to the synthetic `car_<id>` /
//! `track_<id>` name.  Every segment a remote value reaches — the override,
//! the display names, the artifact's file segment — is sanitized: no
//! character of `{/ \ : * ? " < > |}` survives into a path, so no name can
//! introduce a separator or escape the `setups` tree.

use vstd::prelude::*;

use crate::models::{CarInfo, DatapackFile, Metadata, TrackInfo, spec_assoc};
use crate::text::{decimal_string, sanitize_filename, spec_decimal, spec_sanitize};

verus! {

/// The directory name chosen for this car id.
pub open spec fn spec_car_name(cars: Seq<(String, CarInfo)>, car_id: u32) -> Seq<char> {
    match spec_assoc(cars, spec_decimal(car_id as nat)) {
        Some(c) => match c.iracing_path {
            Some(p) => spec_sanitize(p@),
            None => spec_sanitize(c.display_name@),
        },
        None => "car_"@ + spec_decimal(car_id as nat),
    }
}

/// The directory name chosen for this track id.
pub open spec fn spec_track_name(tracks: Seq<(String, TrackInfo)>, track_id: u32) -> Seq<char> {
    match spec_assoc(tracks, spec_decimal(track_id as nat)) {
        Some(t) => spec_sanitize(t.display_name@),
        None => "track_"@ + spec_decimal(track_id as nat),
    }
}

/// The directory an artifact of this car and track belongs in.
pub open spec fn spec_dir_path(m: Metadata, f: DatapackFile) -> Seq<char> {
    "setups/"@ + spec_car_name(m.cars@, f.car_id) + "/"@ + spec_track_name(m.tracks@, f.track_id)
}

/// The full local path of an artifact: its directory plus its sanitized
/// display name.
pub open spec fn spec_full_path(m: Metadata, f: DatapackFile) -> Seq<char> {
    spec_dir_path(m, f) + "/"@ + spec_sanitize(f.display_name@)
}

/// Resolves a car id to its directory name via the catalog, preferring the
/// canonical path override, and falling back to `car_<id>` on a miss.
pub fn resolve_car_name(metadata: &Metadata, car_id: u32) -> (r: String)
    ensures
        r@ == spec_car_name(metadata.cars@, car_id),
{
    let key = decimal_string(car_id);
    match metadata.get_car(&key) {
        Some(c) => match &c.iracing_path {
            Some(p) => sanitize_filename(p.as_str()),
            None => sanitize_filename(c.display_name.as_str()),
        },
        None => {
            let mut r = String::from_str("car_");
            r.append(key.as_str());
            r
        },
    }
}

/// Resolves a track id to its sanitized directory name via the catalog,
/// falling back to `track_<id>` on a miss.
pub fn resolve_track_name(metadata: &Metadata, track_id: u32) -> (r: String)
    ensures
        r@ == spec_track_name(metadata.tracks@, track_id),
{
    let key = decimal_string(track_id);
    match metadata.get_track(&key) {
        Some(t) => sanitize_filename(t.display_name.as_str()),
        None => {
            let mut r = String::from_str("track_");
            r.append(key.as_str());
            r
        },
    }
}

/// The directory chain to create for this artifact.
pub fn artifact_dir_path(metadata: &Metadata, file: &DatapackFile) -> (r: String)
    ensures
        r@ == spec_dir_path(*metadata, *file),
{
    let car = resolve_car_name(metadata, file.car_id);
    let track = resolve_track_name(metadata, file.track_id);
    let mut r = String::from_str("setups/");
    r.append(car.as_str());
    r.append("/");
    r.append(track.as_str());
    proof {
        assert(r@ =~= spec_dir_path(*metadata, *file));
    }
    r
}

/// The full local path this artifact is written to (and whose existence on
/// disk is the sole skip signal of reconciliation).
pub fn artifact_full_path(metadata: &Metadata, file: &DatapackFile) -> (r: String)
    ensures
        r@ == spec_full_path(*metadata, *file),
{
    let mut r = artifact_dir_path(metadata, file);
    let file_segment = sanitize_filename(file.display_name.as_str());
    r.append("/");
    r.append(file_segment.as_str());
    proof {
        assert(r@ =~= spec_full_path(*metadata, *file));
    }
    r
}

} // verus!
