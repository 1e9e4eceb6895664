//! The Lidarr adapter: monitored artists and their track counts.

use vstd::prelude::*;
use vstd::string::*;

use crate::config::{remove_trailing_slash, strip_trailing};
use crate::providers::structs::lidarr::Artist;

verus! {

/// One configured Lidarr instance.
pub struct Lidarr {
    pub name: String,
    pub address: String,
    pub api_key: String,
}

impl Lidarr {
    /// Normalises the address and pins it to the v1 API root.
    pub fn new(name: &str, address: &str, api_key: &str) -> (r: Lidarr)
        ensures
            r.name@ == name@,
            r.address@ == strip_trailing(address@) + "/api/v1"@,
            r.api_key@ == api_key@,
    {
        let mut addr = String::from_str(remove_trailing_slash(address));
        addr.append("/api/v1");
        Lidarr { name: String::from_str(name), address: addr, api_key: String::from_str(api_key) }
    }

    /// The artist-list endpoint.
    pub fn artists_url(&self) -> (r: String)
        ensures
            r@ == self.address@ + "/artist"@,
    {
        let mut url = self.address.clone();
        url.append("/artist");
        url
    }
}

/// An artist as the exporter reports it.
pub struct LidarrArtist {
    pub name: String,
    pub monitored: bool,
    pub track_file_count: i64,
}

pub open spec fn artist_matches(a: LidarrArtist, w: Artist) -> bool {
    &&& a.name@ == w.artist_name@
    &&& a.monitored == w.monitored
    &&& a.track_file_count == w.statistics.track_file_count
}

/// Maps wire artists to emitted artists.
pub fn artists_from_wire(wire: &Vec<Artist>) -> (r: Vec<LidarrArtist>)
    ensures
        r@.len() == wire@.len(),
        forall|i: int| 0 <= i < r@.len() ==> #[trigger] artist_matches(r@[i], wire@[i]),
{
    let mut r: Vec<LidarrArtist> = Vec::new();
    let mut i: usize = 0;
    while i < wire.len()
        invariant
            i <= wire@.len(),
            r@.len() == i,
            forall|j: int| 0 <= j < i ==> #[trigger] artist_matches(r@[j], wire@[j]),
        decreases wire@.len() - i,
    {
        let w = &wire[i];
        r.push(
            LidarrArtist {
                name: w.artist_name.clone(),
                monitored: w.monitored,
                track_file_count: w.statistics.track_file_count,
            },
        );
        i += 1;
    }
    r
}

} // verus!
