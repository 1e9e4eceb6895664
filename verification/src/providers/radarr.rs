//! The Radarr adapter: movie records with the derived
//! `missing_available` flag.

use vstd::prelude::*;
use vstd::string::*;

use crate::config::{remove_trailing_slash, strip_trailing};
use crate::providers::structs::radarr::Movie;

verus! {

/// One configured Radarr instance. The HTTP client that talks to it
/// lives outside the library.
pub struct Radarr {
    pub name: String,
    pub address: String,
    pub api_key: String,
}

impl Radarr {
    /// Normalises the address and pins it to the v3 API root.
    pub fn new(name: &str, address: &str, api_key: &str) -> (r: Radarr)
        ensures
            r.name@ == name@,
            r.address@ == strip_trailing(address@) + "/api/v3"@,
            r.api_key@ == api_key@,
    {
        let mut addr = String::from_str(remove_trailing_slash(address));
        addr.append("/api/v3");
        Radarr { name: String::from_str(name), address: addr, api_key: String::from_str(api_key) }
    }

    /// The movie-list endpoint.
    pub fn movies_url(&self) -> (r: String)
        ensures
            r@ == self.address@ + "/movie"@,
    {
        let mut url = self.address.clone();
        url.append("/movie");
        url
    }
}

/// A movie as the exporter reports it. `missing_available` always
/// holds the derived value `!has_file && is_available`.
pub struct RadarrMovie {
    pub title: String,
    pub has_file: bool,
    pub monitored: bool,
    pub is_available: bool,
    pub missing_available: bool,
}

/// How one emitted movie relates to its wire record.
pub open spec fn movie_matches(m: RadarrMovie, w: Movie) -> bool {
    &&& m.title@ == w.title@
    &&& m.has_file == w.has_file
    &&& m.monitored == w.monitored
    &&& m.is_available == w.is_available
    &&& m.missing_available == (!w.has_file && w.is_available)
}

/// Every movie the adapter emits satisfies the derived invariant
/// `missing_available <==> !has_file && is_available`.
pub open spec fn movie_invariant(m: RadarrMovie) -> bool {
    m.missing_available == (!m.has_file && m.is_available)
}

/// Maps wire movies to emitted movies, recomputing
/// `missing_available` for each.
pub fn movies_from_wire(wire: &Vec<Movie>) -> (r: Vec<RadarrMovie>)
    ensures
        r@.len() == wire@.len(),
        forall|i: int| 0 <= i < r@.len() ==> #[trigger] movie_matches(r@[i], wire@[i]),
        forall|i: int| 0 <= i < r@.len() ==> #[trigger] movie_invariant(r@[i]),
{
    let mut r: Vec<RadarrMovie> = Vec::new();
    let mut i: usize = 0;
    while i < wire.len()
        invariant
            i <= wire@.len(),
            r@.len() == i,
            forall|j: int| 0 <= j < i ==> #[trigger] movie_matches(r@[j], wire@[j]),
        decreases wire@.len() - i,
    {
        let w = &wire[i];
        r.push(
            RadarrMovie {
                title: w.title.clone(),
                has_file: w.has_file,
                monitored: w.monitored,
                is_available: w.is_available,
                missing_available: !w.has_file && w.is_available,
            },
        );
        i += 1;
    }
    proof {
        assert forall|i: int| 0 <= i < r@.len() implies #[trigger] movie_invariant(r@[i]) by {
            assert(movie_matches(r@[i], wire@[i]));
        }
    }
    r
}

} // verus!
