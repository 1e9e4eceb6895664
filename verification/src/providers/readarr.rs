//! The Readarr adapter: monitored authors and their book counts.

use vstd::prelude::*;
use vstd::string::*;

use crate::config::{remove_trailing_slash, strip_trailing};
use crate::providers::structs::readarr::Author;

verus! {

/// One configured Readarr instance.
pub struct Readarr {
    pub name: String,
    pub address: String,
    pub api_key: String,
}

impl Readarr {
    /// Normalises the address and pins it to the v1 API root.
    pub fn new(name: &str, address: &str, api_key: &str) -> (r: Readarr)
        ensures
            r.name@ == name@,
            r.address@ == strip_trailing(address@) + "/api/v1"@,
            r.api_key@ == api_key@,
    {
        let mut addr = String::from_str(remove_trailing_slash(address));
        addr.append("/api/v1");
        Readarr { name: String::from_str(name), address: addr, api_key: String::from_str(api_key) }
    }

    /// The author-list endpoint.
    pub fn authors_url(&self) -> (r: String)
        ensures
            r@ == self.address@ + "/author"@,
    {
        let mut url = self.address.clone();
        url.append("/author");
        url
    }
}

/// An author as the exporter reports it.
pub struct ReadarrAuthor {
    pub name: String,
    pub monitored: bool,
    pub book_file_count: i64,
}

pub open spec fn author_matches(a: ReadarrAuthor, w: Author) -> bool {
    &&& a.name@ == w.author_name@
    &&& a.monitored == w.monitored
    &&& a.book_file_count == w.statistics.book_file_count
}

/// Maps wire authors to emitted authors.
pub fn authors_from_wire(wire: &Vec<Author>) -> (r: Vec<ReadarrAuthor>)
    ensures
        r@.len() == wire@.len(),
        forall|i: int| 0 <= i < r@.len() ==> #[trigger] author_matches(r@[i], wire@[i]),
{
    let mut r: Vec<ReadarrAuthor> = Vec::new();
    let mut i: usize = 0;
    while i < wire.len()
        invariant
            i <= wire@.len(),
            r@.len() == i,
            forall|j: int| 0 <= j < i ==> #[trigger] author_matches(r@[j], wire@[j]),
        decreases wire@.len() - i,
    {
        let w = &wire[i];
        r.push(
            ReadarrAuthor {
                name: w.author_name.clone(),
                monitored: w.monitored,
                book_file_count: w.statistics.book_file_count,
            },
        );
        i += 1;
    }
    r
}

} // verus!
