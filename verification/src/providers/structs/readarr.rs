//! Readarr wire records, reduced to the fields the exporter reads.

use vstd::prelude::*;

verus! {

pub struct Author {
    pub author_name: String,
    pub monitored: bool,
    pub statistics: Statistics,
}

pub struct Statistics {
    pub book_file_count: i64,
}

} // verus!
