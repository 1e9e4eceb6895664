//! Lidarr wire records, reduced to the fields the exporter reads.

use vstd::prelude::*;

verus! {

pub struct Artist {
    pub artist_name: String,
    pub monitored: bool,
    pub statistics: Statistics,
}

pub struct Statistics {
    pub track_file_count: i64,
}

} // verus!
