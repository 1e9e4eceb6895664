//! Radarr wire records, reduced to the fields the exporter reads.

use vstd::prelude::*;

verus! {

pub struct Movie {
    pub title: String,
    pub has_file: bool,
    pub monitored: bool,
    pub is_available: bool,
}

} // verus!
