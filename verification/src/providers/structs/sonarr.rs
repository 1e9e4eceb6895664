//! Sonarr wire records, reduced to the fields the exporter reads.

use vstd::prelude::*;

verus! {

/// One calendar entry; `series_title` is the owning series' title.
pub struct Calendar {
    pub season_number: i64,
    pub episode_number: i64,
    pub title: String,
    pub air_date: String,
    pub has_file: bool,
    pub series_title: String,
}

} // verus!
