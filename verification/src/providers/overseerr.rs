//! The Overseerr adapter, shared by Jellyseerr: media requests with
//! their status codes and display titles.

use vstd::prelude::*;
use vstd::string::*;

use crate::config::{remove_trailing_slash, strip_trailing};
use crate::providers::structs::overseerr::{Movie, RequestRecord, RequestedBy, Tv};
use crate::text::{i128_to_string, spec_int_string};

verus! {

/// One configured Overseerr or Jellyseerr instance. `requests` is how
/// many requests a scrape fetches.
pub struct Overseerr {
    pub address: String,
    pub api_key: String,
    pub requests: Option<i64>,
}

impl Overseerr {
    pub fn new(address: &str, api_key: &str, requests: i64) -> (r: Overseerr)
        ensures
            r.address@ == strip_trailing(address@),
            r.api_key@ == api_key@,
            r.requests == Some(requests),
    {
        Overseerr {
            address: String::from_str(remove_trailing_slash(address)),
            api_key: String::from_str(api_key),
            requests: Some(requests),
        }
    }

    /// The request-list endpoint.
    pub fn requests_url(&self) -> (r: String)
        ensures
            r@ == self.address@ + "/api/v1/request"@,
    {
        let mut url = self.address.clone();
        url.append("/api/v1/request");
        url
    }

    /// The request-list query: newest first, at most the configured
    /// number of requests (twenty when unset).
    pub fn requests_query(&self) -> (r: Vec<(String, String)>)
        ensures
            r@.len() == 2,
            r@[0].0@ == "sort"@ && r@[0].1@ == "added"@,
            r@[1].0@ == "take"@ && r@[1].1@ == spec_int_string(
                match self.requests {
                    Some(n) => n as int,
                    None => 20,
                },
            ),
    {
        let take = match self.requests {
            Some(n) => n,
            None => 20,
        };
        let mut r: Vec<(String, String)> = Vec::new();
        r.push((String::from_str("sort"), String::from_str("added")));
        r.push((String::from_str("take"), i128_to_string(take as i128)));
        r
    }

    /// The media-details endpoint for one request's media item
    /// (`/movie/{id}` or `/tv/{id}`).
    pub fn media_title_url(&self, media_type: &str, media_id: i64) -> (r: String)
        ensures
            r@ == self.address@ + "/api/v1/"@ + media_type@ + "/"@ + spec_int_string(
                media_id as int,
            ),
    {
        let mut url = self.address.clone();
        url.append("/api/v1/");
        url.append(media_type);
        url.append("/");
        let id = i128_to_string(media_id as i128);
        url.append(id.as_str());
        url
    }
}

/// A media request as the exporter reports it. `status` is the request
/// status code (1 pending approval, 2 approved, 3 declined);
/// `media_status` is the media availability code (1 unknown, 2 pending,
/// 3 processing, 4 partially available, 5 available). Both surface as
/// gauge values unchanged.
pub struct OverseerrRequest {
    pub media_type: String,
    pub media_id: i64,
    pub status: i64,
    pub requested_by: String,
    pub media_status: i64,
    pub media_title: String,
    pub requested_at: String,
}

/// The requester's display name: `username`, else `plex_username`,
/// else `Unknown`.
pub open spec fn spec_requester(r: RequestedBy) -> Seq<char> {
    match r.username {
        Some(u) => u@,
        None => match r.plex_username {
            Some(p) => p@,
            None => "Unknown"@,
        },
    }
}

pub fn requester_name(r: &RequestedBy) -> (name: String)
    ensures
        name@ == spec_requester(*r),
{
    match &r.username {
        Some(u) => u.clone(),
        None => match &r.plex_username {
            Some(p) => p.clone(),
            None => String::from_str("Unknown"),
        },
    }
}

/// The display title taken from a movie-details response: the original
/// title, else `Unknown`.
pub open spec fn spec_movie_title(m: Movie) -> Seq<char> {
    match m.original_title {
        Some(t) => t@,
        None => "Unknown"@,
    }
}

pub fn title_from_movie(m: &Movie) -> (r: String)
    ensures
        r@ == spec_movie_title(*m),
{
    match &m.original_title {
        Some(t) => t.clone(),
        None => String::from_str("Unknown"),
    }
}

/// The display title taken from a series-details response.
pub fn title_from_tv(t: &Tv) -> (r: String)
    ensures
        r@ == t.name@,
{
    t.name.clone()
}

/// How one emitted request relates to its wire record and the title
/// that the per-request details call produced (`None` when that call
/// failed, which substitutes `Unknown`).
pub open spec fn request_matches(r: OverseerrRequest, w: RequestRecord, title: Option<String>) -> bool {
    &&& r.media_type@ == w.media.media_type@
    &&& r.media_id == w.media.id
    &&& r.status == w.status
    &&& r.requested_by@ == spec_requester(w.requested_by)
    &&& r.media_status == w.media.status
    &&& r.media_title@ == (match title {
        Some(t) => t@,
        None => "Unknown"@,
    })
    &&& r.requested_at@ == w.created_at@
}

/// Maps wire requests to emitted requests. `titles` holds, for each
/// request in order, what the per-request title fetch returned.
pub fn requests_from_wire(wire: &Vec<RequestRecord>, titles: &Vec<Option<String>>) -> (r: Vec<
    OverseerrRequest,
>)
    requires
        titles@.len() == wire@.len(),
    ensures
        r@.len() == wire@.len(),
        forall|i: int|
            0 <= i < r@.len() ==> #[trigger] request_matches(r@[i], wire@[i], titles@[i]),
{
    let mut r: Vec<OverseerrRequest> = Vec::new();
    let mut i: usize = 0;
    while i < wire.len()
        invariant
            titles@.len() == wire@.len(),
            i <= wire@.len(),
            r@.len() == i,
            forall|j: int|
                0 <= j < i ==> #[trigger] request_matches(r@[j], wire@[j], titles@[j]),
        decreases wire@.len() - i,
    {
        let w = &wire[i];
        let media_title = match &titles[i] {
            Some(t) => t.clone(),
            None => String::from_str("Unknown"),
        };
        r.push(
            OverseerrRequest {
                media_type: w.media.media_type.clone(),
                media_id: w.media.id,
                status: w.status,
                requested_by: requester_name(&w.requested_by),
                media_status: w.media.status,
                media_title,
                requested_at: w.created_at.clone(),
            },
        );
        i += 1;
    }
    r
}

/// The emitted status codes are exactly the wire's; so whenever the
/// backend reports request statuses in 1..=3 and media statuses in
/// 1..=5 — the codes its API defines — every emitted request carries a
/// request status in {1, 2, 3} and a media status in {1, 2, 3, 4, 5}.
pub proof fn lemma_overseerr_status_codes(
    emitted: Seq<OverseerrRequest>,
    wire: Seq<RequestRecord>,
    titles: Seq<Option<String>>,
)
    requires
        emitted.len() == wire.len(),
        forall|i: int|
            0 <= i < emitted.len() ==> #[trigger] request_matches(emitted[i], wire[i], titles[i]),
        forall|i: int| 0 <= i < wire.len() ==> 1 <= (#[trigger] wire[i]).status <= 3,
        forall|i: int| 0 <= i < wire.len() ==> 1 <= (#[trigger] wire[i]).media.status <= 5,
    ensures
        forall|i: int| 0 <= i < emitted.len() ==> 1 <= (#[trigger] emitted[i]).status <= 3,
        forall|i: int| 0 <= i < emitted.len() ==> 1 <= (#[trigger] emitted[i]).media_status <= 5,
{
    assert forall|i: int| 0 <= i < emitted.len() implies 1 <= (#[trigger] emitted[i]).status <= 3
        && 1 <= emitted[i].media_status <= 5 by {
        assert(request_matches(emitted[i], wire[i], titles[i]));
        assert(1 <= wire[i].status <= 3);
        assert(1 <= wire[i].media.status <= 5);
    }
}

} // verus!
