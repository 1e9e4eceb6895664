//! The HTTP surface's decisions: content negotiation, content types
//! and the fixed response bodies. The routes themselves (`/` and
//! `/metrics`) are served outside the library.

use vstd::prelude::*;
use vstd::string::*;

use crate::prometheus::Format;
use crate::text::{contains_seq, str_contains};

verus! {

/// Where the exporter listens.
pub struct HttpConfig {
    pub address: String,
    pub port: u16,
}

impl Default for HttpConfig {
    /// The default listen address, `localhost:8000`.
    fn default() -> (r: Self)
        ensures
            r.address@ == "localhost"@,
            r.port == 8000,
    {
        HttpConfig { address: String::from_str("localhost"), port: 8000 }
    }
}

/// A scrape that could not be served; it maps to a 500 response with
/// a plain-text body.
pub struct MetricsError {
    pub message: String,
}

/// The content type of the line-oriented dialect.
pub fn get_text_plain_content_type() -> (r: &'static str)
    ensures
        r@ == "text/plain; version=0.0.4; charset=utf-8"@,
{
    "text/plain; version=0.0.4; charset=utf-8"
}

/// The content type of the OpenMetrics dialect.
pub fn get_openmetrics_content_type() -> (r: &'static str)
    ensures
        r@ == "application/openmetrics-text; version=1.0.0; charset=utf-8"@,
{
    "application/openmetrics-text; version=1.0.0; charset=utf-8"
}

/// The content type each format is served under.
pub fn content_type_for(format: Format) -> (r: &'static str)
    ensures
        format is OpenMetrics ==> r@ == "application/openmetrics-text; version=1.0.0; charset=utf-8"@,
        format is Prometheus ==> r@ == "text/plain; version=0.0.4; charset=utf-8"@,
{
    match format {
        Format::OpenMetrics => get_openmetrics_content_type(),
        Format::Prometheus => get_text_plain_content_type(),
    }
}

/// The negotiated format: OpenMetrics when the request's Accept
/// header names the `openmetrics-text` sub-type, the line-oriented
/// dialect otherwise.
pub open spec fn spec_negotiate(accept: Option<Seq<char>>) -> Format {
    match accept {
        Some(a) => if contains_seq(a, "openmetrics-text"@) {
            Format::OpenMetrics
        } else {
            Format::Prometheus
        },
        None => Format::Prometheus,
    }
}

/// Chooses the output dialect from the request's Accept header.
pub fn negotiate_format(accept: Option<&str>) -> (r: Format)
    ensures
        r == spec_negotiate(
            match accept {
                Some(a) => Some(a@),
                None => None,
            },
        ),
{
    match accept {
        Some(a) => {
            if str_contains(a, "openmetrics-text") {
                Format::OpenMetrics
            } else {
                Format::Prometheus
            }
        },
        None => Format::Prometheus,
    }
}

/// The body of `GET /`.
pub fn index_body() -> (r: &'static str)
    ensures
        r@ == "Hello Homers"@,
{
    "Hello Homers"
}

/// The 500 body when the encoder fails.
pub fn encoder_error_body() -> (r: &'static str)
    ensures
        r@ == "Error formatting metrics. Check the logs."@,
{
    "Error formatting metrics. Check the logs."
}

/// The 500 body when the executor cannot schedule the scrape.
pub fn executor_error_body() -> (r: &'static str)
    ensures
        r@ == "Error while fetching provider data. Check the logs."@,
{
    "Error while fetching provider data. Check the logs."
}

} // verus!
