//! The provider adapters: per-backend normalisation of wire records
//! into canonical entities, and the errors the adapters report.

pub mod jellyfin;
pub mod lidarr;
pub mod overseerr;
pub mod plex;
pub mod radarr;
pub mod readarr;
pub mod sonarr;
pub mod structs;
pub mod tautulli;

use vstd::prelude::*;
use vstd::string::*;

verus! {

/// What went wrong while talking to a backend.
pub enum ProviderErrorKind {
    GetError,
    HeaderError,
    ParseError,
}

/// Which backend family an error concerns.
pub enum Provider {
    Radarr,
    Sonarr,
    Lidarr,
    Readarr,
    Overseerr,
    Tautulli,
    Reqwest,
    Plex,
    Jellyfin,
}

impl Provider {
    pub open spec fn spec_name(self) -> Seq<char> {
        match self {
            Provider::Radarr => "Radarr"@,
            Provider::Sonarr => "Sonarr"@,
            Provider::Lidarr => "Lidarr"@,
            Provider::Readarr => "Readarr"@,
            Provider::Overseerr => "Overseerr"@,
            Provider::Tautulli => "Tautulli"@,
            Provider::Reqwest => "Reqwest"@,
            Provider::Plex => "Plex"@,
            Provider::Jellyfin => "Jellyfin"@,
        }
    }

    /// The family's display name.
    pub fn name(&self) -> (r: &'static str)
        ensures
            r@ == self.spec_name(),
    {
        match self {
            Provider::Radarr => "Radarr",
            Provider::Sonarr => "Sonarr",
            Provider::Lidarr => "Lidarr",
            Provider::Readarr => "Readarr",
            Provider::Overseerr => "Overseerr",
            Provider::Tautulli => "Tautulli",
            Provider::Reqwest => "Reqwest",
            Provider::Plex => "Plex",
            Provider::Jellyfin => "Jellyfin",
        }
    }
}

/// An error one adapter observed. Adapters log these and swallow them
/// into empty results; they never cross the executor.
pub struct ProviderError {
    pub provider: Provider,
    pub kind: ProviderErrorKind,
    pub message: String,
}

impl ProviderError {
    pub fn new(provider: Provider, kind: ProviderErrorKind, message: &str) -> (r: ProviderError)
        ensures
            r.provider == provider,
            r.kind == kind,
            r.message@ == message@,
    {
        ProviderError { provider, kind, message: String::from_str(message) }
    }

    pub open spec fn spec_describe(self) -> Seq<char> {
        match self.kind {
            ProviderErrorKind::GetError => "There was an error while getting information from "@
                + self.provider.spec_name() + ": "@ + self.message@,
            ProviderErrorKind::HeaderError => "There was an error while setting headers for "@
                + self.provider.spec_name() + ": "@ + self.message@,
            ProviderErrorKind::ParseError => "There was an error while parsing "@
                + self.provider.spec_name() + " data: "@ + self.message@,
        }
    }

    /// The error's display line, for the log.
    pub fn describe(&self) -> (r: String)
        ensures
            r@ == self.spec_describe(),
    {
        let mut s = match self.kind {
            ProviderErrorKind::GetError => String::from_str(
                "There was an error while getting information from ",
            ),
            ProviderErrorKind::HeaderError => String::from_str(
                "There was an error while setting headers for ",
            ),
            ProviderErrorKind::ParseError => String::from_str(
                "There was an error while parsing ",
            ),
        };
        s.append(self.provider.name());
        match self.kind {
            ProviderErrorKind::ParseError => s.append(" data: "),
            _ => s.append(": "),
        }
        s.append(self.message.as_str());
        s
    }
}

} // verus!
