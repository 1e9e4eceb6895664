//! A pull-model metrics exporter for a media-server stack.
//!
//! On each scrape the exporter fans out to the configured backends
//! (Sonarr, Radarr, Lidarr, Readarr, Overseerr/Jellyseerr, Tautulli,
//! Plex, Jellyfin), normalises their responses into canonical records,
//! and encodes the result as a text-format metrics document under the
//! `homers` namespace.
//!
//! This crate holds the verified core: the task model, the per-backend
//! normalisation rules, and the metric encoder. Network transport, JSON
//! deserialisation and the outer HTTP server live outside the library
//! and exchange plain values with it.

pub mod clock;
pub mod config;
pub mod http_server;
pub mod prometheus;
pub mod providers;
pub mod tasks;
pub mod text;
