//! Verified core of a track downloader.
//!
//! The crate decides; its caller acts. Requests, files, processes and
//! windows are the caller's business: it performs what an action names and
//! reports the outcome as an event, and every rule by which a download or
//! a login proceeds is stated and proved here.
//!
//! - [`sanitize`]: file names without reserved characters.
//! - [`preset`]: what a quality preset means for extension and strategy.
//! - [`manifest`]: the segment addresses of a playlist manifest.
//! - [`segments`]: joining fetched segments in the order of their addresses.
//! - [`transcode`]: running the muxing process and cleaning up after it.
//! - [`acquire`]: obtaining the bytes of a track.
//! - [`download`]: settings, destination, acquisition and writing.
//! - [`login`]: the login session and its single outcome.
//! - [`tagging`]: putting tags and cover into a finished file.
//! - [`http`], [`fields`], [`text`]: replies, named values and text.

pub mod acquire;
pub mod download;
pub mod fields;
pub mod http;
pub mod login;
pub mod manifest;
pub mod preset;
pub mod sanitize;
pub mod segments;
pub mod tagging;
pub mod text;
pub mod transcode;
