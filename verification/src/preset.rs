//! How a quality preset decides the file extension and, for segmented
//! streams, the way the audio is obtained.

use crate::text::{contains, contains_text, same_text, starts_with, starts_with_text};
use vstd::prelude::*;

verus! {

/// The file extensions that a preset can lead to.
#[derive(Debug, Clone, Copy, PartialEq, Eq, Structural)]
pub enum Extension {
    Mp3,
    M4a,
    Opus,
}

/// The extension as it is written in a file name: lower case, no dot.
pub open spec fn extension_text(extension: Extension) -> Seq<char> {
    match extension {
        Extension::Mp3 => "mp3"@,
        Extension::M4a => "m4a"@,
        Extension::Opus => "opus"@,
    }
}

/// The extension of a progressive stream: `mp3` where the preset mentions
/// `mp3` anywhere, `m4a` otherwise.
pub open spec fn progressive_extension(preset: Seq<char>) -> Extension {
    if contains_text(preset, "mp3"@) {
        Extension::Mp3
    } else {
        Extension::M4a
    }
}

/// The ways a segmented stream is obtained.
#[derive(Debug, Clone, Copy, PartialEq, Eq, Structural)]
pub enum HlsRoute {
    /// Hand the stream to the muxing process.
    Remux,
    /// Fetch the segments that the manifest lists and join them; the file
    /// gets this extension.
    Segments(Extension),
    /// The preset is not one that can be obtained.
    Unsupported,
}

/// The route for a segmented stream.
///
/// - `aac_160k` is remuxed.
/// - A preset that mentions `mp3`, and `opus_0_0`, are fetched segment by
///   segment; the extension is `mp3` where the preset begins with `mp3` and
///   `opus` otherwise.
/// - Every other preset is unsupported.
pub open spec fn hls_route(preset: Seq<char>) -> HlsRoute {
    if preset == "aac_160k"@ {
        HlsRoute::Remux
    } else if contains_text(preset, "mp3"@) || preset == "opus_0_0"@ {
        if starts_with_text(preset, "mp3"@) {
            HlsRoute::Segments(Extension::Mp3)
        } else {
            HlsRoute::Segments(Extension::Opus)
        }
    } else {
        HlsRoute::Unsupported
    }
}

impl Extension {
    /// The extension as text: `mp3`, `m4a` or `opus`.
    pub fn as_str(&self) -> (text: &'static str)
        ensures
            text@ == extension_text(*self),
    {
        match self {
            Extension::Mp3 => "mp3",
            Extension::M4a => "m4a",
            Extension::Opus => "opus",
        }
    }
}

/// Chooses the extension of a progressive stream from its preset.
pub fn extension_for_progressive(preset: &str) -> (extension: Extension)
    ensures
        extension == progressive_extension(preset@),
{
    if contains(preset, "mp3") {
        Extension::Mp3
    } else {
        Extension::M4a
    }
}

/// Chooses the route of a segmented stream from its preset.
pub fn route_for_hls(preset: &str) -> (route: HlsRoute)
    ensures
        route == hls_route(preset@),
{
    if same_text(preset, "aac_160k") {
        HlsRoute::Remux
    } else if contains(preset, "mp3") || same_text(preset, "opus_0_0") {
        if starts_with(preset, "mp3") {
            HlsRoute::Segments(Extension::Mp3)
        } else {
            HlsRoute::Segments(Extension::Opus)
        }
    } else {
        HlsRoute::Unsupported
    }
}

} // verus!
