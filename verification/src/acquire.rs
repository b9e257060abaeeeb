//! Acquisition dispatcher: obtains the bytes of a track by the strategy that
//! its transport kind and quality preset call for.
//!
//! The dispatcher is a state machine. The caller performs what an action
//! names (one request, a batch of concurrent requests, a mux run) and reports
//! the outcome as an event; the machine decides what comes next and what
//! the acquisition ends in.

use crate::http::{
    bytes_of, header, header_value, is_success, is_success_status, network_error_text,
    reply_bytes, reply_text, text_of, Fetched, FetchedText, NetworkError, NetworkErrorView,
};
use crate::manifest::{extract_urls, url_tokens};
use crate::preset::{
    extension_for_progressive, extension_text, hls_route, progressive_extension, route_for_hls,
    Extension, HlsRoute,
};
use crate::segments::{join_segments, joined_bodies};
use crate::text::{after_marker, same_text, text_after, texts};
use crate::transcode::{transcode_error_text, TranscodeError, TranscodeErrorView};
use vstd::prelude::*;
use vstd::string::StringExecFns;

verus! {

/// The header that carries the file type of a directly served file.
pub const FILE_TYPE_HEADER: &'static str = "x-amz-meta-file-type";

/// The header that may carry the original file name.
pub const DISPOSITION_HEADER: &'static str = "content-disposition";

/// What stands before the original file name in the disposition header.
pub const FILE_NAME_MARKER: &'static str = "filename*=utf-8''";

/// The container into which a segmented AAC stream is remuxed.
pub const REMUX_CONTAINER: &'static str = "mp4";

/// The shapes in which a track is served.
#[derive(Debug, Clone, Copy, PartialEq, Eq, Structural)]
pub enum TransportKind {
    /// One request for the whole file; the server names its type.
    Direct,
    /// One request for the whole stream; the type follows from the preset.
    Progressive,
    /// A manifest of segments.
    Hls,
}

/// The transport kind that goes by a name: `direct`, `progressive` and
/// `hls` are the names of the three kinds, written exactly so; no other text
/// names a kind.
pub open spec fn kind_named(name: Seq<char>) -> Option<TransportKind> {
    if name == "direct"@ {
        Some(TransportKind::Direct)
    } else if name == "progressive"@ {
        Some(TransportKind::Progressive)
    } else if name == "hls"@ {
        Some(TransportKind::Hls)
    } else {
        None
    }
}

/// What is to be acquired.
#[derive(Debug, PartialEq, Eq)]
pub struct TrackAcquisitionRequest {
    pub source_url: String,
    pub transport_kind: TransportKind,
    pub quality_preset: String,
    pub title: String,
    pub playlist_name: String,
}

/// An acquired track: its bytes, its extension without a dot, and the file
/// name that the server gave it, which may be empty. The extension is `mp3`,
/// `m4a` or `opus` where it follows from the preset, and what the server
/// named where the file was served directly.
#[derive(Debug, PartialEq, Eq)]
pub struct AcquiredMedia {
    pub bytes: Vec<u8>,
    pub extension: String,
    pub original_file_name: String,
}

/// The model of an [`AcquiredMedia`].
pub struct MediaView {
    pub bytes: Seq<u8>,
    pub extension: Seq<char>,
    pub original_file_name: Seq<char>,
}

impl View for AcquiredMedia {
    type V = MediaView;

    open spec fn view(&self) -> MediaView {
        MediaView {
            bytes: self.bytes@,
            extension: self.extension@,
            original_file_name: self.original_file_name@,
        }
    }
}

/// Why an acquisition failed.
#[derive(Debug, PartialEq, Eq)]
pub enum AcquisitionError {
    /// A request failed.
    Network(NetworkError),
    /// A directly served file came without the header that names its type.
    MissingExtensionHeader,
    /// The preset of a segmented stream is not one that can be obtained.
    UnsupportedPreset,
    /// The muxing process failed.
    Transcode(TranscodeError),
    /// The transport kind is none of the known ones. Only a name that names
    /// no kind leads here; the kinds themselves are a closed set, so no
    /// acquisition ever ends in this.
    Unreachable,
}

/// The model of an [`AcquisitionError`].
pub enum AcquisitionErrorView {
    Network(NetworkErrorView),
    MissingExtensionHeader,
    UnsupportedPreset,
    Transcode(TranscodeErrorView),
    Unreachable,
}

impl View for AcquisitionError {
    type V = AcquisitionErrorView;

    open spec fn view(&self) -> AcquisitionErrorView {
        match *self {
            AcquisitionError::Network(error) => AcquisitionErrorView::Network(error@),
            AcquisitionError::MissingExtensionHeader =>
                AcquisitionErrorView::MissingExtensionHeader,
            AcquisitionError::UnsupportedPreset => AcquisitionErrorView::UnsupportedPreset,
            AcquisitionError::Transcode(error) => AcquisitionErrorView::Transcode(error@),
            AcquisitionError::Unreachable => AcquisitionErrorView::Unreachable,
        }
    }
}

/// The text of an acquisition error, as the caller is shown it.
pub open spec fn acquisition_error_text(error: AcquisitionErrorView) -> Seq<char> {
    match error {
        AcquisitionErrorView::Network(error) => network_error_text(error),
        AcquisitionErrorView::MissingExtensionHeader => "Missing x-amz-meta-file-type header"@,
        AcquisitionErrorView::UnsupportedPreset => "Unsupported preset"@,
        AcquisitionErrorView::Transcode(error) => transcode_error_text(error),
        AcquisitionErrorView::Unreachable => "Unknown transport kind"@,
    }
}

impl AcquisitionError {
    /// The message that describes this error to the caller.
    pub fn message(&self) -> (text: String)
        ensures
            text@ == acquisition_error_text(self@),
    {
        match self {
            AcquisitionError::Network(error) => error.message(),
            AcquisitionError::MissingExtensionHeader => String::from_str(
                "Missing x-amz-meta-file-type header",
            ),
            AcquisitionError::UnsupportedPreset => String::from_str("Unsupported preset"),
            AcquisitionError::Transcode(error) => error.message(),
            AcquisitionError::Unreachable => String::from_str("Unknown transport kind"),
        }
    }
}

/// What an acquisition ends in.
pub type Acquired = Result<AcquiredMedia, AcquisitionError>;

/// The model of an [`Acquired`].
pub open spec fn acquired_view(acquired: Acquired) -> Result<MediaView, AcquisitionErrorView> {
    match acquired {
        Ok(media) => Ok(media@),
        Err(error) => Err(error@),
    }
}

/// The original file name that a disposition header gives: what follows the
/// first `filename*=utf-8''` in it, and nothing where the header is absent
/// or lacks that marker.
pub open spec fn original_name(disposition: Option<Seq<char>>) -> Seq<char> {
    match disposition {
        Some(value) => text_after(value, FILE_NAME_MARKER@),
        None => Seq::empty(),
    }
}

/// What a directly served file is made of. The connection is judged first,
/// then the status, then the presence of the file-type header, then the
/// body. The extension is the value of the file-type header as the server
/// sent it. Headers are found by name without regard to the case of ASCII
/// letters.
pub open spec fn direct_media(fetched: Fetched) -> Result<MediaView, AcquisitionErrorView> {
    match fetched {
        Err(reason) => Err(
            AcquisitionErrorView::Network(NetworkErrorView::Connect { reason: reason@ }),
        ),
        Ok(reply) => if !is_success_status(reply.status) {
            Err(AcquisitionErrorView::Network(NetworkErrorView::Status { status: reply.status }))
        } else {
            match (header_value(reply.headers@, FILE_TYPE_HEADER@), reply.body) {
                (None, _) => Err(AcquisitionErrorView::MissingExtensionHeader),
                (Some(_), Err(reason)) => Err(
                    AcquisitionErrorView::Network(NetworkErrorView::Body { reason: reason@ }),
                ),
                (Some(extension), Ok(bytes)) => Ok(
                    MediaView {
                        bytes: bytes@,
                        extension,
                        original_file_name: original_name(
                            header_value(reply.headers@, DISPOSITION_HEADER@),
                        ),
                    },
                ),
            }
        },
    }
}

/// A track whose extension follows from its preset: the bytes that were
/// obtained under that extension, without an original file name.
pub open spec fn preset_media(
    extension: Extension,
    obtained: Result<Seq<u8>, NetworkErrorView>,
) -> Result<MediaView, AcquisitionErrorView> {
    match obtained {
        Ok(bytes) => Ok(
            MediaView {
                bytes,
                extension: extension_text(extension),
                original_file_name: Seq::empty(),
            },
        ),
        Err(error) => Err(AcquisitionErrorView::Network(error)),
    }
}

/// A remuxed track: what the muxing process wrote, as `m4a`.
pub open spec fn remuxed_media(muxed: Result<Vec<u8>, TranscodeError>) -> Result<
    MediaView,
    AcquisitionErrorView,
> {
    match muxed {
        Ok(bytes) => Ok(
            MediaView {
                bytes: bytes@,
                extension: extension_text(Extension::M4a),
                original_file_name: Seq::empty(),
            },
        ),
        Err(error) => Err(AcquisitionErrorView::Transcode(error@)),
    }
}

/// Where an acquisition stands.
#[derive(Debug, Clone, Copy, PartialEq, Eq)]
pub enum Acquisition {
    /// One request for the whole file is under way. `known` is the
    /// extension that the preset gave; for a directly served file there is
    /// none, and the extension is read from the reply.
    AwaitingFile { known: Option<Extension> },
    /// The manifest was asked for.
    AwaitingManifest { extension: Extension },
    /// The segments were asked for, `expected` of them.
    AwaitingSegments { extension: Extension, expected: usize },
    /// The muxing process was asked for.
    AwaitingMux,
    /// The acquisition has handed out what it ended in.
    Finished,
}

/// What the caller reports.
#[derive(Debug, PartialEq, Eq)]
pub enum AcquireEvent {
    /// The outcome of a `Fetch`.
    Replied(Fetched),
    /// The outcome of a `FetchText`.
    ManifestReplied(FetchedText),
    /// The outcomes of a `FetchAll`: one for each address, at the place of
    /// its address, whatever the order in which the requests completed.
    SegmentsReplied(Vec<Fetched>),
    /// The outcome of a `Mux`.
    Muxed(Result<Vec<u8>, TranscodeError>),
}

/// What the caller is told to do.
#[derive(Debug, PartialEq, Eq)]
pub enum AcquireAction {
    /// Request `url` and read the whole body.
    Fetch { url: String },
    /// Request `url` and read the whole body as text.
    FetchText { url: String },
    /// Request all of `urls` concurrently and read each body.
    FetchAll { urls: Vec<String> },
    /// Run the muxing process over `source_url`, writing `container`.
    Mux { source_url: String, container: String },
    /// The acquisition is over; this is what it ended in.
    Finish(Acquired),
    /// Nothing to do.
    Nothing,
}

/// The model of an [`AcquireAction`].
pub enum AcquireActionView {
    Fetch { url: Seq<char> },
    FetchText { url: Seq<char> },
    FetchAll { urls: Seq<Seq<char>> },
    Mux { source_url: Seq<char>, container: Seq<char> },
    Finish(Result<MediaView, AcquisitionErrorView>),
    Nothing,
}

impl View for AcquireAction {
    type V = AcquireActionView;

    open spec fn view(&self) -> AcquireActionView {
        match *self {
            AcquireAction::Fetch { url } => AcquireActionView::Fetch { url: url@ },
            AcquireAction::FetchText { url } => AcquireActionView::FetchText { url: url@ },
            AcquireAction::FetchAll { urls } => AcquireActionView::FetchAll { urls: texts(urls@) },
            AcquireAction::Mux { source_url, container } => AcquireActionView::Mux {
                source_url: source_url@,
                container: container@,
            },
            AcquireAction::Finish(acquired) => AcquireActionView::Finish(acquired_view(acquired)),
            AcquireAction::Nothing => AcquireActionView::Nothing,
        }
    }
}

/// The acquisition is over with this result.
pub open spec fn finishing(result: Result<MediaView, AcquisitionErrorView>) -> (
    Acquisition,
    AcquireActionView,
) {
    (Acquisition::Finished, AcquireActionView::Finish(result))
}

/// How an acquisition starts. The strategy follows from the transport kind
/// alone, and within a segmented stream from the preset:
///
/// - direct: one request; the extension comes with the reply;
/// - progressive: one request; the extension follows from the preset;
/// - segmented, remuxed: the muxing process writes `mp4`;
/// - segmented, joined: the manifest is requested as text;
/// - segmented with an unsupported preset: the acquisition is over at once.
pub open spec fn acquire_begin(request: TrackAcquisitionRequest) -> (
    Acquisition,
    AcquireActionView,
) {
    match request.transport_kind {
        TransportKind::Direct => (
            Acquisition::AwaitingFile { known: None },
            AcquireActionView::Fetch { url: request.source_url@ },
        ),
        TransportKind::Progressive => (
            Acquisition::AwaitingFile {
                known: Some(progressive_extension(request.quality_preset@)),
            },
            AcquireActionView::Fetch { url: request.source_url@ },
        ),
        TransportKind::Hls => match hls_route(request.quality_preset@) {
            HlsRoute::Remux => (
                Acquisition::AwaitingMux,
                AcquireActionView::Mux {
                    source_url: request.source_url@,
                    container: REMUX_CONTAINER@,
                },
            ),
            HlsRoute::Segments(extension) => (
                Acquisition::AwaitingManifest { extension },
                AcquireActionView::FetchText { url: request.source_url@ },
            ),
            HlsRoute::Unsupported => finishing(Err(AcquisitionErrorView::UnsupportedPreset)),
        },
    }
}

/// The transition function of an acquisition.
///
/// - The reply to the one request ends the acquisition: as a directly
///   served file, or under the extension that the preset gave.
/// - The manifest, once read, has its addresses requested, all of them and
///   in the order in which they stand in it; a manifest that could not be
///   had ends the acquisition.
/// - The outcomes of the segment requests, one for each address, end the
///   acquisition: in the bodies joined in the order of the addresses, or in
///   the failure of the first segment that failed.
/// - The outcome of the mux ends the acquisition.
/// - An event that the state does not wait for, a list of outcomes of
///   another length than the list of addresses among them, changes nothing.
pub open spec fn acquire_step(state: Acquisition, event: AcquireEvent) -> (
    Acquisition,
    AcquireActionView,
) {
    match (state, event) {
        (Acquisition::AwaitingFile { known: None }, AcquireEvent::Replied(fetched)) => finishing(
            direct_media(fetched),
        ),
        (
            Acquisition::AwaitingFile { known: Some(extension) },
            AcquireEvent::Replied(fetched),
        ) => finishing(preset_media(extension, reply_bytes(fetched))),
        (Acquisition::AwaitingManifest { extension }, AcquireEvent::ManifestReplied(fetched)) =>
            match reply_text(fetched) {
            Err(error) => finishing(Err(AcquisitionErrorView::Network(error))),
            Ok(manifest) => (
                Acquisition::AwaitingSegments {
                    extension,
                    expected: url_tokens(manifest).len() as usize,
                },
                AcquireActionView::FetchAll { urls: url_tokens(manifest) },
            ),
        },
        (
            Acquisition::AwaitingSegments { extension, expected },
            AcquireEvent::SegmentsReplied(outcomes),
        ) => if outcomes@.len() == expected {
            finishing(preset_media(extension, joined_bodies(outcomes@)))
        } else {
            (state, AcquireActionView::Nothing)
        },
        (Acquisition::AwaitingMux, AcquireEvent::Muxed(muxed)) => finishing(remuxed_media(muxed)),
        _ => (state, AcquireActionView::Nothing),
    }
}

/// Makes a directly served file of the reply to its request.
pub fn finish_direct(fetched: Fetched) -> (acquired: Acquired)
    ensures
        acquired_view(acquired) == direct_media(fetched),
{
    match fetched {
        Err(reason) => Err(AcquisitionError::Network(NetworkError::Connect { reason })),
        Ok(reply) => {
            if !is_success(reply.status) {
                return Err(
                    AcquisitionError::Network(NetworkError::Status { status: reply.status }),
                );
            }
            match header(&reply.headers, FILE_TYPE_HEADER) {
                None => Err(AcquisitionError::MissingExtensionHeader),
                Some(extension) => {
                    let original_file_name = match header(&reply.headers, DISPOSITION_HEADER) {
                        Some(value) => after_marker(value.as_str(), FILE_NAME_MARKER),
                        None => String::new(),
                    };
                    match reply.body {
                        Err(reason) => Err(
                            AcquisitionError::Network(NetworkError::Body { reason }),
                        ),
                        Ok(bytes) => Ok(AcquiredMedia { bytes, extension, original_file_name }),
                    }
                },
            }
        },
    }
}

/// Makes a track of bytes whose extension follows from the preset.
pub fn finish_with_extension(
    extension: Extension,
    obtained: Result<Vec<u8>, NetworkError>,
) -> (acquired: Acquired)
    ensures
        acquired_view(acquired) == preset_media(
            extension,
            crate::http::bytes_result_view(obtained),
        ),
{
    match obtained {
        Ok(bytes) => Ok(
            AcquiredMedia {
                bytes,
                extension: String::from_str(extension.as_str()),
                original_file_name: String::new(),
            },
        ),
        Err(error) => Err(AcquisitionError::Network(error)),
    }
}

/// Makes a track of what the muxing process wrote.
pub fn finish_remux(muxed: Result<Vec<u8>, TranscodeError>) -> (acquired: Acquired)
    ensures
        acquired_view(acquired) == remuxed_media(muxed),
{
    match muxed {
        Ok(bytes) => Ok(
            AcquiredMedia {
                bytes,
                extension: String::from_str(Extension::M4a.as_str()),
                original_file_name: String::new(),
            },
        ),
        Err(error) => Err(AcquisitionError::Transcode(error)),
    }
}

impl TransportKind {
    /// Reads a transport kind from its name. A text that names no kind is
    /// answered with [`AcquisitionError::Unreachable`].
    pub fn from_name(name: &str) -> (kind: Result<TransportKind, AcquisitionError>)
        ensures
            match kind {
                Ok(kind) => kind_named(name@) == Some(kind),
                Err(error) => kind_named(name@) is None && error == AcquisitionError::Unreachable,
            },
    {
        if same_text(name, "direct") {
            Ok(TransportKind::Direct)
        } else if same_text(name, "progressive") {
            Ok(TransportKind::Progressive)
        } else if same_text(name, "hls") {
            Ok(TransportKind::Hls)
        } else {
            Err(AcquisitionError::Unreachable)
        }
    }
}

impl Acquisition {
    /// Starts the acquisition of `request`.
    pub fn begin(request: &TrackAcquisitionRequest) -> (start: (Acquisition, AcquireAction))
        ensures
            (start.0, start.1@) == acquire_begin(*request),
    {
        match request.transport_kind {
            TransportKind::Direct => (
                Acquisition::AwaitingFile { known: None },
                AcquireAction::Fetch { url: request.source_url.clone() },
            ),
            TransportKind::Progressive => {
                let extension = extension_for_progressive(request.quality_preset.as_str());
                (
                    Acquisition::AwaitingFile { known: Some(extension) },
                    AcquireAction::Fetch { url: request.source_url.clone() },
                )
            },
            TransportKind::Hls => match route_for_hls(request.quality_preset.as_str()) {
                HlsRoute::Remux => (
                    Acquisition::AwaitingMux,
                    AcquireAction::Mux {
                        source_url: request.source_url.clone(),
                        container: String::from_str(REMUX_CONTAINER),
                    },
                ),
                HlsRoute::Segments(extension) => (
                    Acquisition::AwaitingManifest { extension },
                    AcquireAction::FetchText { url: request.source_url.clone() },
                ),
                HlsRoute::Unsupported => (
                    Acquisition::Finished,
                    AcquireAction::Finish(Err(AcquisitionError::UnsupportedPreset)),
                ),
            },
        }
    }

    /// Takes one report of the caller and says what to do next.
    pub fn advance(self, event: AcquireEvent) -> (next: (Acquisition, AcquireAction))
        ensures
            (next.0, next.1@) == acquire_step(self, event),
            self == Acquisition::Finished ==> next.0 == self && next.1@
                == AcquireActionView::Nothing,
    {
        match (self, event) {
            (Acquisition::AwaitingFile { known: None }, AcquireEvent::Replied(fetched)) => (
                Acquisition::Finished,
                AcquireAction::Finish(finish_direct(fetched)),
            ),
            (
                Acquisition::AwaitingFile { known: Some(extension) },
                AcquireEvent::Replied(fetched),
            ) => (
                Acquisition::Finished,
                AcquireAction::Finish(finish_with_extension(extension, bytes_of(fetched))),
            ),
            (
                Acquisition::AwaitingManifest { extension },
                AcquireEvent::ManifestReplied(fetched),
            ) => {
                match text_of(fetched) {
                    Err(error) => (
                        Acquisition::Finished,
                        AcquireAction::Finish(Err(AcquisitionError::Network(error))),
                    ),
                    Ok(manifest) => {
                        let urls = extract_urls(manifest.as_str());
                        assert(texts(urls@).len() == urls@.len());
                        (
                            Acquisition::AwaitingSegments { extension, expected: urls.len() },
                            AcquireAction::FetchAll { urls },
                        )
                    },
                }
            },
            (
                Acquisition::AwaitingSegments { extension, expected },
                AcquireEvent::SegmentsReplied(outcomes),
            ) => {
                if outcomes.len() == expected {
                    (
                        Acquisition::Finished,
                        AcquireAction::Finish(
                            finish_with_extension(extension, join_segments(outcomes)),
                        ),
                    )
                } else {
                    (self, AcquireAction::Nothing)
                }
            },
            (Acquisition::AwaitingMux, AcquireEvent::Muxed(muxed)) => (
                Acquisition::Finished,
                AcquireAction::Finish(finish_remux(muxed)),
            ),
            (_, _) => (self, AcquireAction::Nothing),
        }
    }
}

/// One of the extensions that a preset can lead to: `mp3`, `m4a`, `opus`.
pub open spec fn is_known_extension(extension: Seq<char>) -> bool {
    exists|known: Extension| extension == extension_text(known)
}

/// No acquisition starts with, or steps to, the `Unreachable` error: the
/// transport kinds are a closed set and each has its strategy.
pub proof fn acquisition_is_never_unreachable(
    request: TrackAcquisitionRequest,
    state: Acquisition,
    event: AcquireEvent,
)
    ensures
        acquire_begin(request).1 != AcquireActionView::Finish(
            Err(AcquisitionErrorView::Unreachable),
        ),
        acquire_step(state, event).1 != AcquireActionView::Finish(
            Err(AcquisitionErrorView::Unreachable),
        ),
{
}

/// Where the extension follows from the preset, the acquired track has one
/// of the known extensions and no original file name.
pub proof fn preset_extension_is_known(state: Acquisition, event: AcquireEvent)
    requires
        state != (Acquisition::AwaitingFile { known: None }),
    ensures
        acquire_step(state, event).1 matches AcquireActionView::Finish(Ok(media))
            ==> is_known_extension(media.extension) && media.original_file_name
            == Seq::<char>::empty(),
{
    match acquire_step(state, event).1 {
        AcquireActionView::Finish(Ok(media)) => {
            match state {
                Acquisition::AwaitingFile { known: Some(extension) } => {
                    assert(media.extension == extension_text(extension));
                },
                Acquisition::AwaitingSegments { extension, .. } => {
                    assert(media.extension == extension_text(extension));
                },
                Acquisition::AwaitingMux => {
                    assert(media.extension == extension_text(Extension::M4a));
                },
                _ => {},
            }
        },
        _ => {},
    }
}

/// A directly served file fails with `MissingExtensionHeader` exactly when a
/// reply came, its status reports success and it has no file-type header.
pub proof fn missing_file_type_is_reported(fetched: Fetched)
    ensures
        direct_media(fetched) == Err::<MediaView, AcquisitionErrorView>(
            AcquisitionErrorView::MissingExtensionHeader,
        ) <==> (fetched matches Ok(reply) && is_success_status(reply.status) && header_value(
            reply.headers@,
            FILE_TYPE_HEADER@,
        ) is None),
{
}

/// A directly served file is acquired exactly when a reply came, its status
/// reports success, it has a file-type header and its body could be read.
pub proof fn direct_file_is_acquired(fetched: Fetched)
    ensures
        direct_media(fetched) is Ok <==> (fetched matches Ok(reply) && is_success_status(
            reply.status,
        ) && header_value(reply.headers@, FILE_TYPE_HEADER@) is Some && reply.body is Ok),
{
}

/// A segmented stream is joined in the order of its manifest: the addresses
/// are requested in the order in which they stand in the manifest, and if
/// every segment is fetched, the track is the bodies end to end in that
/// order, under the extension that the preset gave.
pub proof fn segments_join_in_manifest_order(
    extension: Extension,
    manifest: FetchedText,
    outcomes: Vec<Fetched>,
)
    requires
        reply_text(manifest) is Ok,
        url_tokens(reply_text(manifest)->Ok_0).len() == outcomes@.len(),
        forall|i: int| 0 <= i < outcomes@.len() ==> #[trigger] reply_bytes(outcomes@[i]) is Ok,
    ensures
        ({
            let asked = acquire_step(
                Acquisition::AwaitingManifest { extension },
                AcquireEvent::ManifestReplied(manifest),
            );
            let ended = acquire_step(asked.0, AcquireEvent::SegmentsReplied(outcomes));
            &&& asked.1 == AcquireActionView::FetchAll {
                urls: url_tokens(reply_text(manifest)->Ok_0),
            }
            &&& ended == finishing(
                Ok(
                    MediaView {
                        bytes: crate::segments::concatenated(
                            Seq::new(
                                outcomes@.len(),
                                |i: int| crate::segments::body_at(outcomes@, i),
                            ),
                        ),
                        extension: extension_text(extension),
                        original_file_name: Seq::empty(),
                    },
                ),
            )
        }),
{
    crate::segments::join_keeps_the_order(outcomes@);
    assert(outcomes@.len() == outcomes.len());
}

/// If any one segment fails, the acquisition fails with a network error.
pub proof fn failed_segment_fails_the_acquisition(
    extension: Extension,
    outcomes: Vec<Fetched>,
    failed: int,
)
    requires
        0 <= failed < outcomes@.len(),
        reply_bytes(outcomes@[failed]) is Err,
    ensures
        acquire_step(
            Acquisition::AwaitingSegments { extension, expected: outcomes.len() },
            AcquireEvent::SegmentsReplied(outcomes),
        ).1 matches AcquireActionView::Finish(Err(AcquisitionErrorView::Network(_))),
{
    crate::segments::one_failure_fails_the_join(outcomes@, failed);
}

/// A finished acquisition is terminal.
pub proof fn finished_acquisition_is_terminal(event: AcquireEvent)
    ensures
        acquire_step(Acquisition::Finished, event) == (
            Acquisition::Finished,
            AcquireActionView::Nothing,
        ),
{
}

} // verus!
