//! Tagging: the steps by which title, album, artist and cover are put into
//! a finished file, the checks on the cover image, and the way each failure
//! is reported.
//!
//! Reading and writing the tags, and fetching the cover, are done by the
//! caller; it reports what it got and is told what to do next.

use crate::http::{is_success, is_success_status};
use crate::text::{joined, optional_text, same_text};
use vstd::prelude::*;
use vstd::string::StringExecFns;

verus! {

/// The image formats that can be embedded as a cover.
#[derive(Debug, Clone, Copy, PartialEq, Eq, Structural)]
pub enum CoverFormat {
    Jpeg,
    Png,
}

/// What came back from the request for the cover image.
#[derive(Debug, PartialEq, Eq)]
pub struct CoverReply {
    /// The numeric HTTP status.
    pub status: u16,
    /// The status as it is shown in messages, such as `404 Not Found`.
    pub status_line: String,
    /// The value of the `Content-Type` header, if the reply had one.
    pub content_type: Option<String>,
    /// The body, or why it could not be read.
    pub body: Result<Vec<u8>, String>,
}

/// A cover image that passed the checks.
#[derive(Debug, PartialEq, Eq)]
pub struct Cover {
    pub format: CoverFormat,
    pub data: Vec<u8>,
}

/// The model of a [`Cover`].
pub struct CoverView {
    pub format: CoverFormat,
    pub data: Seq<u8>,
}

impl View for Cover {
    type V = CoverView;

    open spec fn view(&self) -> CoverView {
        CoverView { format: self.format, data: self.data@ }
    }
}

/// Why tagging a file failed.
#[derive(Debug, PartialEq, Eq)]
pub enum TagError {
    /// There is no file at `path`.
    FileNotFound { path: String },
    /// The tags of the file could not be read.
    ReadFailed { path: String, reason: String },
    /// The request for the cover could not be made.
    CoverRequestFailed { reason: String },
    /// The cover request was answered with a status outside 200 to 299.
    CoverDownloadFailed { status_line: String },
    /// The cover reply had no `Content-Type` header.
    MissingContentType,
    /// The body of the cover reply could not be read.
    CoverReadFailed { reason: String },
    /// The cover is neither `image/jpeg` nor `image/png`.
    UnsupportedCoverFormat,
    /// The tags could not be written back.
    WriteFailed { path: String, reason: String },
}

/// The model of a [`TagError`].
pub enum TagErrorView {
    FileNotFound { path: Seq<char> },
    ReadFailed { path: Seq<char>, reason: Seq<char> },
    CoverRequestFailed { reason: Seq<char> },
    CoverDownloadFailed { status_line: Seq<char> },
    MissingContentType,
    CoverReadFailed { reason: Seq<char> },
    UnsupportedCoverFormat,
    WriteFailed { path: Seq<char>, reason: Seq<char> },
}

impl View for TagError {
    type V = TagErrorView;

    open spec fn view(&self) -> TagErrorView {
        match *self {
            TagError::FileNotFound { path } => TagErrorView::FileNotFound { path: path@ },
            TagError::ReadFailed { path, reason } => TagErrorView::ReadFailed {
                path: path@,
                reason: reason@,
            },
            TagError::CoverRequestFailed { reason } => TagErrorView::CoverRequestFailed {
                reason: reason@,
            },
            TagError::CoverDownloadFailed { status_line } => TagErrorView::CoverDownloadFailed {
                status_line: status_line@,
            },
            TagError::MissingContentType => TagErrorView::MissingContentType,
            TagError::CoverReadFailed { reason } => TagErrorView::CoverReadFailed {
                reason: reason@,
            },
            TagError::UnsupportedCoverFormat => TagErrorView::UnsupportedCoverFormat,
            TagError::WriteFailed { path, reason } => TagErrorView::WriteFailed {
                path: path@,
                reason: reason@,
            },
        }
    }
}

/// The cover format that a content type stands for: `image/jpeg` and
/// `image/png` are known, compared as they are written; nothing else is.
pub open spec fn cover_format_of(content_type: Seq<char>) -> Option<CoverFormat> {
    if content_type == "image/jpeg"@ {
        Some(CoverFormat::Jpeg)
    } else if content_type == "image/png"@ {
        Some(CoverFormat::Png)
    } else {
        None
    }
}

/// What the checks make of a cover reply. They run in this order, and the
/// first that fails decides: the request itself, the status, the presence of
/// a content type, the body, the format.
pub open spec fn cover_check(reply: Result<CoverReply, String>) -> Result<CoverView, TagErrorView> {
    match reply {
        Err(reason) => Err(TagErrorView::CoverRequestFailed { reason: reason@ }),
        Ok(reply) => if !is_success_status(reply.status) {
            Err(TagErrorView::CoverDownloadFailed { status_line: reply.status_line@ })
        } else {
            match (reply.content_type, reply.body) {
                (None, _) => Err(TagErrorView::MissingContentType),
                (Some(_), Err(reason)) => Err(TagErrorView::CoverReadFailed { reason: reason@ }),
                (Some(content_type), Ok(data)) => match cover_format_of(content_type@) {
                    None => Err(TagErrorView::UnsupportedCoverFormat),
                    Some(format) => Ok(CoverView { format, data: data@ }),
                },
            }
        },
    }
}

/// The model of what [`check_cover`] returns.
pub open spec fn cover_result_view(result: Result<Cover, TagError>) -> Result<
    CoverView,
    TagErrorView,
> {
    match result {
        Ok(cover) => Ok(cover@),
        Err(error) => Err(error@),
    }
}

/// The text of a tagging error, as the caller is shown it.
pub open spec fn tag_error_text(error: TagErrorView) -> Seq<char> {
    match error {
        TagErrorView::FileNotFound { path } => "File not found: "@ + path,
        TagErrorView::ReadFailed { path, reason } => "Failed to read tag from "@ + path + ": "@
            + reason,
        TagErrorView::CoverRequestFailed { reason } => "Failed to request cover URL: "@ + reason,
        TagErrorView::CoverDownloadFailed { status_line } => "Cover download failed: HTTP "@
            + status_line,
        TagErrorView::MissingContentType => "Failed to get Content-Type header"@,
        TagErrorView::CoverReadFailed { reason } => "Failed to read cover bytes: "@ + reason,
        TagErrorView::UnsupportedCoverFormat => "Unsupported cover image format"@,
        TagErrorView::WriteFailed { path, reason } => "Failed to write tags to "@ + path + ": "@
            + reason,
    }
}

/// Names the cover format of a content type, if it is one that can be
/// embedded.
pub fn cover_format(content_type: &str) -> (format: Option<CoverFormat>)
    ensures
        format == cover_format_of(content_type@),
{
    if same_text(content_type, "image/jpeg") {
        Some(CoverFormat::Jpeg)
    } else if same_text(content_type, "image/png") {
        Some(CoverFormat::Png)
    } else {
        None
    }
}

/// Decides whether the reply to the cover request holds an image that can
/// be embedded, and says which check failed if it does not.
pub fn check_cover(reply: Result<CoverReply, String>) -> (result: Result<Cover, TagError>)
    ensures
        cover_result_view(result) == cover_check(reply),
{
    match reply {
        Err(reason) => Err(TagError::CoverRequestFailed { reason }),
        Ok(reply) => {
            if !is_success(reply.status) {
                return Err(TagError::CoverDownloadFailed { status_line: reply.status_line });
            }
            match reply.content_type {
                None => Err(TagError::MissingContentType),
                Some(content_type) => match reply.body {
                    Err(reason) => Err(TagError::CoverReadFailed { reason }),
                    Ok(data) => match cover_format(content_type.as_str()) {
                        None => Err(TagError::UnsupportedCoverFormat),
                        Some(format) => Ok(Cover { format, data }),
                    },
                },
            }
        },
    }
}

impl TagError {
    /// The message that describes this error to the caller.
    pub fn message(&self) -> (text: String)
        ensures
            text@ == tag_error_text(self@),
    {
        match self {
            TagError::FileNotFound { path } => joined(
                "File not found: ",
                path.as_str(),
            ),
            TagError::ReadFailed { path, reason } => {
                let mut text = String::from_str("Failed to read tag from ");
                text.append(path.as_str());
                text.append(": ");
                text.append(reason.as_str());
                text
            },
            TagError::CoverRequestFailed { reason } => joined(
                "Failed to request cover URL: ",
                reason.as_str(),
            ),
            TagError::CoverDownloadFailed { status_line } => joined(
                "Cover download failed: HTTP ",
                status_line.as_str(),
            ),
            TagError::MissingContentType => String::from_str("Failed to get Content-Type header"),
            TagError::CoverReadFailed { reason } => joined(
                "Failed to read cover bytes: ",
                reason.as_str(),
            ),
            TagError::UnsupportedCoverFormat => String::from_str("Unsupported cover image format"),
            TagError::WriteFailed { path, reason } => {
                let mut text = String::from_str("Failed to write tags to ");
                text.append(path.as_str());
                text.append(": ");
                text.append(reason.as_str());
                text
            },
        }
    }
}

/// What is to be put into the tags of a file.
#[derive(Debug, PartialEq, Eq)]
pub struct TagRequest {
    /// The file whose tags are changed.
    pub file_path: String,
    pub title: Option<String>,
    pub album: Option<String>,
    pub artist: Option<String>,
    /// Where the cover image is fetched from, if one is wanted.
    pub cover_url: Option<String>,
}

/// The changes to make to the tags: each field that is present is set,
/// each that is absent is left as the file has it.
#[derive(Debug, PartialEq, Eq)]
pub struct TagEdits {
    pub title: Option<String>,
    pub album: Option<String>,
    pub artist: Option<String>,
    pub cover: Option<Cover>,
}

/// The model of a [`TagEdits`].
pub struct TagEditsView {
    pub title: Option<Seq<char>>,
    pub album: Option<Seq<char>>,
    pub artist: Option<Seq<char>>,
    pub cover: Option<CoverView>,
}

impl View for TagEdits {
    type V = TagEditsView;

    open spec fn view(&self) -> TagEditsView {
        TagEditsView {
            title: optional_text(self.title),
            album: optional_text(self.album),
            artist: optional_text(self.artist),
            cover: match self.cover {
                Some(cover) => Some(cover@),
                None => None,
            },
        }
    }
}

/// Where a tagging job stands.
#[derive(Debug, PartialEq, Eq)]
pub enum TagJob {
    /// The file is being looked for.
    CheckingFile { request: TagRequest },
    /// The tags of the file are being read.
    ReadingTags { request: TagRequest },
    /// The cover is being fetched.
    FetchingCover { request: TagRequest },
    /// The tags are being written back to the file.
    Writing { file_path: String },
    /// The job has handed out what it ended in.
    Finished,
}

/// The model of a [`TagJob`].
pub enum TagJobView {
    CheckingFile { request: TagRequest },
    ReadingTags { request: TagRequest },
    FetchingCover { request: TagRequest },
    Writing { file_path: Seq<char> },
    Finished,
}

impl View for TagJob {
    type V = TagJobView;

    open spec fn view(&self) -> TagJobView {
        match *self {
            TagJob::CheckingFile { request } => TagJobView::CheckingFile { request },
            TagJob::ReadingTags { request } => TagJobView::ReadingTags { request },
            TagJob::FetchingCover { request } => TagJobView::FetchingCover { request },
            TagJob::Writing { file_path } => TagJobView::Writing { file_path: file_path@ },
            TagJob::Finished => TagJobView::Finished,
        }
    }
}

/// What the caller reports.
#[derive(Debug, PartialEq, Eq)]
pub enum TagEvent {
    /// Whether there is a file at the path.
    FileChecked { exists: bool },
    /// The tags were read, or could not be.
    TagsRead(Result<(), String>),
    /// The outcome of the request for the cover.
    CoverFetched(Result<CoverReply, String>),
    /// The tags were written, or could not be.
    TagsWritten(Result<(), String>),
}

/// What the caller is told to do.
#[derive(Debug, PartialEq, Eq)]
pub enum TagAction {
    /// Find out whether there is a file at `path`.
    CheckFile { path: String },
    /// Read the tags of the file at `path`.
    ReadTags { path: String },
    /// Request `url` and read status, content type and body.
    FetchCover { url: String },
    /// Make `edits` to the tags that were read and write them to `path`.
    WriteTags { path: String, edits: TagEdits },
    /// The job is over; this is what it ended in.
    Finish(Result<(), TagError>),
    /// Nothing to do.
    Nothing,
}

/// The model of a [`TagAction`].
pub enum TagActionView {
    CheckFile { path: Seq<char> },
    ReadTags { path: Seq<char> },
    FetchCover { url: Seq<char> },
    WriteTags { path: Seq<char>, edits: TagEditsView },
    Finish(Result<(), TagErrorView>),
    Nothing,
}

impl View for TagAction {
    type V = TagActionView;

    open spec fn view(&self) -> TagActionView {
        match *self {
            TagAction::CheckFile { path } => TagActionView::CheckFile { path: path@ },
            TagAction::ReadTags { path } => TagActionView::ReadTags { path: path@ },
            TagAction::FetchCover { url } => TagActionView::FetchCover { url: url@ },
            TagAction::WriteTags { path, edits } => TagActionView::WriteTags {
                path: path@,
                edits: edits@,
            },
            TagAction::Finish(result) => TagActionView::Finish(
                match result {
                    Ok(_) => Ok(()),
                    Err(error) => Err(error@),
                },
            ),
            TagAction::Nothing => TagActionView::Nothing,
        }
    }
}

/// The job is over with this result.
pub open spec fn tagged(result: Result<(), TagErrorView>) -> (TagJobView, TagActionView) {
    (TagJobView::Finished, TagActionView::Finish(result))
}

/// The tags are to be written with the text fields of the request and this
/// cover.
pub open spec fn writing(request: TagRequest, cover: Option<CoverView>) -> (
    TagJobView,
    TagActionView,
) {
    (
        TagJobView::Writing { file_path: request.file_path@ },
        TagActionView::WriteTags {
            path: request.file_path@,
            edits: TagEditsView {
                title: optional_text(request.title),
                album: optional_text(request.album),
                artist: optional_text(request.artist),
                cover,
            },
        },
    )
}

/// How a tagging job starts: by looking for the file.
pub open spec fn tag_begin(request: TagRequest) -> (TagJobView, TagActionView) {
    (TagJobView::CheckingFile { request }, TagActionView::CheckFile { path: request.file_path@ })
}

/// The transition function of a tagging job.
///
/// - A file that is not there ends the job; one that is there has its tags
///   read.
/// - Tags that could not be read end the job. Once they are read, the cover
///   is fetched if one is wanted; otherwise the tags are written with the
///   text fields alone.
/// - A cover that fails one of the checks ends the job, and nothing is
///   written; one that passes is written with the text fields.
/// - Once the tags are written the job ends; tags that could not be written
///   end it with the failure.
/// - An event that the state does not wait for changes nothing.
pub open spec fn tag_step(state: TagJobView, event: TagEvent) -> (TagJobView, TagActionView) {
    match (state, event) {
        (TagJobView::CheckingFile { request }, TagEvent::FileChecked { exists }) => if exists {
            (
                TagJobView::ReadingTags { request },
                TagActionView::ReadTags { path: request.file_path@ },
            )
        } else {
            tagged(Err(TagErrorView::FileNotFound { path: request.file_path@ }))
        },
        (TagJobView::ReadingTags { request }, TagEvent::TagsRead(Err(reason))) => tagged(
            Err(TagErrorView::ReadFailed { path: request.file_path@, reason: reason@ }),
        ),
        (TagJobView::ReadingTags { request }, TagEvent::TagsRead(Ok(_))) => match request
            .cover_url {
            Some(url) => (
                TagJobView::FetchingCover { request },
                TagActionView::FetchCover { url: url@ },
            ),
            None => writing(request, None),
        },
        (TagJobView::FetchingCover { request }, TagEvent::CoverFetched(reply)) => match cover_check(
            reply,
        ) {
            Err(error) => tagged(Err(error)),
            Ok(cover) => writing(request, Some(cover)),
        },
        (TagJobView::Writing { .. }, TagEvent::TagsWritten(Ok(_))) => tagged(Ok(())),
        (TagJobView::Writing { file_path }, TagEvent::TagsWritten(Err(reason))) => tagged(
            Err(TagErrorView::WriteFailed { path: file_path, reason: reason@ }),
        ),
        _ => (state, TagActionView::Nothing),
    }
}

/// Asks for the tags to be written with the text fields of the request and
/// this cover.
fn write_with(request: TagRequest, cover: Option<Cover>) -> (next: (TagJob, TagAction))
    ensures
        (next.0@, next.1@) == writing(
            request,
            match cover {
                Some(cover) => Some(cover@),
                None => None,
            },
        ),
{
    let path = request.file_path.clone();
    (
        TagJob::Writing { file_path: request.file_path },
        TagAction::WriteTags {
            path,
            edits: TagEdits {
                title: request.title,
                album: request.album,
                artist: request.artist,
                cover,
            },
        },
    )
}

impl TagJob {
    /// Starts a tagging job.
    pub fn begin(request: TagRequest) -> (start: (TagJob, TagAction))
        ensures
            (start.0@, start.1@) == tag_begin(request),
    {
        let path = request.file_path.clone();
        (TagJob::CheckingFile { request }, TagAction::CheckFile { path })
    }

    /// Takes one report of the caller and says what to do next.
    pub fn advance(self, event: TagEvent) -> (next: (TagJob, TagAction))
        ensures
            (next.0@, next.1@) == tag_step(self@, event),
            self@ is Finished ==> next.0@ is Finished && next.1@ is Nothing,
    {
        match (self, event) {
            (TagJob::CheckingFile { request }, TagEvent::FileChecked { exists }) => {
                if exists {
                    let path = request.file_path.clone();
                    (TagJob::ReadingTags { request }, TagAction::ReadTags { path })
                } else {
                    (
                        TagJob::Finished,
                        TagAction::Finish(Err(TagError::FileNotFound { path: request.file_path })),
                    )
                }
            },
            (TagJob::ReadingTags { request }, TagEvent::TagsRead(Err(reason))) => (
                TagJob::Finished,
                TagAction::Finish(Err(TagError::ReadFailed { path: request.file_path, reason })),
            ),
            (TagJob::ReadingTags { request }, TagEvent::TagsRead(Ok(_))) => {
                match &request.cover_url {
                    Some(url) => {
                        let url = url.clone();
                        (TagJob::FetchingCover { request }, TagAction::FetchCover { url })
                    },
                    None => write_with(request, None),
                }
            },
            (TagJob::FetchingCover { request }, TagEvent::CoverFetched(reply)) => {
                match check_cover(reply) {
                    Err(error) => (TagJob::Finished, TagAction::Finish(Err(error))),
                    Ok(cover) => write_with(request, Some(cover)),
                }
            },
            (TagJob::Writing { .. }, TagEvent::TagsWritten(Ok(_))) => (
                TagJob::Finished,
                TagAction::Finish(Ok(())),
            ),
            (TagJob::Writing { file_path }, TagEvent::TagsWritten(Err(reason))) => (
                TagJob::Finished,
                TagAction::Finish(Err(TagError::WriteFailed { path: file_path, reason })),
            ),
            (state, _) => (state, TagAction::Nothing),
        }
    }
}

/// Tags are written only once every check has passed: whenever a step asks
/// for a write, the tags were just read and no cover is wanted, or the
/// cover was just fetched and passed the checks.
pub proof fn tags_written_only_after_checks(state: TagJobView, event: TagEvent)
    ensures
        tag_step(state, event).1 matches TagActionView::WriteTags { path, edits } ==> {
            ||| {
                &&& state matches TagJobView::ReadingTags { request }
                &&& event matches TagEvent::TagsRead(Ok(_))
                &&& request.cover_url is None
                &&& edits.cover is None
            }
            ||| {
                &&& state matches TagJobView::FetchingCover { request }
                &&& event matches TagEvent::CoverFetched(reply)
                &&& cover_check(reply) is Ok
                &&& edits.cover == Some(cover_check(reply)->Ok_0)
            }
        },
{
}

} // verus!
