use trackfetch::tagging::{
    check_cover, cover_format, Cover, CoverFormat, CoverReply, TagAction, TagEdits, TagError,
    TagEvent, TagJob, TagRequest,
};

fn cover_reply(status: u16, content_type: Option<&str>, body: Result<&[u8], &str>) -> CoverReply {
    CoverReply {
        status,
        status_line: format!("{} Status", status),
        content_type: content_type.map(|value| value.to_string()),
        body: match body {
            Ok(bytes) => Ok(bytes.to_vec()),
            Err(reason) => Err(reason.to_string()),
        },
    }
}

#[test]
fn jpeg_and_png_can_be_embedded() {
    assert_eq!(cover_format("image/jpeg"), Some(CoverFormat::Jpeg));
    assert_eq!(cover_format("image/png"), Some(CoverFormat::Png));
}

#[test]
fn other_content_types_cannot_be_embedded() {
    let others =
        ["image/gif", "image/webp", "image/jpg", "IMAGE/PNG", "image/png; charset=b", "", "png"];
    for content_type in others {
        assert_eq!(cover_format(content_type), None);
    }
}

#[test]
fn good_cover_passes_the_checks() {
    assert_eq!(
        check_cover(Ok(cover_reply(200, Some("image/jpeg"), Ok(b"\xff\xd8\xff")))),
        Ok(Cover { format: CoverFormat::Jpeg, data: b"\xff\xd8\xff".to_vec() })
    );
    assert_eq!(
        check_cover(Ok(cover_reply(203, Some("image/png"), Ok(b"")))),
        Ok(Cover { format: CoverFormat::Png, data: Vec::new() })
    );
}

#[test]
fn cover_checks_fail_in_their_order() {
    assert_eq!(
        check_cover(Err("no route".to_string())),
        Err(TagError::CoverRequestFailed { reason: "no route".to_string() })
    );
    assert_eq!(
        check_cover(Ok(cover_reply(404, None, Err("cut")))),
        Err(TagError::CoverDownloadFailed { status_line: "404 Status".to_string() })
    );
    assert_eq!(
        check_cover(Ok(cover_reply(301, Some("image/png"), Ok(b"x")))),
        Err(TagError::CoverDownloadFailed { status_line: "301 Status".to_string() })
    );
    assert_eq!(
        check_cover(Ok(cover_reply(200, None, Err("cut")))),
        Err(TagError::MissingContentType)
    );
    assert_eq!(
        check_cover(Ok(cover_reply(200, Some("image/gif"), Err("cut")))),
        Err(TagError::CoverReadFailed { reason: "cut".to_string() })
    );
    assert_eq!(
        check_cover(Ok(cover_reply(200, Some("image/gif"), Ok(b"GIF89a")))),
        Err(TagError::UnsupportedCoverFormat)
    );
}

#[test]
fn tag_error_messages() {
    assert_eq!(
        TagError::FileNotFound { path: "/m/a.mp3".to_string() }.message(),
        "File not found: /m/a.mp3"
    );
    assert_eq!(
        TagError::ReadFailed { path: "/m/a.mp3".to_string(), reason: "bad header".to_string() }
            .message(),
        "Failed to read tag from /m/a.mp3: bad header"
    );
    assert_eq!(
        TagError::CoverRequestFailed { reason: "timeout".to_string() }.message(),
        "Failed to request cover URL: timeout"
    );
    assert_eq!(
        TagError::CoverDownloadFailed { status_line: "404 Not Found".to_string() }.message(),
        "Cover download failed: HTTP 404 Not Found"
    );
    assert_eq!(TagError::MissingContentType.message(), "Failed to get Content-Type header");
    assert_eq!(
        TagError::CoverReadFailed { reason: "eof".to_string() }.message(),
        "Failed to read cover bytes: eof"
    );
    assert_eq!(TagError::UnsupportedCoverFormat.message(), "Unsupported cover image format");
    assert_eq!(
        TagError::WriteFailed { path: "/m/a.mp3".to_string(), reason: "read-only".to_string() }
            .message(),
        "Failed to write tags to /m/a.mp3: read-only"
    );
}

fn tag_request(cover_url: Option<&str>) -> TagRequest {
    TagRequest {
        file_path: "/m/a.mp3".to_string(),
        title: Some("Thunder".to_string()),
        album: None,
        artist: Some("AC/DC".to_string()),
        cover_url: cover_url.map(|url| url.to_string()),
    }
}

#[test]
fn tagging_without_cover_writes_the_text_fields() {
    let (job, action) = TagJob::begin(tag_request(None));
    assert_eq!(action, TagAction::CheckFile { path: "/m/a.mp3".to_string() });
    let (job, action) = job.advance(TagEvent::FileChecked { exists: true });
    assert_eq!(action, TagAction::ReadTags { path: "/m/a.mp3".to_string() });
    let (job, action) = job.advance(TagEvent::TagsRead(Ok(())));
    assert_eq!(
        action,
        TagAction::WriteTags {
            path: "/m/a.mp3".to_string(),
            edits: TagEdits {
                title: Some("Thunder".to_string()),
                album: None,
                artist: Some("AC/DC".to_string()),
                cover: None
            }
        }
    );
    let (job, action) = job.advance(TagEvent::TagsWritten(Ok(())));
    assert_eq!(job, TagJob::Finished);
    assert_eq!(action, TagAction::Finish(Ok(())));
}

#[test]
fn tagging_with_cover_fetches_and_embeds_it() {
    let (job, _) = TagJob::begin(tag_request(Some("https://i.example/c.png")));
    let (job, _) = job.advance(TagEvent::FileChecked { exists: true });
    let (job, action) = job.advance(TagEvent::TagsRead(Ok(())));
    assert_eq!(action, TagAction::FetchCover { url: "https://i.example/c.png".to_string() });
    let (job, action) = job
        .advance(TagEvent::CoverFetched(Ok(cover_reply(200, Some("image/png"), Ok(b"\x89PNG")))));
    assert_eq!(job, TagJob::Writing { file_path: "/m/a.mp3".to_string() });
    assert_eq!(
        action,
        TagAction::WriteTags {
            path: "/m/a.mp3".to_string(),
            edits: TagEdits {
                title: Some("Thunder".to_string()),
                album: None,
                artist: Some("AC/DC".to_string()),
                cover: Some(Cover { format: CoverFormat::Png, data: b"\x89PNG".to_vec() })
            }
        }
    );
}

#[test]
fn tagging_failures_end_the_job() {
    let (job, _) = TagJob::begin(tag_request(None));
    let (job, action) = job.advance(TagEvent::FileChecked { exists: false });
    assert_eq!(job, TagJob::Finished);
    assert_eq!(
        action,
        TagAction::Finish(Err(TagError::FileNotFound { path: "/m/a.mp3".to_string() }))
    );

    let (job, _) = TagJob::begin(tag_request(None));
    let (job, _) = job.advance(TagEvent::FileChecked { exists: true });
    let (job, action) = job.advance(TagEvent::TagsRead(Err("no tag".to_string())));
    assert_eq!(job, TagJob::Finished);
    assert_eq!(
        action,
        TagAction::Finish(Err(TagError::ReadFailed {
            path: "/m/a.mp3".to_string(),
            reason: "no tag".to_string()
        }))
    );

    let (job, _) = TagJob::begin(tag_request(Some("https://i.example/c.gif")));
    let (job, _) = job.advance(TagEvent::FileChecked { exists: true });
    let (job, _) = job.advance(TagEvent::TagsRead(Ok(())));
    let (job, action) =
        job.advance(TagEvent::CoverFetched(Ok(cover_reply(200, Some("image/gif"), Ok(b"GIF")))));
    assert_eq!(job, TagJob::Finished);
    assert_eq!(action, TagAction::Finish(Err(TagError::UnsupportedCoverFormat)));

    let (job, _) = TagJob::begin(tag_request(None));
    let (job, _) = job.advance(TagEvent::FileChecked { exists: true });
    let (job, _) = job.advance(TagEvent::TagsRead(Ok(())));
    let (job, action) = job.advance(TagEvent::TagsWritten(Err("read-only".to_string())));
    assert_eq!(job, TagJob::Finished);
    assert_eq!(
        action,
        TagAction::Finish(Err(TagError::WriteFailed {
            path: "/m/a.mp3".to_string(),
            reason: "read-only".to_string()
        }))
    );
}

#[test]
fn tagging_ignores_reports_out_of_turn() {
    let (job, _) = TagJob::begin(tag_request(None));
    let (job, action) = job.advance(TagEvent::TagsRead(Ok(())));
    assert_eq!(action, TagAction::Nothing);
    let (job, action) = job.advance(TagEvent::TagsWritten(Ok(())));
    assert_eq!(action, TagAction::Nothing);
    assert_eq!(job, TagJob::CheckingFile { request: tag_request(None) });
    let (job, action) = TagJob::Finished.advance(TagEvent::FileChecked { exists: true });
    assert_eq!(job, TagJob::Finished);
    assert_eq!(action, TagAction::Nothing);
}
