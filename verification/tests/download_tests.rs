use trackfetch::acquire::{
    AcquireAction, AcquireEvent, Acquisition, AcquisitionError, TrackAcquisitionRequest,
    TransportKind,
};
use trackfetch::download::{
    compose_path, directory_for, read_settings, ConfigField, ConfigValue, DestinationPlan,
    Download, DownloadAction, DownloadEvent, DownloadReceipt, OrchestrationError, Settings,
    PLAYLIST_SEPARATE_DIR_KEY, SAVE_PATH_KEY,
};
use trackfetch::http::{Header, HttpReply, NetworkError, TextReply};
use trackfetch::preset::Extension;
use trackfetch::transcode::TranscodeError;

fn request(kind: TransportKind, preset: &str) -> TrackAcquisitionRequest {
    TrackAcquisitionRequest {
        source_url: "https://api.example/t/9".to_string(),
        transport_kind: kind,
        quality_preset: preset.to_string(),
        title: "AC/DC: Thunder?".to_string(),
        playlist_name: "Rock <live>".to_string(),
    }
}

fn settings(separate: bool) -> Settings {
    Settings { save_path: "/home/u/Music".to_string(), playlist_separate_dir: separate }
}

fn text(value: &str) -> ConfigValue {
    ConfigValue::Text(value.to_string())
}

fn replied(body: &[u8]) -> DownloadEvent {
    DownloadEvent::Acquisition(AcquireEvent::Replied(Ok(ok_reply(body))))
}

fn begin(kind: TransportKind, preset: &str, separate: bool) -> (Download, DownloadAction) {
    Download::begin(request(kind, preset), text("/m"), ConfigValue::Flag(separate))
}

fn ok_reply(body: &[u8]) -> HttpReply {
    HttpReply { status: 200, headers: Vec::new(), body: Ok(body.to_vec()) }
}

#[test]
fn setting_keys() {
    assert_eq!(SAVE_PATH_KEY, "savePath");
    assert_eq!(PLAYLIST_SEPARATE_DIR_KEY, "playlistSeparateDir");
    assert_eq!(ConfigField::SavePath.key(), "savePath");
    assert_eq!(ConfigField::PlaylistSeparateDir.key(), "playlistSeparateDir");
}

#[test]
fn settings_are_read_when_both_have_their_type() {
    assert_eq!(read_settings(text("/m"), ConfigValue::Flag(true)), Ok(Settings {
        save_path: "/m".to_string(),
        playlist_separate_dir: true
    }));
    assert_eq!(read_settings(text(""), ConfigValue::Flag(false)), Ok(Settings {
        save_path: String::new(),
        playlist_separate_dir: false
    }));
}

#[test]
fn missing_or_mistyped_save_path_is_reported_first() {
    let flag = || ConfigValue::Flag(true);
    assert_eq!(read_settings(ConfigValue::Absent, flag()), Err(ConfigField::SavePath));
    assert_eq!(read_settings(ConfigValue::Other, flag()), Err(ConfigField::SavePath));
    assert_eq!(read_settings(flag(), flag()), Err(ConfigField::SavePath));
    assert_eq!(read_settings(ConfigValue::Absent, ConfigValue::Absent), Err(ConfigField::SavePath));
}

#[test]
fn missing_or_mistyped_policy_is_reported() {
    let missing = Err(ConfigField::PlaylistSeparateDir);
    assert_eq!(read_settings(text("/m"), ConfigValue::Absent), missing);
    assert_eq!(read_settings(text("/m"), ConfigValue::Other), missing);
    assert_eq!(read_settings(text("/m"), text("true")), missing);
}

#[test]
fn separate_directory_is_named_by_the_sanitised_playlist() {
    assert_eq!(directory_for(&settings(true), "Rock <live>"), "/home/u/Music/Rock _live_");
    assert_eq!(directory_for(&settings(true), "a/b\\c"), "/home/u/Music/a_b_c");
    assert_eq!(directory_for(&settings(true), ""), "/home/u/Music/");
}

#[test]
fn without_separate_directories_tracks_go_into_the_save_path() {
    assert_eq!(directory_for(&settings(false), "Rock <live>"), "/home/u/Music");
    assert_eq!(directory_for(&settings(false), ""), "/home/u/Music");
}

#[test]
fn path_is_directory_name_dot_extension() {
    assert_eq!(compose_path("/m", "Song", "mp3"), "/m/Song.mp3");
    assert_eq!(compose_path("", "", ""), "/.");
}

#[test]
fn destination_plan_holds_directory_name_and_path() {
    let plan = DestinationPlan::new(&settings(true), "AC/DC: Thunder?", "Rock <live>", "opus");
    assert_eq!(plan, DestinationPlan {
        directory: "/home/u/Music/Rock _live_".to_string(),
        file_name: "AC_DC_ Thunder_".to_string(),
        full_path: "/home/u/Music/Rock _live_/AC_DC_ Thunder_.opus".to_string(),
    });
    let flat = DestinationPlan::new(&settings(false), "AC/DC: Thunder?", "Rock <live>", "m4a");
    assert_eq!(flat, DestinationPlan {
        directory: "/home/u/Music".to_string(),
        file_name: "AC_DC_ Thunder_".to_string(),
        full_path: "/home/u/Music/AC_DC_ Thunder_.m4a".to_string(),
    });
}

#[test]
fn download_writes_into_the_playlist_directory_when_asked_to() {
    let (download, action) = Download::begin(
        request(TransportKind::Progressive, "mp3_128"),
        text("/home/u/Music"),
        ConfigValue::Flag(true),
    );
    assert_eq!(
        action,
        DownloadAction::EnsureDirectory { path: "/home/u/Music/Rock _live_".to_string() }
    );
    let (download, action) = download.advance(DownloadEvent::DirectoryReady(Ok(())));
    assert_eq!(
        action,
        DownloadAction::Acquire(AcquireAction::Fetch { url: "https://api.example/t/9".to_string() })
    );
    let (download, action) = download.advance(replied(b"ID3data"));
    assert_eq!(
        action,
        DownloadAction::WriteFile {
            path: "/home/u/Music/Rock _live_/AC_DC_ Thunder_.mp3".to_string(),
            bytes: b"ID3data".to_vec()
        }
    );
    let (download, action) = download.advance(DownloadEvent::Written(Ok(())));
    assert_eq!(download, Download::Finished);
    assert_eq!(
        action,
        DownloadAction::Finish(Ok(DownloadReceipt {
            path: "/home/u/Music/Rock _live_/AC_DC_ Thunder_.mp3".to_string(),
            original_file_name: String::new()
        }))
    );
}

#[test]
fn download_writes_into_the_save_path_otherwise() {
    let (download, action) = Download::begin(
        request(TransportKind::Progressive, "aac_1"),
        text("/home/u/Music"),
        ConfigValue::Flag(false),
    );
    assert_eq!(action, DownloadAction::EnsureDirectory { path: "/home/u/Music".to_string() });
    let (download, _) = download.advance(DownloadEvent::DirectoryReady(Ok(())));
    let (_, action) =
        download.advance(DownloadEvent::Acquisition(AcquireEvent::Replied(Ok(ok_reply(b"x")))));
    assert_eq!(
        action,
        DownloadAction::WriteFile {
            path: "/home/u/Music/AC_DC_ Thunder_.m4a".to_string(),
            bytes: b"x".to_vec()
        }
    );
}

#[test]
fn direct_download_reports_the_original_file_name() {
    let (download, _) = Download::begin(
        request(TransportKind::Direct, ""),
        text("/m"),
        ConfigValue::Flag(false),
    );
    let (download, _) = download.advance(DownloadEvent::DirectoryReady(Ok(())));
    let reply = HttpReply {
        status: 200,
        headers: vec![
            Header { name: "x-amz-meta-file-type".to_string(), value: "flac".to_string() },
            Header {
                name: "content-disposition".to_string(),
                value: "attachment; filename*=utf-8''Thunder.flac".to_string(),
            },
        ],
        body: Ok(b"fLaC".to_vec()),
    };
    let (download, action) =
        download.advance(DownloadEvent::Acquisition(AcquireEvent::Replied(Ok(reply))));
    assert_eq!(
        action,
        DownloadAction::WriteFile {
            path: "/m/AC_DC_ Thunder_.flac".to_string(),
            bytes: b"fLaC".to_vec()
        }
    );
    let (_, action) = download.advance(DownloadEvent::Written(Ok(())));
    assert_eq!(
        action,
        DownloadAction::Finish(Ok(DownloadReceipt {
            path: "/m/AC_DC_ Thunder_.flac".to_string(),
            original_file_name: "Thunder.flac".to_string()
        }))
    );
}

#[test]
fn missing_setting_ends_the_download_before_anything_is_done() {
    let (download, action) = Download::begin(
        request(TransportKind::Direct, ""),
        ConfigValue::Absent,
        ConfigValue::Flag(true),
    );
    assert_eq!(download, Download::Finished);
    assert_eq!(
        action,
        DownloadAction::Finish(Err(OrchestrationError::ConfigMissing(ConfigField::SavePath)))
    );
    let (download, action) = Download::begin(
        request(TransportKind::Direct, ""),
        text("/m"),
        ConfigValue::Other,
    );
    assert_eq!(download, Download::Finished);
    assert_eq!(
        action,
        DownloadAction::Finish(Err(OrchestrationError::ConfigMissing(
            ConfigField::PlaylistSeparateDir
        )))
    );
}

#[test]
fn directory_failure_ends_the_download() {
    let (download, _) =
        Download::begin(request(TransportKind::Direct, ""), text("/m"), ConfigValue::Flag(true));
    let (download, action) =
        download.advance(DownloadEvent::DirectoryReady(Err("permission denied".to_string())));
    assert_eq!(download, Download::Finished);
    assert_eq!(
        action,
        DownloadAction::Finish(Err(OrchestrationError::Io {
            reason: "permission denied".to_string()
        }))
    );
}

#[test]
fn unsupported_preset_is_found_after_the_directory_was_made() {
    let (download, action) =
        Download::begin(request(TransportKind::Hls, "flac"), text("/m"), ConfigValue::Flag(false));
    assert_eq!(action, DownloadAction::EnsureDirectory { path: "/m".to_string() });
    let (download, action) = download.advance(DownloadEvent::DirectoryReady(Ok(())));
    assert_eq!(download, Download::Finished);
    assert_eq!(
        action,
        DownloadAction::Finish(Err(OrchestrationError::AcquisitionFailed(
            AcquisitionError::UnsupportedPreset
        )))
    );
}

#[test]
fn failed_segment_ends_the_download_and_nothing_is_written() {
    let (download, _) = begin(TransportKind::Hls, "mp3_1_0", false);
    let (download, action) = download.advance(DownloadEvent::DirectoryReady(Ok(())));
    assert_eq!(
        action,
        DownloadAction::Acquire(AcquireAction::FetchText {
            url: "https://api.example/t/9".to_string()
        })
    );
    let manifest = TextReply { status: 200, body: Ok("https://c/1\nhttps://c/2\n".to_string()) };
    let (download, action) =
        download.advance(DownloadEvent::Acquisition(AcquireEvent::ManifestReplied(Ok(manifest))));
    assert_eq!(
        action,
        DownloadAction::Acquire(AcquireAction::FetchAll {
            urls: vec!["https://c/1".to_string(), "https://c/2".to_string()]
        })
    );
    assert_eq!(download, Download::Acquiring {
        acquisition: Acquisition::AwaitingSegments { extension: Extension::Mp3, expected: 2 },
        directory: "/m".to_string(),
        file_name: "AC_DC_ Thunder_".to_string(),
    });
    let outcomes = vec![Ok(ok_reply(b"AA")), Err("reset".to_string())];
    let (download, action) =
        download.advance(DownloadEvent::Acquisition(AcquireEvent::SegmentsReplied(outcomes)));
    assert_eq!(download, Download::Finished);
    assert_eq!(
        action,
        DownloadAction::Finish(Err(OrchestrationError::AcquisitionFailed(
            AcquisitionError::Network(NetworkError::Connect { reason: "reset".to_string() })
        )))
    );
    let (download, action) = download.advance(DownloadEvent::Written(Ok(())));
    assert_eq!(download, Download::Finished);
    assert_eq!(action, DownloadAction::Nothing);
}

#[test]
fn remuxed_download_is_written_as_m4a() {
    let (download, _) = begin(TransportKind::Hls, "aac_160k", false);
    let (download, action) = download.advance(DownloadEvent::DirectoryReady(Ok(())));
    assert_eq!(
        action,
        DownloadAction::Remux {
            source_url: "https://api.example/t/9".to_string(),
            container: "mp4".to_string(),
            scratch_dir: "/m".to_string()
        }
    );
    let failed = AcquireEvent::Muxed(Err(TranscodeError::SpawnFailed));
    let (download, action) = download.advance(DownloadEvent::Acquisition(failed));
    assert_eq!(download, Download::Finished);
    assert_eq!(
        action,
        DownloadAction::Finish(Err(OrchestrationError::AcquisitionFailed(
            AcquisitionError::Transcode(TranscodeError::SpawnFailed)
        )))
    );
}

#[test]
fn remuxed_track_is_written_under_the_playlist_directory() {
    let (download, _) = begin(TransportKind::Hls, "aac_160k", true);
    let (download, action) = download.advance(DownloadEvent::DirectoryReady(Ok(())));
    assert_eq!(
        action,
        DownloadAction::Remux {
            source_url: "https://api.example/t/9".to_string(),
            container: "mp4".to_string(),
            scratch_dir: "/m/Rock _live_".to_string()
        }
    );
    let (_, action) =
        download.advance(DownloadEvent::Acquisition(AcquireEvent::Muxed(Ok(b"ftyp".to_vec()))));
    assert_eq!(
        action,
        DownloadAction::WriteFile {
            path: "/m/Rock _live_/AC_DC_ Thunder_.m4a".to_string(),
            bytes: b"ftyp".to_vec()
        }
    );
}

#[test]
fn write_failure_ends_the_download() {
    let (download, _) = Download::begin(
        request(TransportKind::Progressive, "mp3"),
        text("/m"),
        ConfigValue::Flag(false),
    );
    let (download, _) = download.advance(DownloadEvent::DirectoryReady(Ok(())));
    let (download, _) =
        download.advance(DownloadEvent::Acquisition(AcquireEvent::Replied(Ok(ok_reply(b"x")))));
    let (download, action) = download.advance(DownloadEvent::Written(Err("disk full".to_string())));
    assert_eq!(download, Download::Finished);
    assert_eq!(
        action,
        DownloadAction::Finish(Err(OrchestrationError::Io { reason: "disk full".to_string() }))
    );
}

#[test]
fn download_ignores_reports_out_of_turn() {
    let (download, _) = Download::begin(
        request(TransportKind::Progressive, "mp3"),
        text("/m"),
        ConfigValue::Flag(false),
    );
    let (download, action) = download.advance(DownloadEvent::Written(Ok(())));
    assert_eq!(action, DownloadAction::Nothing);
    let (download, action) =
        download.advance(DownloadEvent::Acquisition(AcquireEvent::Replied(Ok(ok_reply(b"x")))));
    assert_eq!(action, DownloadAction::Nothing);
    let (download, _) = download.advance(DownloadEvent::DirectoryReady(Ok(())));
    let (download, action) = download.advance(DownloadEvent::DirectoryReady(Ok(())));
    assert_eq!(action, DownloadAction::Nothing);
    let (download, action) =
        download.advance(DownloadEvent::Acquisition(AcquireEvent::Muxed(Ok(Vec::new()))));
    assert_eq!(action, DownloadAction::Nothing);
    assert_eq!(download, Download::Acquiring {
        acquisition: Acquisition::AwaitingFile { known: Some(Extension::Mp3) },
        directory: "/m".to_string(),
        file_name: "AC_DC_ Thunder_".to_string(),
    });
}

#[test]
fn orchestration_error_messages() {
    assert_eq!(
        OrchestrationError::ConfigMissing(ConfigField::SavePath).message(),
        "Missing setting: savePath"
    );
    assert_eq!(
        OrchestrationError::ConfigMissing(ConfigField::PlaylistSeparateDir).message(),
        "Missing setting: playlistSeparateDir"
    );
    assert_eq!(
        OrchestrationError::Io { reason: "disk full".to_string() }.message(),
        "File system error: disk full"
    );
    assert_eq!(
        OrchestrationError::AcquisitionFailed(AcquisitionError::UnsupportedPreset).message(),
        "Unsupported preset"
    );
    assert_eq!(
        OrchestrationError::AcquisitionFailed(AcquisitionError::Network(NetworkError::Status {
            status: 429
        }))
        .message(),
        "Request failed: HTTP 429"
    );
}
