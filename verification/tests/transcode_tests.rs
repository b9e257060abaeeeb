use trackfetch::transcode::{
    seekable_output_needed, Mux, MuxAction, MuxEvent, MuxJob, MuxPhase, TranscodeError,
};

fn job(container: &str) -> MuxJob {
    MuxJob {
        source_url: "https://cdn.example/playlist.m3u8?sig=1".to_string(),
        container: container.to_string(),
        rate_factor: 50,
        scratch_dir: "/music/cache".to_string(),
        scratch_name: "mux-0001".to_string(),
    }
}

fn arguments(container: &str, output: &str) -> Vec<String> {
    [
        "-i",
        "https://cdn.example/playlist.m3u8?sig=1",
        "-bsf:a",
        "aac_adtstoasc",
        "-vcodec",
        "copy",
        "-c",
        "copy",
        "-crf",
        "50",
        "-f",
        container,
        output,
    ]
    .iter()
    .map(|argument| argument.to_string())
    .collect()
}

#[test]
fn only_mp4_needs_a_file() {
    assert!(seekable_output_needed("mp4"));
    assert!(!seekable_output_needed("adts"));
    assert!(!seekable_output_needed("MP4"));
    assert!(!seekable_output_needed(""));
}

#[test]
fn mp4_is_written_to_a_temporary_file() {
    let (mux, action) = Mux::begin(&job("mp4"));
    assert_eq!(
        mux,
        Mux { phase: MuxPhase::Running, scratch: Some("/music/cache/mux-0001.mp4".to_string()) }
    );
    assert_eq!(
        action,
        MuxAction::Run {
            arguments: arguments("mp4", "/music/cache/mux-0001.mp4"),
            capture_output: false
        }
    );
}

#[test]
fn other_containers_are_captured_from_standard_output() {
    let (mux, action) = Mux::begin(&job("adts"));
    assert_eq!(mux, Mux { phase: MuxPhase::Running, scratch: None });
    assert_eq!(
        action,
        MuxAction::Run { arguments: arguments("adts", "pipe:1"), capture_output: true }
    );
}

#[test]
fn rate_factor_is_written_in_decimal() {
    let mut with_zero = job("adts");
    with_zero.rate_factor = 0;
    let (_, action) = Mux::begin(&with_zero);
    match action {
        MuxAction::Run { arguments, .. } => assert_eq!(arguments[9], "0"),
        other => panic!("unexpected action {:?}", other),
    }
    let mut with_max = job("adts");
    with_max.rate_factor = 255;
    let (_, action) = Mux::begin(&with_max);
    match action {
        MuxAction::Run { arguments, .. } => assert_eq!(arguments[9], "255"),
        other => panic!("unexpected action {:?}", other),
    }
}

#[test]
fn captured_output_is_the_result() {
    let (mux, _) = Mux::begin(&job("adts"));
    let (mux, action) =
        mux.advance(MuxEvent::Exited { status: Some(0), captured: b"\xff\xf1".to_vec() });
    assert_eq!(mux, Mux { phase: MuxPhase::Finished, scratch: None });
    assert_eq!(action, MuxAction::Finish { remove: None, result: Ok(b"\xff\xf1".to_vec()) });
}

#[test]
fn temporary_file_is_read_back_and_removed() {
    let path = "/music/cache/mux-0001.mp4".to_string();
    let (mux, _) = Mux::begin(&job("mp4"));
    let (mux, action) = mux.advance(MuxEvent::Exited { status: Some(0), captured: Vec::new() });
    assert_eq!(mux, Mux { phase: MuxPhase::ReadingBack, scratch: Some(path.clone()) });
    assert_eq!(action, MuxAction::ReadOutput { path: path.clone() });
    let (mux, action) = mux.advance(MuxEvent::OutputRead(Ok(b"ftypisom".to_vec())));
    assert_eq!(mux.phase, MuxPhase::Finished);
    assert_eq!(action, MuxAction::Finish { remove: Some(path), result: Ok(b"ftypisom".to_vec()) });
}

#[test]
fn temporary_file_is_removed_when_the_process_fails() {
    let path = "/music/cache/mux-0001.mp4".to_string();
    let (mux, _) = Mux::begin(&job("mp4"));
    let (mux, action) = mux.advance(MuxEvent::Exited { status: Some(1), captured: Vec::new() });
    assert_eq!(mux.phase, MuxPhase::Finished);
    assert_eq!(
        action,
        MuxAction::Finish {
            remove: Some(path.clone()),
            result: Err(TranscodeError::ProcessFailed { status: Some(1) })
        }
    );

    let (mux, _) = Mux::begin(&job("mp4"));
    let (_, action) = mux.advance(MuxEvent::SpawnFailed);
    assert_eq!(
        action,
        MuxAction::Finish { remove: Some(path.clone()), result: Err(TranscodeError::SpawnFailed) }
    );

    let (mux, _) = Mux::begin(&job("mp4"));
    let (mux, _) = mux.advance(MuxEvent::Exited { status: Some(0), captured: Vec::new() });
    let (_, action) = mux.advance(MuxEvent::OutputRead(Err("gone".to_string())));
    assert_eq!(
        action,
        MuxAction::Finish {
            remove: Some(path),
            result: Err(TranscodeError::OutputUnreadable { reason: "gone".to_string() })
        }
    );
}

#[test]
fn any_status_but_zero_is_a_failure() {
    for status in [Some(1), Some(-1), Some(255), Some(i32::MIN), None] {
        let (mux, _) = Mux::begin(&job("adts"));
        let (mux, action) = mux.advance(MuxEvent::Exited { status, captured: b"partial".to_vec() });
        assert_eq!(mux.phase, MuxPhase::Finished);
        let failed = Err(TranscodeError::ProcessFailed { status });
        assert_eq!(action, MuxAction::Finish { remove: None, result: failed });
    }
}

#[test]
fn spawn_failure_without_a_file() {
    let (mux, _) = Mux::begin(&job("adts"));
    let (mux, action) = mux.advance(MuxEvent::SpawnFailed);
    assert_eq!(mux.phase, MuxPhase::Finished);
    let failed = Err(TranscodeError::SpawnFailed);
    assert_eq!(action, MuxAction::Finish { remove: None, result: failed });
}

#[test]
fn finished_mux_asks_for_nothing_more() {
    let (mux, _) = Mux::begin(&job("mp4"));
    let (mux, _) = mux.advance(MuxEvent::SpawnFailed);
    let (mux, action) = mux.advance(MuxEvent::Exited { status: Some(0), captured: Vec::new() });
    assert_eq!(action, MuxAction::Nothing);
    let (mux, action) = mux.advance(MuxEvent::OutputRead(Ok(Vec::new())));
    assert_eq!(action, MuxAction::Nothing);
    let (mux, action) = mux.advance(MuxEvent::SpawnFailed);
    assert_eq!(action, MuxAction::Nothing);
    assert_eq!(mux.phase, MuxPhase::Finished);
}

#[test]
fn reports_out_of_turn_are_ignored() {
    let (mux, _) = Mux::begin(&job("mp4"));
    let (mux, action) = mux.advance(MuxEvent::OutputRead(Ok(b"x".to_vec())));
    assert_eq!(action, MuxAction::Nothing);
    assert_eq!(mux.phase, MuxPhase::Running);
    let (mux, _) = mux.advance(MuxEvent::Exited { status: Some(0), captured: Vec::new() });
    let (mux, action) = mux.advance(MuxEvent::SpawnFailed);
    assert_eq!(action, MuxAction::Nothing);
    assert_eq!(mux.phase, MuxPhase::ReadingBack);
}

#[test]
fn transcode_error_messages() {
    assert_eq!(TranscodeError::SpawnFailed.message(), "Failed to start the muxing process");
    assert_eq!(
        TranscodeError::ProcessFailed { status: Some(1) }.message(),
        "Muxing process exited with status 1"
    );
    assert_eq!(
        TranscodeError::ProcessFailed { status: Some(-11) }.message(),
        "Muxing process exited with status -11"
    );
    assert_eq!(
        TranscodeError::ProcessFailed { status: None }.message(),
        "Muxing process ended without an exit status"
    );
    assert_eq!(
        TranscodeError::OutputUnreadable { reason: "denied".to_string() }.message(),
        "Failed to read the muxed output: denied"
    );
}
