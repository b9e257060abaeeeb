//! Download orchestrator: reads the settings, plans where the track goes,
//! has it acquired and has it written.
//!
//! The orchestrator is a state machine around the acquisition. The caller
//! creates directories, performs the acquisition's requests and writes the
//! file; it reports each outcome as an event. Nothing is retried: the first
//! failure ends the download, and a directory made before it stays.

use crate::acquire::{
    acquire_begin, acquire_step, acquisition_error_text, AcquireAction, AcquireActionView,
    AcquireEvent, Acquisition, AcquisitionError, AcquisitionErrorView, MediaView,
    TrackAcquisitionRequest,
};
use crate::sanitize::{is_clean, sanitize, sanitized};
use crate::text::joined;
use vstd::prelude::*;
use vstd::string::StringExecFns;

verus! {

/// The key under which the save directory is stored.
pub const SAVE_PATH_KEY: &'static str = "savePath";

/// The key under which the per-playlist directory policy is stored.
pub const PLAYLIST_SEPARATE_DIR_KEY: &'static str = "playlistSeparateDir";

/// What the settings store holds under a key.
#[derive(Debug, PartialEq, Eq)]
pub enum ConfigValue {
    /// Nothing is stored under the key.
    Absent,
    /// A text.
    Text(String),
    /// A truth value.
    Flag(bool),
    /// A value of any other type.
    Other,
}

/// The settings that a download needs.
#[derive(Debug, Clone, Copy, PartialEq, Eq, Structural)]
pub enum ConfigField {
    SavePath,
    PlaylistSeparateDir,
}

/// The settings of a download.
#[derive(Debug, PartialEq, Eq)]
pub struct Settings {
    /// The directory under which tracks are saved.
    pub save_path: String,
    /// Whether the tracks of a playlist go into a directory of their own.
    pub playlist_separate_dir: bool,
}

/// The model of a [`Settings`].
pub struct SettingsView {
    pub save_path: Seq<char>,
    pub playlist_separate_dir: bool,
}

impl View for Settings {
    type V = SettingsView;

    open spec fn view(&self) -> SettingsView {
        SettingsView {
            save_path: self.save_path@,
            playlist_separate_dir: self.playlist_separate_dir,
        }
    }
}

/// Why a download failed.
#[derive(Debug, PartialEq, Eq)]
pub enum OrchestrationError {
    /// A setting is absent or of the wrong type.
    ConfigMissing(ConfigField),
    /// The directory could not be made, or the file could not be written.
    Io { reason: String },
    /// The acquisition failed.
    AcquisitionFailed(AcquisitionError),
}

/// The model of an [`OrchestrationError`].
pub enum OrchestrationErrorView {
    ConfigMissing(ConfigField),
    Io { reason: Seq<char> },
    AcquisitionFailed(AcquisitionErrorView),
}

impl View for OrchestrationError {
    type V = OrchestrationErrorView;

    open spec fn view(&self) -> OrchestrationErrorView {
        match *self {
            OrchestrationError::ConfigMissing(field) => OrchestrationErrorView::ConfigMissing(
                field,
            ),
            OrchestrationError::Io { reason } => OrchestrationErrorView::Io { reason: reason@ },
            OrchestrationError::AcquisitionFailed(error) =>
                OrchestrationErrorView::AcquisitionFailed(error@),
        }
    }
}

/// The key of a setting.
pub open spec fn field_key(field: ConfigField) -> Seq<char> {
    match field {
        ConfigField::SavePath => SAVE_PATH_KEY@,
        ConfigField::PlaylistSeparateDir => PLAYLIST_SEPARATE_DIR_KEY@,
    }
}

/// The text of an orchestration error, as the caller is shown it. The error
/// of the acquisition is passed on word for word.
pub open spec fn orchestration_error_text(error: OrchestrationErrorView) -> Seq<char> {
    match error {
        OrchestrationErrorView::ConfigMissing(field) => "Missing setting: "@ + field_key(field),
        OrchestrationErrorView::Io { reason } => "File system error: "@ + reason,
        OrchestrationErrorView::AcquisitionFailed(error) => acquisition_error_text(error),
    }
}

impl ConfigField {
    /// The key under which the setting is stored.
    pub fn key(&self) -> (key: &'static str)
        ensures
            key@ == field_key(*self),
    {
        match self {
            ConfigField::SavePath => SAVE_PATH_KEY,
            ConfigField::PlaylistSeparateDir => PLAYLIST_SEPARATE_DIR_KEY,
        }
    }
}

impl OrchestrationError {
    /// The message that describes this error to the caller.
    pub fn message(&self) -> (text: String)
        ensures
            text@ == orchestration_error_text(self@),
    {
        match self {
            OrchestrationError::ConfigMissing(field) => joined("Missing setting: ", field.key()),
            OrchestrationError::Io { reason } => joined("File system error: ", reason.as_str()),
            OrchestrationError::AcquisitionFailed(error) => error.message(),
        }
    }
}

/// The settings that the two stored values make: the save path must be a
/// text and the policy a truth value. The save path is looked at first.
pub open spec fn settings_of(save_path: ConfigValue, separate: ConfigValue) -> Result<
    SettingsView,
    ConfigField,
> {
    match (save_path, separate) {
        (ConfigValue::Text(path), ConfigValue::Flag(flag)) => Ok(
            SettingsView { save_path: path@, playlist_separate_dir: flag },
        ),
        (ConfigValue::Text(_), _) => Err(ConfigField::PlaylistSeparateDir),
        _ => Err(ConfigField::SavePath),
    }
}

/// The directory into which a track goes: the save path itself, or, where
/// playlists have directories of their own, the directory under it that is
/// named by the sanitised playlist name.
pub open spec fn target_directory(settings: SettingsView, playlist_name: Seq<char>) -> Seq<char> {
    if settings.playlist_separate_dir {
        settings.save_path + "/"@ + sanitized(playlist_name)
    } else {
        settings.save_path
    }
}

/// The path of the file: the file name with the extension behind a dot,
/// inside the directory.
pub open spec fn full_path_of(
    directory: Seq<char>,
    file_name: Seq<char>,
    extension: Seq<char>,
) -> Seq<char> {
    directory + "/"@ + file_name + "."@ + extension
}

/// Where a track goes.
#[derive(Debug, PartialEq, Eq)]
pub struct DestinationPlan {
    /// The directory that holds the file.
    pub directory: String,
    /// The sanitised title, without extension.
    pub file_name: String,
    /// The path of the file.
    pub full_path: String,
}

/// The model of a [`DestinationPlan`].
pub struct DestinationView {
    pub directory: Seq<char>,
    pub file_name: Seq<char>,
    pub full_path: Seq<char>,
}

impl View for DestinationPlan {
    type V = DestinationView;

    open spec fn view(&self) -> DestinationView {
        DestinationView {
            directory: self.directory@,
            file_name: self.file_name@,
            full_path: self.full_path@,
        }
    }
}

/// The destination of a track with the given title, playlist and
/// extension under the given settings.
pub open spec fn destination_of(
    settings: SettingsView,
    title: Seq<char>,
    playlist_name: Seq<char>,
    extension: Seq<char>,
) -> DestinationView {
    let directory = target_directory(settings, playlist_name);
    let file_name = sanitized(title);
    DestinationView {
        directory,
        file_name,
        full_path: full_path_of(directory, file_name, extension),
    }
}

/// What a finished download reports: where the file is, and the file name
/// that the server gave, which may be empty.
#[derive(Debug, PartialEq, Eq)]
pub struct DownloadReceipt {
    pub path: String,
    pub original_file_name: String,
}

/// The model of a [`DownloadReceipt`].
pub struct ReceiptView {
    pub path: Seq<char>,
    pub original_file_name: Seq<char>,
}

impl View for DownloadReceipt {
    type V = ReceiptView;

    open spec fn view(&self) -> ReceiptView {
        ReceiptView { path: self.path@, original_file_name: self.original_file_name@ }
    }
}

/// Reads the settings from the two stored values.
pub fn read_settings(save_path: ConfigValue, separate: ConfigValue) -> (result: Result<
    Settings,
    ConfigField,
>)
    ensures
        match result {
            Ok(settings) => settings_of(save_path, separate) == Ok::<SettingsView, ConfigField>(
                settings@,
            ),
            Err(field) => settings_of(save_path, separate) == Err::<SettingsView, ConfigField>(
                field,
            ),
        },
{
    match save_path {
        ConfigValue::Text(path) => match separate {
            ConfigValue::Flag(flag) => Ok(
                Settings { save_path: path, playlist_separate_dir: flag },
            ),
            _ => Err(ConfigField::PlaylistSeparateDir),
        },
        _ => Err(ConfigField::SavePath),
    }
}

/// Names the directory into which a track of `playlist_name` goes.
pub fn directory_for(settings: &Settings, playlist_name: &str) -> (directory: String)
    ensures
        directory@ == target_directory(settings@, playlist_name@),
        settings.playlist_separate_dir ==> directory@ == settings.save_path@ + "/"@ + sanitized(
            playlist_name@,
        ),
        !settings.playlist_separate_dir ==> directory@ == settings.save_path@,
{
    if settings.playlist_separate_dir {
        let mut directory = settings.save_path.clone();
        directory.append("/");
        directory.append(sanitize(playlist_name).as_str());
        directory
    } else {
        settings.save_path.clone()
    }
}

/// Composes the path of the file from its directory, name and extension.
pub fn compose_path(directory: &str, file_name: &str, extension: &str) -> (path: String)
    ensures
        path@ == full_path_of(directory@, file_name@, extension@),
{
    let mut path = String::from_str(directory);
    path.append("/");
    path.append(file_name);
    path.append(".");
    path.append(extension);
    path
}

impl DestinationPlan {
    /// Plans where a track goes. The file name is the sanitised title and
    /// holds no reserved character.
    pub fn new(settings: &Settings, title: &str, playlist_name: &str, extension: &str) -> (plan:
        DestinationPlan)
        ensures
            plan@ == destination_of(settings@, title@, playlist_name@, extension@),
            is_clean(plan@.file_name),
    {
        let directory = directory_for(settings, playlist_name);
        let file_name = sanitize(title);
        let full_path = compose_path(directory.as_str(), file_name.as_str(), extension);
        DestinationPlan { directory, file_name, full_path }
    }
}

/// Where a download stands.
#[derive(Debug, PartialEq, Eq)]
pub enum Download {
    /// The target directory was asked for.
    PreparingDirectory { request: TrackAcquisitionRequest, directory: String, file_name: String },
    /// The acquisition is under way.
    Acquiring { acquisition: Acquisition, directory: String, file_name: String },
    /// The file is being written; the receipt is what the download will
    /// report once it is.
    Writing { receipt: DownloadReceipt },
    /// The download has handed out what it ended in.
    Finished,
}

/// The model of a [`Download`].
pub enum DownloadView {
    PreparingDirectory {
        request: TrackAcquisitionRequest,
        directory: Seq<char>,
        file_name: Seq<char>,
    },
    Acquiring { acquisition: Acquisition, directory: Seq<char>, file_name: Seq<char> },
    Writing { receipt: ReceiptView },
    Finished,
}

impl View for Download {
    type V = DownloadView;

    open spec fn view(&self) -> DownloadView {
        match *self {
            Download::PreparingDirectory { request, directory, file_name } =>
                DownloadView::PreparingDirectory {
                request,
                directory: directory@,
                file_name: file_name@,
            },
            Download::Acquiring { acquisition, directory, file_name } => DownloadView::Acquiring {
                acquisition,
                directory: directory@,
                file_name: file_name@,
            },
            Download::Writing { receipt } => DownloadView::Writing { receipt: receipt@ },
            Download::Finished => DownloadView::Finished,
        }
    }
}

/// What the caller reports.
#[derive(Debug, PartialEq, Eq)]
pub enum DownloadEvent {
    /// The directory exists now, or could not be made.
    DirectoryReady(Result<(), String>),
    /// Something that the acquisition asked for has its outcome.
    Acquisition(AcquireEvent),
    /// The file was written, or could not be.
    Written(Result<(), String>),
}

/// What a download ends in.
pub type Downloaded = Result<DownloadReceipt, OrchestrationError>;

/// The model of a [`Downloaded`].
pub open spec fn downloaded_view(downloaded: Downloaded) -> Result<
    ReceiptView,
    OrchestrationErrorView,
> {
    match downloaded {
        Ok(receipt) => Ok(receipt@),
        Err(error) => Err(error@),
    }
}

/// What the caller is told to do.
#[derive(Debug, PartialEq, Eq)]
pub enum DownloadAction {
    /// Make sure that the directory at `path` exists, with its parents.
    EnsureDirectory { path: String },
    /// Do what the acquisition asks for: a request or a batch of requests,
    /// never a mux and never the end of the acquisition.
    Acquire(AcquireAction),
    /// Run the muxing process over `source_url`, writing `container`; a
    /// temporary file, if the mux needs one, goes into `scratch_dir`.
    Remux { source_url: String, container: String, scratch_dir: String },
    /// Write `bytes` to the file at `path`, off the asynchronous context,
    /// replacing what may be there.
    WriteFile { path: String, bytes: Vec<u8> },
    /// The download is over; this is what it ended in.
    Finish(Downloaded),
    /// Nothing to do.
    Nothing,
}

/// The model of a [`DownloadAction`].
pub enum DownloadActionView {
    EnsureDirectory { path: Seq<char> },
    Acquire(AcquireActionView),
    Remux { source_url: Seq<char>, container: Seq<char>, scratch_dir: Seq<char> },
    WriteFile { path: Seq<char>, bytes: Seq<u8> },
    Finish(Result<ReceiptView, OrchestrationErrorView>),
    Nothing,
}

impl View for DownloadAction {
    type V = DownloadActionView;

    open spec fn view(&self) -> DownloadActionView {
        match *self {
            DownloadAction::EnsureDirectory { path } => DownloadActionView::EnsureDirectory {
                path: path@,
            },
            DownloadAction::Acquire(action) => DownloadActionView::Acquire(action@),
            DownloadAction::Remux { source_url, container, scratch_dir } =>
                DownloadActionView::Remux {
                source_url: source_url@,
                container: container@,
                scratch_dir: scratch_dir@,
            },
            DownloadAction::WriteFile { path, bytes } => DownloadActionView::WriteFile {
                path: path@,
                bytes: bytes@,
            },
            DownloadAction::Finish(downloaded) => DownloadActionView::Finish(
                downloaded_view(downloaded),
            ),
            DownloadAction::Nothing => DownloadActionView::Nothing,
        }
    }
}

/// The download is over with this result.
pub open spec fn ending(result: Result<ReceiptView, OrchestrationErrorView>) -> (
    DownloadView,
    DownloadActionView,
) {
    (DownloadView::Finished, DownloadActionView::Finish(result))
}

/// How a download starts: with the settings read, the file name and the
/// directory planned, and the directory asked for. A setting that is absent
/// or of the wrong type ends the download at once.
pub open spec fn download_begin(
    request: TrackAcquisitionRequest,
    save_path: ConfigValue,
    separate: ConfigValue,
) -> (DownloadView, DownloadActionView) {
    match settings_of(save_path, separate) {
        Err(field) => ending(Err(OrchestrationErrorView::ConfigMissing(field))),
        Ok(settings) => {
            let directory = target_directory(settings, request.playlist_name@);
            (
                DownloadView::PreparingDirectory {
                    request,
                    directory,
                    file_name: sanitized(request.title@),
                },
                DownloadActionView::EnsureDirectory { path: directory },
            )
        },
    }
}

/// What a step of the acquisition means to the download.
///
/// - An acquired track is written to the planned place under the extension
///   it came with.
/// - A failed acquisition ends the download; nothing is written.
/// - A mux is passed on with the track's directory, which exists by then,
///   as the place for its temporary file.
/// - Anything else that the acquisition asks for is passed on as it is.
pub open spec fn relayed(
    step: (Acquisition, AcquireActionView),
    directory: Seq<char>,
    file_name: Seq<char>,
) -> (DownloadView, DownloadActionView) {
    match step.1 {
        AcquireActionView::Finish(Ok(media)) => {
            let path = full_path_of(directory, file_name, media.extension);
            (
                DownloadView::Writing {
                    receipt: ReceiptView { path, original_file_name: media.original_file_name },
                },
                DownloadActionView::WriteFile { path, bytes: media.bytes },
            )
        },
        AcquireActionView::Finish(Err(error)) => ending(
            Err(OrchestrationErrorView::AcquisitionFailed(error)),
        ),
        AcquireActionView::Nothing => (
            DownloadView::Acquiring { acquisition: step.0, directory, file_name },
            DownloadActionView::Nothing,
        ),
        AcquireActionView::Mux { source_url, container } => (
            DownloadView::Acquiring { acquisition: step.0, directory, file_name },
            DownloadActionView::Remux { source_url, container, scratch_dir: directory },
        ),
        _ => (
            DownloadView::Acquiring { acquisition: step.0, directory, file_name },
            DownloadActionView::Acquire(step.1),
        ),
    }
}

/// The transition function of a download.
///
/// - Once the directory exists the acquisition starts; a directory that
///   could not be made ends the download.
/// - While the acquisition runs, its events are handed to it and its steps
///   relayed.
/// - Once the file is written the download ends with its receipt; a file
///   that could not be written ends it with the failure.
/// - An event that the state does not wait for changes nothing.
pub open spec fn download_step(state: DownloadView, event: DownloadEvent) -> (
    DownloadView,
    DownloadActionView,
) {
    match (state, event) {
        (
            DownloadView::PreparingDirectory { request, directory, file_name },
            DownloadEvent::DirectoryReady(Ok(_)),
        ) => relayed(acquire_begin(request), directory, file_name),
        (DownloadView::PreparingDirectory { .. }, DownloadEvent::DirectoryReady(Err(reason))) =>
            ending(Err(OrchestrationErrorView::Io { reason: reason@ })),
        (
            DownloadView::Acquiring { acquisition, directory, file_name },
            DownloadEvent::Acquisition(event),
        ) => relayed(acquire_step(acquisition, event), directory, file_name),
        (DownloadView::Writing { receipt }, DownloadEvent::Written(Ok(_))) => ending(Ok(receipt)),
        (DownloadView::Writing { .. }, DownloadEvent::Written(Err(reason))) => ending(
            Err(OrchestrationErrorView::Io { reason: reason@ }),
        ),
        _ => (state, DownloadActionView::Nothing),
    }
}

/// Turns a step of the acquisition into a step of the download.
fn relay(step: (Acquisition, AcquireAction), directory: String, file_name: String) -> (next: (
    Download,
    DownloadAction,
))
    ensures
        (next.0@, next.1@) == relayed((step.0, step.1@), directory@, file_name@),
{
    let (acquisition, action) = step;
    match action {
        AcquireAction::Finish(Ok(media)) => {
            let path = compose_path(
                directory.as_str(),
                file_name.as_str(),
                media.extension.as_str(),
            );
            let target = path.clone();
            (
                Download::Writing {
                    receipt: DownloadReceipt {
                        path,
                        original_file_name: media.original_file_name,
                    },
                },
                DownloadAction::WriteFile { path: target, bytes: media.bytes },
            )
        },
        AcquireAction::Finish(Err(error)) => (
            Download::Finished,
            DownloadAction::Finish(Err(OrchestrationError::AcquisitionFailed(error))),
        ),
        AcquireAction::Nothing => (
            Download::Acquiring { acquisition, directory, file_name },
            DownloadAction::Nothing,
        ),
        AcquireAction::Mux { source_url, container } => {
            let scratch_dir = directory.clone();
            (
                Download::Acquiring { acquisition, directory, file_name },
                DownloadAction::Remux { source_url, container, scratch_dir },
            )
        },
        other => (
            Download::Acquiring { acquisition, directory, file_name },
            DownloadAction::Acquire(other),
        ),
    }
}

impl Download {
    /// Starts the download of `request` with the two stored settings.
    pub fn begin(
        request: TrackAcquisitionRequest,
        save_path: ConfigValue,
        separate: ConfigValue,
    ) -> (start: (Download, DownloadAction))
        ensures
            (start.0@, start.1@) == download_begin(request, save_path, separate),
    {
        match read_settings(save_path, separate) {
            Err(field) => (
                Download::Finished,
                DownloadAction::Finish(Err(OrchestrationError::ConfigMissing(field))),
            ),
            Ok(settings) => {
                let directory = directory_for(&settings, request.playlist_name.as_str());
                let file_name = sanitize(request.title.as_str());
                let path = directory.clone();
                (
                    Download::PreparingDirectory { request, directory, file_name },
                    DownloadAction::EnsureDirectory { path },
                )
            },
        }
    }

    /// Takes one report of the caller and says what to do next.
    ///
    /// A file is written only for an acquisition that succeeded, and a
    /// finished download stays finished.
    pub fn advance(self, event: DownloadEvent) -> (next: (Download, DownloadAction))
        ensures
            (next.0@, next.1@) == download_step(self@, event),
            self@ is Finished ==> next.0@ is Finished && next.1@ is Nothing,
    {
        match (self, event) {
            (
                Download::PreparingDirectory { request, directory, file_name },
                DownloadEvent::DirectoryReady(Ok(_)),
            ) => relay(Acquisition::begin(&request), directory, file_name),
            (Download::PreparingDirectory { .. }, DownloadEvent::DirectoryReady(Err(reason))) => (
                Download::Finished,
                DownloadAction::Finish(Err(OrchestrationError::Io { reason })),
            ),
            (
                Download::Acquiring { acquisition, directory, file_name },
                DownloadEvent::Acquisition(event),
            ) => relay(acquisition.advance(event), directory, file_name),
            (Download::Writing { receipt }, DownloadEvent::Written(Ok(_))) => (
                Download::Finished,
                DownloadAction::Finish(Ok(receipt)),
            ),
            (Download::Writing { .. }, DownloadEvent::Written(Err(reason))) => (
                Download::Finished,
                DownloadAction::Finish(Err(OrchestrationError::Io { reason })),
            ),
            (state, _) => (state, DownloadAction::Nothing),
        }
    }
}

/// A file is written only for an acquisition that succeeded: whenever a
/// step asks for a write, the acquisition has just ended in a track, and
/// what is written is that track, whole, at the planned place.
pub proof fn written_only_after_success(state: DownloadView, event: DownloadEvent)
    ensures
        download_step(state, event).1 matches DownloadActionView::WriteFile { path, bytes } ==> {
            &&& state matches DownloadView::Acquiring { acquisition, directory, file_name }
            &&& event matches DownloadEvent::Acquisition(report)
            &&& acquire_step(acquisition, report).1 matches AcquireActionView::Finish(Ok(media))
            &&& bytes == media.bytes
            &&& path == full_path_of(directory, file_name, media.extension)
        },
{
}

/// What is passed on from the acquisition is a request or a batch of
/// requests; a mux and the end of the acquisition are answered by the
/// download itself.
pub proof fn only_requests_are_passed_on(state: DownloadView, event: DownloadEvent)
    ensures
        download_step(state, event).1 matches DownloadActionView::Acquire(action) ==> action
            is Fetch || action is FetchText || action is FetchAll,
{
}

/// A failed acquisition ends the download with that failure, and nothing is
/// written.
pub proof fn failed_acquisition_ends_the_download(
    acquisition: Acquisition,
    directory: Seq<char>,
    file_name: Seq<char>,
    report: AcquireEvent,
)
    requires
        acquire_step(acquisition, report).1 matches AcquireActionView::Finish(Err(_)),
    ensures
        download_step(
            DownloadView::Acquiring { acquisition, directory, file_name },
            DownloadEvent::Acquisition(report),
        ) == ending(
            Err(
                OrchestrationErrorView::AcquisitionFailed(
                    acquire_step(acquisition, report).1->Finish_0->Err_0,
                ),
            ),
        ),
{
}

/// A finished download is terminal: no event makes it do anything more.
pub proof fn finished_download_is_terminal(event: DownloadEvent)
    ensures
        download_step(DownloadView::Finished, event) == (
            DownloadView::Finished,
            DownloadActionView::Nothing,
        ),
{
}

/// The actions that a run of events calls for, one for each event.
pub open spec fn download_actions(state: DownloadView, events: Seq<DownloadEvent>) -> Seq<
    DownloadActionView,
>
    decreases events.len(),
{
    if events.len() == 0 {
        Seq::empty()
    } else {
        let (next, action) = download_step(state, events[0]);
        seq![action] + download_actions(next, events.drop_first())
    }
}

/// Every event is answered by one action.
proof fn one_action_per_event(state: DownloadView, events: Seq<DownloadEvent>)
    ensures
        download_actions(state, events).len() == events.len(),
    decreases events.len(),
{
    if events.len() > 0 {
        one_action_per_event(download_step(state, events[0]).0, events.drop_first());
    }
}

/// The action is the end of a download whose acquisition failed.
pub open spec fn ends_in_failed_acquisition(action: DownloadActionView) -> bool {
    action matches DownloadActionView::Finish(Err(OrchestrationErrorView::AcquisitionFailed(_)))
}

/// Once the file is being written, or the download is over, no acquisition
/// fails and no further file is asked for.
proof fn after_the_acquisition(state: DownloadView, events: Seq<DownloadEvent>)
    requires
        state is Writing || state is Finished,
    ensures
        download_actions(state, events).len() == events.len(),
        forall|i: int|
            0 <= i < events.len() ==> !ends_in_failed_acquisition(
                #[trigger] download_actions(state, events)[i],
            ) && !(download_actions(state, events)[i] is WriteFile),
    decreases events.len(),
{
    if events.len() > 0 {
        let (next, action) = download_step(state, events[0]);
        let rest = download_actions(next, events.drop_first());
        after_the_acquisition(next, events.drop_first());
        assert forall|i: int| 0 <= i < events.len() implies !ends_in_failed_acquisition(
            #[trigger] download_actions(state, events)[i],
        ) && !(download_actions(state, events)[i] is WriteFile) by {
            if i > 0 {
                assert(download_actions(state, events)[i] == rest[i - 1]);
            }
        }
    }
}

/// A download whose acquisition fails writes nothing: in a run in which the
/// download ends in the failure of its acquisition, no step, before or
/// after, asks for a file to be written. In particular nothing of a stream
/// of which one segment failed reaches the disk.
pub proof fn failed_acquisition_writes_nothing(
    state: DownloadView,
    events: Seq<DownloadEvent>,
    failed: int,
)
    requires
        0 <= failed < events.len(),
        ends_in_failed_acquisition(download_actions(state, events)[failed]),
    ensures
        forall|i: int|
            0 <= i < events.len() ==> !(#[trigger] download_actions(state, events)[i]
                is WriteFile),
    decreases events.len(),
{
    let (next, action) = download_step(state, events[0]);
    let rest = download_actions(next, events.drop_first());
    let all = download_actions(state, events);
    assert(all == seq![action] + rest);
    one_action_per_event(next, events.drop_first());
    if failed == 0 {
        after_the_acquisition(next, events.drop_first());
    } else {
        assert(all[failed] == rest[failed - 1]);
        if action is WriteFile {
            after_the_acquisition(next, events.drop_first());
        } else {
            if next is Writing || next is Finished {
                after_the_acquisition(next, events.drop_first());
            } else {
                failed_acquisition_writes_nothing(next, events.drop_first(), failed - 1);
            }
        }
    }
    assert forall|i: int| 0 <= i < events.len() implies !(#[trigger] all[i] is WriteFile) by {
        if i > 0 {
            assert(all[i] == rest[i - 1]);
        }
    }
}

/// A download follows the destination plan: with both settings in place it
/// starts by asking for the planned directory, which is the save path itself
/// or, where playlists have directories of their own, the directory under it
/// named by the sanitised playlist name; and the path under which the track
/// is later written is the planned path for the extension it comes with.
pub proof fn download_follows_the_plan(
    request: TrackAcquisitionRequest,
    save_path: String,
    separate: bool,
    extension: Seq<char>,
)
    ensures
        ({
            let settings = SettingsView { save_path: save_path@, playlist_separate_dir: separate };
            let plan = destination_of(
                settings,
                request.title@,
                request.playlist_name@,
                extension,
            );
            let start = download_begin(
                request,
                ConfigValue::Text(save_path),
                ConfigValue::Flag(separate),
            );
            &&& start.0 == DownloadView::PreparingDirectory {
                request,
                directory: plan.directory,
                file_name: plan.file_name,
            }
            &&& start.1 == DownloadActionView::EnsureDirectory { path: plan.directory }
            &&& full_path_of(plan.directory, plan.file_name, extension) == plan.full_path
            &&& separate ==> plan.directory == save_path@ + "/"@ + sanitized(
                request.playlist_name@,
            )
            &&& !separate ==> plan.directory == save_path@
        }),
{
}

/// The planned path lies under the save path, as text: it begins with the
/// save path and a separator, and what follows is the playlist's directory,
/// where there is one, and the file, each named without a reserved
/// character.
pub proof fn destination_is_under_save_path(
    settings: SettingsView,
    title: Seq<char>,
    playlist_name: Seq<char>,
    extension: Seq<char>,
)
    ensures
        crate::text::starts_with_text(
            destination_of(settings, title, playlist_name, extension).full_path,
            settings.save_path + "/"@,
        ),
        destination_of(settings, title, playlist_name, extension).full_path == settings.save_path
            + "/"@ + (if settings.playlist_separate_dir {
            sanitized(playlist_name) + "/"@
        } else {
            Seq::empty()
        }) + sanitized(title) + "."@ + extension,
        is_clean(sanitized(title)),
        is_clean(sanitized(playlist_name)),
{
    let plan = destination_of(settings, title, playlist_name, extension);
    let root = settings.save_path + "/"@;
    let inner = if settings.playlist_separate_dir {
        sanitized(playlist_name) + "/"@
    } else {
        Seq::<char>::empty()
    };
    assert(plan.full_path =~= root + inner + sanitized(title) + "."@ + extension);
    assert(plan.full_path.subrange(0, root.len() as int) =~= root);
}

} // verus!
