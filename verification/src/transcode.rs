//! Transcode invoker: runs the external muxing process over a stream and
//! hands back what it wrote.
//!
//! The process is started, waited for and cleaned up after by the caller,
//! off the asynchronous context. This module says with which arguments it is
//! started, where its output is captured, what its exit status means, and
//! that the temporary file, where one is used, is removed whatever happens.

use crate::text::{
    decimal_text, joined, optional_text, push_decimal, push_signed_decimal, same_text,
    signed_decimal_text, texts,
};
use vstd::prelude::*;
use vstd::string::StringExecFns;

verus! {

/// Why a stream could not be remuxed.
#[derive(Debug, PartialEq, Eq)]
pub enum TranscodeError {
    /// The process could not be started.
    SpawnFailed,
    /// The process ended with a status other than zero, or without one.
    ProcessFailed { status: Option<i32> },
    /// The process succeeded, and the file it wrote could not be read.
    OutputUnreadable { reason: String },
}

/// The model of a [`TranscodeError`].
pub enum TranscodeErrorView {
    SpawnFailed,
    ProcessFailed { status: Option<i32> },
    OutputUnreadable { reason: Seq<char> },
}

impl View for TranscodeError {
    type V = TranscodeErrorView;

    open spec fn view(&self) -> TranscodeErrorView {
        match *self {
            TranscodeError::SpawnFailed => TranscodeErrorView::SpawnFailed,
            TranscodeError::ProcessFailed { status } => TranscodeErrorView::ProcessFailed {
                status,
            },
            TranscodeError::OutputUnreadable { reason } => TranscodeErrorView::OutputUnreadable {
                reason: reason@,
            },
        }
    }
}

/// The text of a transcode error, as the caller is shown it.
pub open spec fn transcode_error_text(error: TranscodeErrorView) -> Seq<char> {
    match error {
        TranscodeErrorView::SpawnFailed => "Failed to start the muxing process"@,
        TranscodeErrorView::ProcessFailed { status: Some(code) } =>
            "Muxing process exited with status "@ + signed_decimal_text(code as int),
        TranscodeErrorView::ProcessFailed { status: None } =>
            "Muxing process ended without an exit status"@,
        TranscodeErrorView::OutputUnreadable { reason } => "Failed to read the muxed output: "@
            + reason,
    }
}

impl TranscodeError {
    /// The message that describes this error to the caller.
    pub fn message(&self) -> (text: String)
        ensures
            text@ == transcode_error_text(self@),
    {
        match self {
            TranscodeError::SpawnFailed => String::from_str("Failed to start the muxing process"),
            TranscodeError::ProcessFailed { status: Some(code) } => {
                let mut text = String::from_str("Muxing process exited with status ");
                push_signed_decimal(&mut text, *code);
                text
            },
            TranscodeError::ProcessFailed { status: None } => String::from_str(
                "Muxing process ended without an exit status",
            ),
            TranscodeError::OutputUnreadable { reason } => joined(
                "Failed to read the muxed output: ",
                reason.as_str(),
            ),
        }
    }
}

/// What is to be remuxed, and where a temporary file may be put.
#[derive(Debug, PartialEq, Eq)]
pub struct MuxJob {
    /// The address of the stream that the process reads.
    pub source_url: String,
    /// The container that the process writes, such as `mp4`.
    pub container: String,
    /// The constant-rate-factor hint handed to the process.
    pub rate_factor: u8,
    /// The directory for the temporary file.
    pub scratch_dir: String,
    /// A file name that nothing else in that directory uses.
    pub scratch_name: String,
}

/// The output for the standard output stream, as the process names it.
pub const STANDARD_OUTPUT: &'static str = "pipe:1";

/// A container whose writer must seek back in its output, so that the
/// output cannot be captured from a stream: `mp4`.
pub open spec fn needs_seekable_output(container: Seq<char>) -> bool {
    container == "mp4"@
}

/// The path of the temporary file of a job: its scratch name with the
/// container as extension, inside its scratch directory.
pub open spec fn scratch_path(job: MuxJob) -> Seq<char> {
    job.scratch_dir@ + "/"@ + job.scratch_name@ + "."@ + job.container@
}

/// The temporary file that a job uses: one for a container that needs a
/// seekable output, none otherwise.
pub open spec fn scratch_of(job: MuxJob) -> Option<Seq<char>> {
    if needs_seekable_output(job.container@) {
        Some(scratch_path(job))
    } else {
        None
    }
}

/// The arguments of the muxing process: read from the stream, rewrite the
/// audio framing with `aac_adtstoasc`, copy video and all streams without
/// re-encoding, hint the rate factor, and write `container` to `output`.
pub open spec fn mux_arguments(
    source_url: Seq<char>,
    rate_factor: u8,
    container: Seq<char>,
    output: Seq<char>,
) -> Seq<Seq<char>> {
    seq![
        "-i"@,
        source_url,
        "-bsf:a"@,
        "aac_adtstoasc"@,
        "-vcodec"@,
        "copy"@,
        "-c"@,
        "copy"@,
        "-crf"@,
        decimal_text(rate_factor as nat),
        "-f"@,
        container,
        output,
    ]
}

/// Where a mux run stands.
#[derive(Debug, Clone, Copy, PartialEq, Eq, Structural)]
pub enum MuxPhase {
    /// The process was asked for and has not ended.
    Running,
    /// The process succeeded and its file is being read back.
    ReadingBack,
    /// The run has handed out its result.
    Finished,
}

/// A mux run: its phase and the temporary file it uses, if it uses one.
#[derive(Debug, PartialEq, Eq)]
pub struct Mux {
    pub phase: MuxPhase,
    pub scratch: Option<String>,
}

/// The model of a [`Mux`].
pub struct MuxView {
    pub phase: MuxPhase,
    pub scratch: Option<Seq<char>>,
}

impl View for Mux {
    type V = MuxView;

    open spec fn view(&self) -> MuxView {
        MuxView {
            phase: self.phase,
            scratch: match self.scratch {
                Some(path) => Some(path@),
                None => None,
            },
        }
    }
}

/// What the caller reports of the process.
#[derive(Debug, PartialEq, Eq)]
pub enum MuxEvent {
    /// The process could not be started.
    SpawnFailed,
    /// The process ended with this status (`None` where it had none) and
    /// wrote these bytes to its standard output.
    Exited { status: Option<i32>, captured: Vec<u8> },
    /// The temporary file was read, or could not be.
    OutputRead(Result<Vec<u8>, String>),
}

/// What the caller is told to do.
#[derive(Debug, PartialEq, Eq)]
pub enum MuxAction {
    /// Start the process with these arguments and wait for it; keep what it
    /// writes to its standard output if `capture_output` is set.
    Run { arguments: Vec<String>, capture_output: bool },
    /// Read the whole file at `path`.
    ReadOutput { path: String },
    /// Remove the file at `remove`, if one is named and whether or not it
    /// exists, then hand `result` to whoever asked for the mux.
    Finish { remove: Option<String>, result: Result<Vec<u8>, TranscodeError> },
    /// Nothing to do.
    Nothing,
}

/// The model of a [`MuxAction`].
pub enum MuxActionView {
    Run { arguments: Seq<Seq<char>>, capture_output: bool },
    ReadOutput { path: Seq<char> },
    Finish { remove: Option<Seq<char>>, result: Result<Seq<u8>, TranscodeErrorView> },
    Nothing,
}

/// The model of the result of a mux.
pub open spec fn mux_result_view(result: Result<Vec<u8>, TranscodeError>) -> Result<
    Seq<u8>,
    TranscodeErrorView,
> {
    match result {
        Ok(bytes) => Ok(bytes@),
        Err(error) => Err(error@),
    }
}

impl View for MuxAction {
    type V = MuxActionView;

    open spec fn view(&self) -> MuxActionView {
        match *self {
            MuxAction::Run { arguments, capture_output } => MuxActionView::Run {
                arguments: texts(arguments@),
                capture_output,
            },
            MuxAction::ReadOutput { path } => MuxActionView::ReadOutput { path: path@ },
            MuxAction::Finish { remove, result } => MuxActionView::Finish {
                remove: match remove {
                    Some(path) => Some(path@),
                    None => None,
                },
                result: mux_result_view(result),
            },
            MuxAction::Nothing => MuxActionView::Nothing,
        }
    }
}

/// How a mux starts: the process is run, writing to the temporary file
/// where the job uses one and to its standard output, which is then
/// captured, where it does not.
pub open spec fn mux_begin(job: MuxJob) -> (MuxView, MuxActionView) {
    let scratch = scratch_of(job);
    let output = match scratch {
        Some(path) => path,
        None => STANDARD_OUTPUT@,
    };
    (
        MuxView { phase: MuxPhase::Running, scratch },
        MuxActionView::Run {
            arguments: mux_arguments(job.source_url@, job.rate_factor, job.container@, output),
            capture_output: scratch is None,
        },
    )
}

/// The run finishes with `result`; its temporary file, if it has one, is to
/// be removed.
pub open spec fn mux_finish(state: MuxView, result: Result<Seq<u8>, TranscodeErrorView>) -> (
    MuxView,
    MuxActionView,
) {
    (
        MuxView { phase: MuxPhase::Finished, scratch: state.scratch },
        MuxActionView::Finish { remove: state.scratch, result },
    )
}

/// The transition function of a mux run.
///
/// - A process that could not be started fails the run with `SpawnFailed`.
/// - A process that ended with status zero succeeds: its captured output is
///   the result, or, where a temporary file is used, that file is read back
///   first. Any other status, or none, fails the run with `ProcessFailed`.
/// - The file read back is the result; a failure to read it fails the run.
/// - Every way of finishing names the temporary file for removal.
/// - An event that the phase does not wait for changes nothing.
pub open spec fn mux_step(state: MuxView, event: MuxEvent) -> (MuxView, MuxActionView) {
    match (state.phase, event) {
        (MuxPhase::Running, MuxEvent::SpawnFailed) => mux_finish(
            state,
            Err(TranscodeErrorView::SpawnFailed),
        ),
        (MuxPhase::Running, MuxEvent::Exited { status, captured }) => if status == Some(0i32) {
            match state.scratch {
                Some(path) => (
                    MuxView { phase: MuxPhase::ReadingBack, scratch: state.scratch },
                    MuxActionView::ReadOutput { path },
                ),
                None => mux_finish(state, Ok(captured@)),
            }
        } else {
            mux_finish(state, Err(TranscodeErrorView::ProcessFailed { status }))
        },
        (MuxPhase::ReadingBack, MuxEvent::OutputRead(Ok(bytes))) => mux_finish(state, Ok(bytes@)),
        (MuxPhase::ReadingBack, MuxEvent::OutputRead(Err(reason))) => mux_finish(
            state,
            Err(TranscodeErrorView::OutputUnreadable { reason: reason@ }),
        ),
        _ => (state, MuxActionView::Nothing),
    }
}

/// Tells whether the output for `container` must go to a file.
pub fn seekable_output_needed(container: &str) -> (needed: bool)
    ensures
        needed == needs_seekable_output(container@),
{
    same_text(container, "mp4")
}

/// Copies an optional path.
fn copy_of(path: &Option<String>) -> (copy: Option<String>)
    ensures
        optional_text(copy) == optional_text(*path),
{
    match path {
        Some(text) => Some(text.clone()),
        None => None,
    }
}

impl Mux {
    /// Starts a mux run for `job`.
    pub fn begin(job: &MuxJob) -> (start: (Mux, MuxAction))
        ensures
            (start.0@, start.1@) == mux_begin(*job),
    {
        let mut arguments: Vec<String> = Vec::new();
        arguments.push(String::from_str("-i"));
        arguments.push(job.source_url.clone());
        arguments.push(String::from_str("-bsf:a"));
        arguments.push(String::from_str("aac_adtstoasc"));
        arguments.push(String::from_str("-vcodec"));
        arguments.push(String::from_str("copy"));
        arguments.push(String::from_str("-c"));
        arguments.push(String::from_str("copy"));
        arguments.push(String::from_str("-crf"));
        let mut factor = String::new();
        push_decimal(&mut factor, job.rate_factor as u64);
        assert(factor@ =~= decimal_text(job.rate_factor as nat));
        arguments.push(factor);
        arguments.push(String::from_str("-f"));
        arguments.push(job.container.clone());
        if seekable_output_needed(job.container.as_str()) {
            let mut path = job.scratch_dir.clone();
            path.append("/");
            path.append(job.scratch_name.as_str());
            path.append(".");
            path.append(job.container.as_str());
            arguments.push(path.clone());
            assert(texts(arguments@) =~= mux_arguments(
                job.source_url@,
                job.rate_factor,
                job.container@,
                scratch_path(*job),
            ));
            (
                Mux { phase: MuxPhase::Running, scratch: Some(path) },
                MuxAction::Run { arguments, capture_output: false },
            )
        } else {
            arguments.push(String::from_str(STANDARD_OUTPUT));
            assert(texts(arguments@) =~= mux_arguments(
                job.source_url@,
                job.rate_factor,
                job.container@,
                STANDARD_OUTPUT@,
            ));
            (
                Mux { phase: MuxPhase::Running, scratch: None },
                MuxAction::Run { arguments, capture_output: true },
            )
        }
    }

    /// Takes one report of the caller and says what to do next.
    ///
    /// Whenever the answer is `Finish`, it names the temporary file of the
    /// run for removal, and the run is finished for good.
    pub fn advance(self, event: MuxEvent) -> (next: (Mux, MuxAction))
        ensures
            (next.0@, next.1@) == mux_step(self@, event),
            next.1@ matches MuxActionView::Finish { remove, .. } ==> remove == self@.scratch
                && next.0@.phase == MuxPhase::Finished,
            self@.phase == MuxPhase::Finished ==> next.0@ == self@ && next.1@
                == MuxActionView::Nothing,
    {
        match (self.phase, event) {
            (MuxPhase::Running, MuxEvent::SpawnFailed) => {
                let remove = copy_of(&self.scratch);
                (
                    Mux { phase: MuxPhase::Finished, scratch: self.scratch },
                    MuxAction::Finish { remove, result: Err(TranscodeError::SpawnFailed) },
                )
            },
            (MuxPhase::Running, MuxEvent::Exited { status, captured }) => {
                let succeeded = match status {
                    Some(code) => code == 0,
                    None => false,
                };
                if succeeded {
                    match self.scratch {
                        Some(path) => {
                            let target = path.clone();
                            (
                                Mux { phase: MuxPhase::ReadingBack, scratch: Some(path) },
                                MuxAction::ReadOutput { path: target },
                            )
                        },
                        None => (
                            Mux { phase: MuxPhase::Finished, scratch: None },
                            MuxAction::Finish { remove: None, result: Ok(captured) },
                        ),
                    }
                } else {
                    let remove = copy_of(&self.scratch);
                    (
                        Mux { phase: MuxPhase::Finished, scratch: self.scratch },
                        MuxAction::Finish {
                            remove,
                            result: Err(TranscodeError::ProcessFailed { status }),
                        },
                    )
                }
            },
            (MuxPhase::ReadingBack, MuxEvent::OutputRead(read)) => {
                let remove = copy_of(&self.scratch);
                let result = match read {
                    Ok(bytes) => Ok(bytes),
                    Err(reason) => Err(TranscodeError::OutputUnreadable { reason }),
                };
                (
                    Mux { phase: MuxPhase::Finished, scratch: self.scratch },
                    MuxAction::Finish { remove, result },
                )
            },
            (_, _) => (self, MuxAction::Nothing),
        }
    }
}

/// The actions that a run of events calls for, one for each event.
pub open spec fn mux_actions(state: MuxView, events: Seq<MuxEvent>) -> Seq<MuxActionView>
    decreases events.len(),
{
    if events.len() == 0 {
        Seq::empty()
    } else {
        let (next, action) = mux_step(state, events[0]);
        seq![action] + mux_actions(next, events.drop_first())
    }
}

/// A finished mux is terminal: whatever is reported, nothing more is asked
/// for.
pub proof fn finished_mux_is_terminal(state: MuxView, events: Seq<MuxEvent>)
    requires
        state.phase == MuxPhase::Finished,
    ensures
        forall|i: int|
            0 <= i < events.len() ==> #[trigger] mux_actions(state, events)[i]
                == MuxActionView::Nothing,
        mux_actions(state, events).len() == events.len(),
    decreases events.len(),
{
    if events.len() > 0 {
        let rest = mux_actions(state, events.drop_first());
        finished_mux_is_terminal(state, events.drop_first());
        assert forall|i: int| 0 <= i < events.len() implies #[trigger] mux_actions(
            state,
            events,
        )[i] == MuxActionView::Nothing by {
            if i > 0 {
                assert(mux_actions(state, events)[i] == rest[i - 1]);
            }
        }
    }
}

/// The temporary file never stays behind: whatever is reported and however
/// the run ends, the action that ends it names the run's temporary file for
/// removal, and no run ends twice.
pub proof fn scratch_file_is_removed(state: MuxView, events: Seq<MuxEvent>, end: int)
    requires
        0 <= end < events.len(),
        mux_actions(state, events)[end] is Finish,
    ensures
        mux_actions(state, events)[end]->remove == state.scratch,
        forall|i: int|
            0 <= i < events.len() && i != end ==> !(#[trigger] mux_actions(state, events)[i]
                is Finish),
        mux_actions(state, events).len() == events.len(),
    decreases events.len(),
{
    let (next, action) = mux_step(state, events[0]);
    let rest = mux_actions(next, events.drop_first());
    let all = mux_actions(state, events);
    assert(all == seq![action] + rest);
    if end == 0 {
        finished_mux_is_terminal(next, events.drop_first());
        assert forall|i: int| 0 <= i < events.len() && i != end implies !(#[trigger] all[i]
            is Finish) by {
            assert(all[i] == rest[i - 1]);
        }
    } else {
        mux_actions_has_one_per_event(next, events.drop_first());
        assert(all[end] == rest[end - 1]);
        if action is Finish {
            finished_mux_is_terminal(next, events.drop_first());
        }
        scratch_file_is_removed(next, events.drop_first(), end - 1);
        assert forall|i: int| 0 <= i < events.len() && i != end implies !(#[trigger] all[i]
            is Finish) by {
            if i > 0 {
                assert(all[i] == rest[i - 1]);
            }
        }
    }
}

/// Every event is answered by one action.
proof fn mux_actions_has_one_per_event(state: MuxView, events: Seq<MuxEvent>)
    ensures
        mux_actions(state, events).len() == events.len(),
    decreases events.len(),
{
    if events.len() > 0 {
        mux_actions_has_one_per_event(mux_step(state, events[0]).0, events.drop_first());
    }
}

} // verus!
