//! Stopping a recording: stop the screen capture, then the sound capture,
//! join the sound into the video, and append the result to an earlier
//! recording when one is named.
use vstd::prelude::*;
use crate::recording::audio_path_for;
use crate::text::{concat2, concat3, text_result};
use crate::recording::audio_output_path;

verus! {

/// The two capture processes.
#[derive(Clone, Copy, PartialEq, Eq, Structural, Debug)]
pub enum Track {
    Video,
    Audio,
}

/// Where stopping stands.
#[derive(Clone, Copy, PartialEq, Eq, Structural, Debug)]
pub enum StopPhase {
    StoppingVideo,
    StoppingAudio,
    MergingAudio,
    MergingVideos,
    Done,
}

/// What came of the last action.
pub enum StopEvent {
    /// No capture process of this track was running.
    NoProcess,
    /// Asking the process to quit (writing `q` to its input) failed.
    QuitFailed,
    /// The process exited, successfully or not, with this status text.
    Exited(bool, String),
    /// Waiting for the process failed with this detail.
    WaitFailed(String),
    /// A join finished with this path or error.
    Merged(Result<String, String>),
}

pub enum StopEventModel {
    NoProcess,
    QuitFailed,
    Exited(bool, Seq<char>),
    WaitFailed(Seq<char>),
    Merged(Result<Seq<char>, Seq<char>>),
}

impl View for StopEvent {
    type V = StopEventModel;

    open spec fn view(&self) -> StopEventModel {
        match self {
            StopEvent::NoProcess => StopEventModel::NoProcess,
            StopEvent::QuitFailed => StopEventModel::QuitFailed,
            StopEvent::Exited(ok, s) => StopEventModel::Exited(*ok, s@),
            StopEvent::WaitFailed(d) => StopEventModel::WaitFailed(d@),
            StopEvent::Merged(r) => StopEventModel::Merged(text_result(*r)),
        }
    }
}

/// What to do next.
pub enum StopAction {
    /// Ask this capture process to quit and wait for it.
    Stop(Track),
    /// Join the sound file (second) into the video file (first).
    MergeAudioVideo(String, String),
    /// Append the second video to the first.
    MergeVideos(String, String),
    /// Stopping is over, with this answer.
    Finish(Result<String, String>),
}

pub enum StopActionModel {
    Stop(Track),
    MergeAudioVideo(Seq<char>, Seq<char>),
    MergeVideos(Seq<char>, Seq<char>),
    Finish(Result<Seq<char>, Seq<char>>),
}

impl View for StopAction {
    type V = StopActionModel;

    open spec fn view(&self) -> StopActionModel {
        match self {
            StopAction::Stop(t) => StopActionModel::Stop(*t),
            StopAction::MergeAudioVideo(v, a) => StopActionModel::MergeAudioVideo(v@, a@),
            StopAction::MergeVideos(a, b) => StopActionModel::MergeVideos(a@, b@),
            StopAction::Finish(r) => StopActionModel::Finish(text_result(*r)),
        }
    }
}

/// `dir\name`, as the recorder writes the path of a file in its folder.
pub open spec fn in_folder(dir: Seq<char>, name: Seq<char>) -> Seq<char> {
    dir + "\\"@ + name
}

/// The path of a file in the recordings folder.
pub fn folder_path(dir: &str, name: &str) -> (r: String)
    ensures
        r@ == in_folder(dir@, name@),
{
    concat3(dir, "\\", name)
}

pub open spec fn missing_message(t: Track) -> Seq<char> {
    match t {
        Track::Video => "No video recording process found."@,
        Track::Audio => "No audio recording process found."@,
    }
}

pub open spec fn quit_failure(t: Track) -> Seq<char> {
    match t {
        Track::Video => "Failed to stop video recording"@,
        Track::Audio => "Failed to stop audio recording"@,
    }
}

pub open spec fn exit_failure_prefix(t: Track) -> Seq<char> {
    match t {
        Track::Video => "FFmpeg video process exited with error: "@,
        Track::Audio => "FFmpeg audio process exited with error: "@,
    }
}

pub open spec fn wait_failure_prefix(t: Track) -> Seq<char> {
    match t {
        Track::Video => "Error waiting for FFmpeg video process: "@,
        Track::Audio => "Error waiting for FFmpeg audio process: "@,
    }
}

/// Only a capture process is stopped, and only a join gives a path.
pub open spec fn stop_event_fits(phase: StopPhase, e: StopEventModel) -> bool {
    match phase {
        StopPhase::StoppingVideo | StopPhase::StoppingAudio => !(e is Merged),
        StopPhase::MergingAudio | StopPhase::MergingVideos => e is Merged,
        StopPhase::Done => false,
    }
}

/// Stopping a recording of the file `current` in the folder `folder`, with
/// `earlier` the name of an earlier recording to append to (empty for
/// none).
pub struct StopFlow {
    pub folder: String,
    pub current: String,
    pub earlier: String,
    /// The joined recording, once the sound has been joined in (empty when
    /// the join failed).
    pub joined: String,
    pub phase: StopPhase,
}

/// The answer to an event while `track` is being stopped, when it does not
/// stop cleanly.
pub open spec fn stop_failure(t: Track, e: StopEventModel) -> Seq<char> {
    match e {
        StopEventModel::NoProcess => missing_message(t),
        StopEventModel::QuitFailed => quit_failure(t),
        StopEventModel::Exited(_, s) => exit_failure_prefix(t) + s,
        StopEventModel::WaitFailed(d) => wait_failure_prefix(t) + d,
        _ => Seq::<char>::empty(),
    }
}

/// The next phase, joined recording and action after event `e`, for the
/// recording `current` in `folder`, with `earlier` the recording to append
/// to, in `phase` with the joined recording `joined`.
pub open spec fn stop_step(
    folder: Seq<char>,
    current: Seq<char>,
    earlier: Seq<char>,
    phase: StopPhase,
    joined: Seq<char>,
    e: StopEventModel,
) -> (StopPhase, Seq<char>, StopActionModel) {
    match phase {
        StopPhase::StoppingVideo => if e matches StopEventModel::Exited(true, _) {
            (StopPhase::StoppingAudio, joined, StopActionModel::Stop(Track::Audio))
        } else {
            (StopPhase::Done, joined, StopActionModel::Finish(Err(stop_failure(Track::Video, e))))
        },
        StopPhase::StoppingAudio => if e matches StopEventModel::Exited(true, _) {
            (
                StopPhase::MergingAudio,
                joined,
                StopActionModel::MergeAudioVideo(
                    in_folder(folder, current),
                    in_folder(folder, audio_path_for(current)),
                ),
            )
        } else {
            (StopPhase::Done, joined, StopActionModel::Finish(Err(stop_failure(Track::Audio, e))))
        },
        StopPhase::MergingAudio => {
            let joined = merged_path(e);
            if earlier.len() != 0 {
                (
                    StopPhase::MergingVideos,
                    joined,
                    StopActionModel::MergeVideos(in_folder(folder, earlier), joined),
                )
            } else {
                (StopPhase::Done, joined, StopActionModel::Finish(Ok(Seq::<char>::empty())))
            }
        },
        _ => (StopPhase::Done, joined, StopActionModel::Finish(Ok(merged_path(e)))),
    }
}

/// The path a join gave, or the empty path when it failed.
pub open spec fn merged_path(e: StopEventModel) -> Seq<char> {
    match e {
        StopEventModel::Merged(Ok(p)) => p,
        _ => Seq::<char>::empty(),
    }
}

/// `stop_step` for the flow `f`.
pub open spec fn stop_next(f: &StopFlow, e: StopEventModel) -> (StopPhase, Seq<char>, StopActionModel) {
    stop_step(f.folder@, f.current@, f.earlier@, f.phase, f.joined@, e)
}

fn stop_failure_exec(t: Track, e: StopEvent) -> (r: String)
    requires
        !(e is Merged),
    ensures
        r@ == stop_failure(t, e@),
{
    match e {
        StopEvent::NoProcess => String::from_str(
            match t {
                Track::Video => "No video recording process found.",
                Track::Audio => "No audio recording process found.",
            },
        ),
        StopEvent::QuitFailed => String::from_str(
            match t {
                Track::Video => "Failed to stop video recording",
                Track::Audio => "Failed to stop audio recording",
            },
        ),
        StopEvent::Exited(_, s) => concat2(
            match t {
                Track::Video => "FFmpeg video process exited with error: ",
                Track::Audio => "FFmpeg audio process exited with error: ",
            },
            s.as_str(),
        ),
        StopEvent::WaitFailed(d) => concat2(
            match t {
                Track::Video => "Error waiting for FFmpeg video process: ",
                Track::Audio => "Error waiting for FFmpeg audio process: ",
            },
            d.as_str(),
        ),
        StopEvent::Merged(_) => String::new(),
    }
}

impl StopFlow {
    /// Starts stopping: the screen capture is stopped first.
    pub fn start(folder: String, current: String, earlier: String) -> (res: (StopFlow, StopAction))
        ensures
            res.0.folder == folder,
            res.0.current == current,
            res.0.earlier == earlier,
            res.0.joined@ == Seq::<char>::empty(),
            res.0.phase == StopPhase::StoppingVideo,
            res.1@ == StopActionModel::Stop(Track::Video),
    {
        (
            StopFlow { folder, current, earlier, joined: String::new(), phase: StopPhase::StoppingVideo },
            StopAction::Stop(Track::Video),
        )
    }

    /// Takes in what came of the last action and says what to do next.
    pub fn step(&mut self, event: StopEvent) -> (action: StopAction)
        requires
            stop_event_fits(old(self).phase, event@),
        ensures
            final(self).folder == old(self).folder,
            final(self).current == old(self).current,
            final(self).earlier == old(self).earlier,
            (final(self).phase, final(self).joined@, action@) == stop_next(old(self), event@),
    {
        match self.phase {
            StopPhase::StoppingVideo => {
                if let StopEvent::Exited(true, _) = event {
                    self.phase = StopPhase::StoppingAudio;
                    StopAction::Stop(Track::Audio)
                } else {
                    self.phase = StopPhase::Done;
                    StopAction::Finish(Err(stop_failure_exec(Track::Video, event)))
                }
            },
            StopPhase::StoppingAudio => {
                if let StopEvent::Exited(true, _) = event {
                    self.phase = StopPhase::MergingAudio;
                    let video = folder_path(self.folder.as_str(), self.current.as_str());
                    let audio_name = audio_output_path(self.current.as_str());
                    let audio = folder_path(self.folder.as_str(), audio_name.as_str());
                    StopAction::MergeAudioVideo(video, audio)
                } else {
                    self.phase = StopPhase::Done;
                    StopAction::Finish(Err(stop_failure_exec(Track::Audio, event)))
                }
            },
            StopPhase::MergingAudio => {
                let joined = match event {
                    StopEvent::Merged(Ok(p)) => p,
                    _ => String::new(),
                };
                self.joined = joined;
                if self.earlier.unicode_len() != 0 {
                    self.phase = StopPhase::MergingVideos;
                    let first = folder_path(self.folder.as_str(), self.earlier.as_str());
                    StopAction::MergeVideos(first, self.joined.clone())
                } else {
                    self.phase = StopPhase::Done;
                    StopAction::Finish(Ok(String::new()))
                }
            },
            _ => {
                let answer = match event {
                    StopEvent::Merged(Ok(p)) => p,
                    _ => String::new(),
                };
                self.phase = StopPhase::Done;
                StopAction::Finish(Ok(answer))
            },
        }
    }
}

/// Once both captures have stopped cleanly, stopping answers `Ok`: the
/// sound is joined into the current recording's video, then that is
/// appended to the earlier recording when one is named; the answer is the
/// appended video's path, and the empty path when a join failed or no
/// earlier recording is named.
pub proof fn law_clean_stop_answers_ok(
    folder: Seq<char>,
    current: Seq<char>,
    earlier: Seq<char>,
    video_status: Seq<char>,
    audio_status: Seq<char>,
    joined: Result<Seq<char>, Seq<char>>,
    appended: Result<Seq<char>, Seq<char>>,
)
    ensures
        ({
            let s1 = stop_step(folder, current, earlier, StopPhase::StoppingVideo, Seq::<char>::empty(), StopEventModel::Exited(true, video_status));
            let s2 = stop_step(folder, current, earlier, s1.0, s1.1, StopEventModel::Exited(true, audio_status));
            let s3 = stop_step(folder, current, earlier, s2.0, s2.1, StopEventModel::Merged(joined));
            let s4 = stop_step(folder, current, earlier, s3.0, s3.1, StopEventModel::Merged(appended));
            let j = merged_path(StopEventModel::Merged(joined));
            &&& s1.2 == StopActionModel::Stop(Track::Audio)
            &&& s2.2 == StopActionModel::MergeAudioVideo(
                in_folder(folder, current),
                in_folder(folder, audio_path_for(current)),
            )
            &&& earlier.len() == 0 ==> s3.0 == StopPhase::Done && s3.2 == StopActionModel::Finish(Ok(Seq::<char>::empty()))
            &&& earlier.len() != 0 ==> {
                &&& s3.2 == StopActionModel::MergeVideos(in_folder(folder, earlier), j)
                &&& s4.0 == StopPhase::Done
                &&& s4.2 == StopActionModel::Finish(Ok(merged_path(StopEventModel::Merged(appended))))
            }
        }),
{
}

/// A capture that does not stop cleanly ends stopping with an error, and
/// nothing is joined.
pub proof fn law_unclean_stop_is_error(
    folder: Seq<char>,
    current: Seq<char>,
    earlier: Seq<char>,
    phase: StopPhase,
    joined: Seq<char>,
    e: StopEventModel,
)
    requires
        phase == StopPhase::StoppingVideo || phase == StopPhase::StoppingAudio,
        stop_event_fits(phase, e),
        !(e matches StopEventModel::Exited(true, _)),
    ensures
        stop_step(folder, current, earlier, phase, joined, e).0 == StopPhase::Done,
        stop_step(folder, current, earlier, phase, joined, e).2 is Finish,
        stop_step(folder, current, earlier, phase, joined, e).2->Finish_0 is Err,
{
}

} // verus!
