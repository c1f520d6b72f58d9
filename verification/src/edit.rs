//! Editing and compressing a recording: the ffmpeg command lines for the
//! trim, edit and compress passes, the choice of video filter, and the
//! order in which the passes run with the answer that each outcome gets.
use vstd::prelude::*;
use crate::text::{concat2, concat3, push_text, replace, replace_all, same_text, views};

verus! {

/// What the user asked for, field by field as the front end sends it.
pub struct EditRequest {
    pub file_location: String,
    pub mute: String,
    pub speed: String,
    pub trim_start_hr: String,
    pub trim_start_min: String,
    pub trim_start_sec: String,
    pub trim_end_hr: String,
    pub trim_end_min: String,
    pub trim_end_sec: String,
    pub crop_x: String,
    pub crop_y: String,
    pub crop_width: String,
    pub crop_height: String,
    pub duration_hr: String,
    pub duration_min: String,
    pub duration_sec: String,
    pub screen_width: String,
    pub screen_height: String,
}

/// Where the intermediate and final files of an edit go.
pub struct EditOutputs {
    pub temp: String,
    pub edited: String,
    pub compressed: String,
}

/// `h:m:s`.
pub open spec fn clock_text(h: Seq<char>, m: Seq<char>, s: Seq<char>) -> Seq<char> {
    h + ":"@ + m + ":"@ + s
}

pub open spec fn start_time(r: &EditRequest) -> Seq<char> {
    clock_text(r.trim_start_hr@, r.trim_start_min@, r.trim_start_sec@)
}

pub open spec fn end_time(r: &EditRequest) -> Seq<char> {
    clock_text(r.trim_end_hr@, r.trim_end_min@, r.trim_end_sec@)
}

pub open spec fn total_time(r: &EditRequest) -> Seq<char> {
    clock_text(r.duration_hr@, r.duration_min@, r.duration_sec@)
}

/// A trim pass is needed unless the cut starts at `0:0:0` and ends at the
/// full duration.
pub open spec fn needs_trim(r: &EditRequest) -> bool {
    start_time(r) != "0:0:0"@ || end_time(r) != total_time(r)
}

pub open spec fn crop_text(r: &EditRequest) -> Seq<char> {
    "crop="@ + r.crop_width@ + ":"@ + r.crop_height@ + ":"@ + r.crop_x@ + ":"@ + r.crop_y@
}

pub open spec fn setpts_text(speed: Seq<char>) -> Seq<char> {
    "setpts="@ + speed + "*PTS"@
}

pub open spec fn full_filter(r: &EditRequest) -> Seq<char> {
    crop_text(r) + ","@ + setpts_text(r.speed@)
}

/// The filter text that stands for "no crop and normal speed".
pub open spec fn identity_filter(r: &EditRequest) -> Seq<char> {
    "crop=0:0:"@ + r.screen_width@ + ":"@ + r.screen_height@ + ",setpts=1*PTS"@
}

/// The video filter of the edit pass: none, the crop alone, the speed alone,
/// or both.
pub open spec fn video_filter(r: &EditRequest) -> Seq<char> {
    if full_filter(r) == identity_filter(r) {
        Seq::<char>::empty()
    } else if r.speed@ == "1"@ {
        crop_text(r)
    } else if r.screen_width@ == r.crop_width@ && r.screen_height@ == r.crop_height@ && "0"@
        == r.crop_x@ && "0"@ == r.crop_y@ {
        setpts_text(r.speed@)
    } else {
        full_filter(r)
    }
}

/// The audio arguments that keep the sound in step with the new speed, or
/// `None` for a speed that is not offered.
pub open spec fn tempo_args(speed: Seq<char>) -> Option<Seq<Seq<char>>> {
    if speed == "2"@ {
        Some(seq!["-filter:a"@, "atempo=0.5"@])
    } else if speed == "1"@ {
        Some(Seq::<Seq<char>>::empty())
    } else if speed == "0.5"@ {
        Some(seq!["-filter:a"@, "atempo=2.0"@])
    } else if speed == "0.25"@ {
        Some(seq!["-filter:a"@, "atempo=2.0,atempo=2.0"@])
    } else if speed == "0.1"@ {
        Some(seq!["-filter:a"@, "atempo=2.0,atempo=2.0,atempo=2.5"@])
    } else {
        None
    }
}

pub open spec fn progress_prefix(input: Seq<char>) -> Seq<Seq<char>> {
    seq!["-y"@, "-progress"@, "pipe:1"@, "-i"@, input]
}

pub open spec fn trim_args(input: Seq<char>, start: Seq<char>, end: Seq<char>, output: Seq<char>) -> Seq<Seq<char>> {
    progress_prefix(input) + seq!["-ss"@, start, "-to"@, end, "-v"@, "error"@, output]
}

/// The arguments of the edit pass, or `None` when the speed is not offered.
pub open spec fn edit_args(
    input: Seq<char>,
    filter: Seq<char>,
    speed: Seq<char>,
    mute: Seq<char>,
    output: Seq<char>,
) -> Option<Seq<Seq<char>>> {
    match tempo_args(speed) {
        None => None,
        Some(tempo) => {
            let video = if filter.len() == 0 {
                Seq::<Seq<char>>::empty()
            } else {
                seq!["-filter:v"@, filter]
            };
            let audio = if mute == "-an"@ {
                seq!["-an"@]
            } else {
                seq!["-c:a"@, "aac"@]
            };
            Some(progress_prefix(input) + video + tempo + audio + seq![output])
        },
    }
}

pub open spec fn compress_args(input: Seq<char>, output: Seq<char>) -> Seq<Seq<char>> {
    progress_prefix(input) + seq!["-vcodec"@, "libx264"@, "-crf"@, "28"@, output]
}

/// The answer of a finished edit: the edited and the compressed file, with a
/// `|` between them.
pub open spec fn finished_answer(out: &EditOutputs) -> Seq<char> {
    out.edited@ + "|"@ + out.compressed@
}

/// The names of the temporary, edited and compressed files, made from the
/// name of the recording.
pub open spec fn output_names(file_name: Seq<char>) -> (Seq<char>, Seq<char>, Seq<char>) {
    (
        replace_all(file_name, "Recording"@, "Temp"@),
        replace_all(file_name, "Recording"@, "Edited"@),
        replace_all(file_name, "Recording"@, "Compressed"@),
    )
}

/// The temporary, edited and compressed file names for a recording: each is
/// the recording's name with every `Recording` replaced.
pub fn output_file_names(file_name: &str) -> (r: (String, String, String))
    ensures
        (r.0@, r.1@, r.2@) == output_names(file_name@),
{
    proof {
        reveal_strlit("Recording");
    }
    let temp = replace(file_name, "Recording", "Temp");
    let edited = replace(file_name, "Recording", "Edited");
    let compressed = replace(file_name, "Recording", "Compressed");
    (temp, edited, compressed)
}

/// `h:m:s`, as the trim points and the duration are written.
pub fn clock(h: &str, m: &str, s: &str) -> (r: String)
    ensures
        r@ == clock_text(h@, m@, s@),
{
    let mut r = String::from_str(h);
    r.append(":");
    r.append(m);
    r.append(":");
    r.append(s);
    r
}

/// Whether the request cuts the video, so that a trim pass runs first.
pub fn trim_needed(r: &EditRequest) -> (b: bool)
    ensures
        b == needs_trim(r),
{
    let start = clock(r.trim_start_hr.as_str(), r.trim_start_min.as_str(), r.trim_start_sec.as_str());
    let end = clock(r.trim_end_hr.as_str(), r.trim_end_min.as_str(), r.trim_end_sec.as_str());
    let total = clock(r.duration_hr.as_str(), r.duration_min.as_str(), r.duration_sec.as_str());
    !same_text(start.as_str(), "0:0:0") || !same_text(end.as_str(), total.as_str())
}

/// The video filter that the edit pass applies (empty for none).
pub fn choose_video_filter(r: &EditRequest) -> (f: String)
    ensures
        f@ == video_filter(r),
{
    let mut crop = String::from_str("crop=");
    crop.append(r.crop_width.as_str());
    crop.append(":");
    crop.append(r.crop_height.as_str());
    crop.append(":");
    crop.append(r.crop_x.as_str());
    crop.append(":");
    crop.append(r.crop_y.as_str());
    let setpts = concat3("setpts=", r.speed.as_str(), "*PTS");
    let full = concat3(crop.as_str(), ",", setpts.as_str());
    let mut identity = String::from_str("crop=0:0:");
    identity.append(r.screen_width.as_str());
    identity.append(":");
    identity.append(r.screen_height.as_str());
    identity.append(",setpts=1*PTS");
    if same_text(full.as_str(), identity.as_str()) {
        String::new()
    } else if same_text(r.speed.as_str(), "1") {
        crop
    } else if same_text(r.screen_width.as_str(), r.crop_width.as_str()) && same_text(
        r.screen_height.as_str(),
        r.crop_height.as_str(),
    ) && same_text("0", r.crop_x.as_str()) && same_text("0", r.crop_y.as_str()) {
        setpts
    } else {
        full
    }
}

fn push_progress_prefix(v: &mut Vec<String>, input: &str)
    ensures
        views(final(v)@) == views(old(v)@) + progress_prefix(input@),
{
    push_text(v, "-y");
    push_text(v, "-progress");
    push_text(v, "pipe:1");
    push_text(v, "-i");
    push_text(v, input);
    assert(views(v@) =~= views(old(v)@) + progress_prefix(input@));
}

/// The arguments of the trim pass.
pub fn build_trim_args(input: &str, start: &str, end: &str, output: &str) -> (r: Vec<String>)
    ensures
        views(r@) == trim_args(input@, start@, end@, output@),
{
    let mut v: Vec<String> = Vec::new();
    push_progress_prefix(&mut v, input);
    push_text(&mut v, "-ss");
    push_text(&mut v, start);
    push_text(&mut v, "-to");
    push_text(&mut v, end);
    push_text(&mut v, "-v");
    push_text(&mut v, "error");
    push_text(&mut v, output);
    assert(views(v@) =~= trim_args(input@, start@, end@, output@));
    v
}

/// The arguments of the edit pass; `None` when `speed` is not one of the
/// offered speeds.
pub fn build_edit_args(input: &str, filter: &str, speed: &str, mute: &str, output: &str) -> (r:
    Option<Vec<String>>)
    ensures
        match r {
            Some(v) => edit_args(input@, filter@, speed@, mute@, output@) == Some(views(v@)),
            None => edit_args(input@, filter@, speed@, mute@, output@) is None,
        },
{
    let mut v: Vec<String> = Vec::new();
    push_progress_prefix(&mut v, input);
    let ghost base = views(v@);
    let empty_filter = filter.unicode_len() == 0;
    if !empty_filter {
        push_text(&mut v, "-filter:v");
        push_text(&mut v, filter);
    }
    let ghost video = if filter@.len() == 0 {
        Seq::<Seq<char>>::empty()
    } else {
        seq!["-filter:v"@, filter@]
    };
    assert(views(v@) =~= base + video);
    let ghost before_tempo = views(v@);
    if same_text(speed, "2") {
        push_text(&mut v, "-filter:a");
        push_text(&mut v, "atempo=0.5");
    } else if same_text(speed, "1") {
    } else if same_text(speed, "0.5") {
        push_text(&mut v, "-filter:a");
        push_text(&mut v, "atempo=2.0");
    } else if same_text(speed, "0.25") {
        push_text(&mut v, "-filter:a");
        push_text(&mut v, "atempo=2.0,atempo=2.0");
    } else if same_text(speed, "0.1") {
        push_text(&mut v, "-filter:a");
        push_text(&mut v, "atempo=2.0,atempo=2.0,atempo=2.5");
    } else {
        return None;
    }
    let ghost tempo = tempo_args(speed@).unwrap();
    assert(views(v@) =~= before_tempo + tempo);
    let ghost before_audio = views(v@);
    if same_text(mute, "-an") {
        push_text(&mut v, "-an");
    } else {
        push_text(&mut v, "-c:a");
        push_text(&mut v, "aac");
    }
    push_text(&mut v, output);
    let ghost audio = if mute@ == "-an"@ {
        seq!["-an"@]
    } else {
        seq!["-c:a"@, "aac"@]
    };
    assert(views(v@) =~= before_audio + audio + seq![output@]);
    assert(views(v@) =~= progress_prefix(input@) + video + tempo + audio + seq![output@]);
    Some(v)
}

/// The arguments of the compress pass.
pub fn build_compress_args(input: &str, output: &str) -> (r: Vec<String>)
    ensures
        views(r@) == compress_args(input@, output@),
{
    let mut v: Vec<String> = Vec::new();
    push_progress_prefix(&mut v, input);
    push_text(&mut v, "-vcodec");
    push_text(&mut v, "libx264");
    push_text(&mut v, "-crf");
    push_text(&mut v, "28");
    push_text(&mut v, output);
    assert(views(v@) =~= compress_args(input@, output@));
    v
}

/// The three ffmpeg passes.
#[derive(Clone, Copy, PartialEq, Eq, Structural, Debug)]
pub enum Stage {
    Trim,
    Edit,
    Compress,
}

/// The length that a pass's progress is measured against: the whole
/// recording, or the part kept by the trim.
#[derive(Clone, Copy, PartialEq, Eq, Structural, Debug)]
pub enum ProgressBase {
    Full,
    Trimmed,
}

/// Where an edit stands.
#[derive(Clone, Copy, PartialEq, Eq, Structural, Debug)]
pub enum EditPhase {
    Trimming,
    Editing,
    RemovingTemp,
    Compressing,
    Done,
}

/// What came of the last action.
pub enum EditEvent {
    /// The pass exited successfully, or the file was removed.
    Succeeded,
    /// The pass's process could not be started.
    SpawnFailed,
    /// The pass exited with a failing status.
    ExitedWithFailure,
    /// Waiting for the pass, or removing the file, failed with this message.
    Failed(String),
}

/// What to do next.
pub enum EditAction {
    /// Run ffmpeg with these arguments for this pass.
    Run(Stage, Vec<String>, ProgressBase),
    /// Remove this file.
    RemoveFile(String),
    /// The edit is over, with this answer.
    Finish(Result<String, String>),
}

pub enum EditEventModel {
    Succeeded,
    SpawnFailed,
    ExitedWithFailure,
    Failed(Seq<char>),
}

pub enum EditActionModel {
    Run(Stage, Seq<Seq<char>>, ProgressBase),
    RemoveFile(Seq<char>),
    Finish(Result<Seq<char>, Seq<char>>),
}

impl View for EditEvent {
    type V = EditEventModel;

    open spec fn view(&self) -> EditEventModel {
        match self {
            EditEvent::Succeeded => EditEventModel::Succeeded,
            EditEvent::SpawnFailed => EditEventModel::SpawnFailed,
            EditEvent::ExitedWithFailure => EditEventModel::ExitedWithFailure,
            EditEvent::Failed(m) => EditEventModel::Failed(m@),
        }
    }
}

impl View for EditAction {
    type V = EditActionModel;

    open spec fn view(&self) -> EditActionModel {
        match self {
            EditAction::Run(s, a, b) => EditActionModel::Run(*s, views(a@), *b),
            EditAction::RemoveFile(p) => EditActionModel::RemoveFile(p@),
            EditAction::Finish(Ok(x)) => EditActionModel::Finish(Ok(x@)),
            EditAction::Finish(Err(e)) => EditActionModel::Finish(Err(e@)),
        }
    }
}

pub open spec fn spawn_failure(stage: Stage) -> Seq<char> {
    match stage {
        Stage::Trim => "Failed to start video triming"@,
        Stage::Edit => "Failed to start video editing"@,
        Stage::Compress => "Failed to start video compressing"@,
    }
}

pub open spec fn exit_failure(stage: Stage) -> Seq<char> {
    match stage {
        Stage::Trim => "Video triming failed."@,
        Stage::Edit => "Video editing failed."@,
        Stage::Compress => "Video compression failed."@,
    }
}

pub open spec fn wait_failure_prefix(stage: Stage) -> Seq<char> {
    match stage {
        Stage::Trim => "Error while waiting for FFmpeg trim process: "@,
        Stage::Edit => "Error while waiting for FFmpeg edit process: "@,
        Stage::Compress => "Error while waiting for FFmpeg compress process: "@,
    }
}

pub open spec fn progress_event(stage: Stage) -> Seq<char> {
    match stage {
        Stage::Trim => "trim-progress"@,
        Stage::Edit => "edit-progress"@,
        Stage::Compress => "compress-progress"@,
    }
}

/// The pass that runs in a phase, if one does.
pub open spec fn stage_of(phase: EditPhase) -> Option<Stage> {
    match phase {
        EditPhase::Trimming => Some(Stage::Trim),
        EditPhase::Editing => Some(Stage::Edit),
        EditPhase::Compressing => Some(Stage::Compress),
        _ => None,
    }
}

/// Only a pass can fail to start or exit with a failing status; removing a
/// file either succeeds or fails with a message.
pub open spec fn event_fits(phase: EditPhase, e: EditEventModel) -> bool {
    &&& phase != EditPhase::Done
    &&& phase == EditPhase::RemovingTemp ==> (e is Succeeded || e is Failed)
}

/// The step into the edit pass: its arguments, or the refusal of the speed.
pub open spec fn enter_edit(r: &EditRequest, out: &EditOutputs, input: Seq<char>, base: ProgressBase) -> (EditPhase, EditActionModel) {
    match edit_args(input, video_filter(r), r.speed@, r.mute@, out.edited@) {
        Some(args) => (EditPhase::Editing, EditActionModel::Run(Stage::Edit, args, base)),
        None => (EditPhase::Done, EditActionModel::Finish(Err("Invalid speed provided"@))),
    }
}

pub open spec fn enter_compress(out: &EditOutputs, base: ProgressBase) -> (EditPhase, EditActionModel) {
    (
        EditPhase::Compressing,
        EditActionModel::Run(Stage::Compress, compress_args(out.edited@, out.compressed@), base),
    )
}

/// How an edit starts: with the trim pass when the request cuts the video,
/// else straight with the edit pass on the recording itself.
pub open spec fn edit_start(r: &EditRequest, out: &EditOutputs) -> (EditPhase, EditActionModel) {
    if needs_trim(r) {
        (
            EditPhase::Trimming,
            EditActionModel::Run(
                Stage::Trim,
                trim_args(r.file_location@, start_time(r), end_time(r), out.temp@),
                ProgressBase::Full,
            ),
        )
    } else {
        enter_edit(r, out, r.file_location@, ProgressBase::Full)
    }
}

/// The next phase and action of an edit in `phase` after event `e`.
pub open spec fn edit_next(r: &EditRequest, out: &EditOutputs, phase: EditPhase, e: EditEventModel) -> (EditPhase, EditActionModel) {
    let trimmed = needs_trim(r);
    let base = if trimmed { ProgressBase::Trimmed } else { ProgressBase::Full };
    match stage_of(phase) {
        Some(stage) => match e {
            EditEventModel::SpawnFailed => (EditPhase::Done, EditActionModel::Finish(Err(spawn_failure(stage)))),
            EditEventModel::ExitedWithFailure => (EditPhase::Done, EditActionModel::Finish(Err(exit_failure(stage)))),
            EditEventModel::Failed(m) => (EditPhase::Done, EditActionModel::Finish(Err(wait_failure_prefix(stage) + m))),
            EditEventModel::Succeeded => match stage {
                Stage::Trim => enter_edit(r, out, out.temp@, ProgressBase::Trimmed),
                Stage::Edit => if trimmed {
                    (EditPhase::RemovingTemp, EditActionModel::RemoveFile(out.temp@))
                } else {
                    enter_compress(out, base)
                },
                Stage::Compress => (EditPhase::Done, EditActionModel::Finish(Ok(finished_answer(out)))),
            },
        },
        None => match e {
            EditEventModel::Failed(m) => (EditPhase::Done, EditActionModel::Finish(Err("Failed to delete temp file: "@ + m))),
            _ => enter_compress(out, base),
        },
    }
}

/// Where an edit stands, and its last action, after it started and then
/// met `events` in order.
pub open spec fn edit_run(r: &EditRequest, out: &EditOutputs, events: Seq<EditEventModel>) -> (EditPhase, EditActionModel)
    decreases events.len(),
{
    if events.len() == 0 {
        edit_start(r, out)
    } else {
        let before = edit_run(r, out, events.drop_last());
        edit_next(r, out, before.0, events.last())
    }
}

/// `n` successes in a row.
pub open spec fn successes(n: nat) -> Seq<EditEventModel> {
    Seq::new(n, |i: int| EditEventModel::Succeeded)
}

/// An edit in progress: the request, its output files and where it stands.
pub struct EditPipeline {
    pub request: EditRequest,
    pub outputs: EditOutputs,
    pub phase: EditPhase,
}

impl Stage {
    /// The name under which the front end hears of this pass's progress.
    pub fn progress_event(&self) -> (r: &'static str)
        ensures
            r@ == progress_event(*self),
    {
        match self {
            Stage::Trim => "trim-progress",
            Stage::Edit => "edit-progress",
            Stage::Compress => "compress-progress",
        }
    }
}

fn enter_edit_exec(r: &EditRequest, out: &EditOutputs, input: &str, base: ProgressBase) -> (res: (EditPhase, EditAction))
    ensures
        (res.0, res.1@) == enter_edit(r, out, input@, base),
{
    let filter = choose_video_filter(r);
    match build_edit_args(input, filter.as_str(), r.speed.as_str(), r.mute.as_str(), out.edited.as_str()) {
        Some(args) => (EditPhase::Editing, EditAction::Run(Stage::Edit, args, base)),
        None => (EditPhase::Done, EditAction::Finish(Err(String::from_str("Invalid speed provided")))),
    }
}

fn enter_compress_exec(out: &EditOutputs, base: ProgressBase) -> (res: (EditPhase, EditAction))
    ensures
        (res.0, res.1@) == enter_compress(out, base),
{
    let args = build_compress_args(out.edited.as_str(), out.compressed.as_str());
    (EditPhase::Compressing, EditAction::Run(Stage::Compress, args, base))
}

impl EditPipeline {
    /// Starts an edit: the pipeline and its first action.
    pub fn start(request: EditRequest, outputs: EditOutputs) -> (res: (EditPipeline, EditAction))
        ensures
            res.0.request == request,
            res.0.outputs == outputs,
            (res.0.phase, res.1@) == edit_start(&request, &outputs),
    {
        let (phase, action) = if trim_needed(&request) {
            let start = clock(request.trim_start_hr.as_str(), request.trim_start_min.as_str(), request.trim_start_sec.as_str());
            let end = clock(request.trim_end_hr.as_str(), request.trim_end_min.as_str(), request.trim_end_sec.as_str());
            let args = build_trim_args(request.file_location.as_str(), start.as_str(), end.as_str(), outputs.temp.as_str());
            (EditPhase::Trimming, EditAction::Run(Stage::Trim, args, ProgressBase::Full))
        } else {
            enter_edit_exec(&request, &outputs, request.file_location.as_str(), ProgressBase::Full)
        };
        (EditPipeline { request, outputs, phase }, action)
    }

    /// Takes in what came of the last action and says what to do next.
    pub fn step(&mut self, event: EditEvent) -> (action: EditAction)
        requires
            event_fits(old(self).phase, event@),
        ensures
            final(self).request == old(self).request,
            final(self).outputs == old(self).outputs,
            (final(self).phase, action@) == edit_next(&old(self).request, &old(self).outputs, old(self).phase, event@),
    {
        let trimmed = trim_needed(&self.request);
        let base = if trimmed { ProgressBase::Trimmed } else { ProgressBase::Full };
        let stage = match self.phase {
            EditPhase::Trimming => Some(Stage::Trim),
            EditPhase::Editing => Some(Stage::Edit),
            EditPhase::Compressing => Some(Stage::Compress),
            _ => None,
        };
        let (phase, action) = match stage {
            Some(stage) => match event {
                EditEvent::SpawnFailed => {
                    let m = match stage {
                        Stage::Trim => "Failed to start video triming",
                        Stage::Edit => "Failed to start video editing",
                        Stage::Compress => "Failed to start video compressing",
                    };
                    (EditPhase::Done, EditAction::Finish(Err(String::from_str(m))))
                },
                EditEvent::ExitedWithFailure => {
                    let m = match stage {
                        Stage::Trim => "Video triming failed.",
                        Stage::Edit => "Video editing failed.",
                        Stage::Compress => "Video compression failed.",
                    };
                    (EditPhase::Done, EditAction::Finish(Err(String::from_str(m))))
                },
                EditEvent::Failed(detail) => {
                    let prefix = match stage {
                        Stage::Trim => "Error while waiting for FFmpeg trim process: ",
                        Stage::Edit => "Error while waiting for FFmpeg edit process: ",
                        Stage::Compress => "Error while waiting for FFmpeg compress process: ",
                    };
                    (EditPhase::Done, EditAction::Finish(Err(concat2(prefix, detail.as_str()))))
                },
                EditEvent::Succeeded => match stage {
                    Stage::Trim => enter_edit_exec(&self.request, &self.outputs, self.outputs.temp.as_str(), ProgressBase::Trimmed),
                    Stage::Edit => if trimmed {
                        (EditPhase::RemovingTemp, EditAction::RemoveFile(self.outputs.temp.clone()))
                    } else {
                        enter_compress_exec(&self.outputs, base)
                    },
                    Stage::Compress => {
                        let answer = concat3(self.outputs.edited.as_str(), "|", self.outputs.compressed.as_str());
                        (EditPhase::Done, EditAction::Finish(Ok(answer)))
                    },
                },
            },
            None => match event {
                EditEvent::Failed(detail) => {
                    (EditPhase::Done, EditAction::Finish(Err(concat2("Failed to delete temp file: ", detail.as_str()))))
                },
                _ => enter_compress_exec(&self.outputs, base),
            },
        };
        self.phase = phase;
        action
    }
}

/// The edit pass applies no video filter exactly when the requested crop
/// and speed, written as a filter, are the identity filter of the screen.
pub proof fn law_no_filter_iff_identity(r: &EditRequest)
    ensures
        video_filter(r).len() == 0 <==> full_filter(r) == identity_filter(r),
{
    reveal_strlit("crop=");
    reveal_strlit("setpts=");
    if full_filter(r) != identity_filter(r) {
        assert(crop_text(r).len() > 0);
        assert(setpts_text(r.speed@).len() > 0);
        assert(full_filter(r).len() > 0);
    }
}

/// The crop is kept whenever it is not the whole screen: if the crop is not
/// the full `screen_width` by `screen_height` area at `0:0`, the speed is
/// not `1`, and the request is not the identity filter, the edit filters
/// with `crop=W:H:X:Y,setpts=S*PTS`. The speed-only filter `setpts=S*PTS` is
/// chosen only when all four crop fields are the full screen at `0:0`.
pub proof fn law_partial_crop_is_kept(r: &EditRequest)
    ensures
        ({
            let both = "crop="@ + r.crop_width@ + ":"@ + r.crop_height@ + ":"@ + r.crop_x@ + ":"@
                + r.crop_y@ + ","@ + "setpts="@ + r.speed@ + "*PTS"@;
            let identity = "crop=0:0:"@ + r.screen_width@ + ":"@ + r.screen_height@
                + ",setpts=1*PTS"@;
            let whole_screen = r.crop_width@ == r.screen_width@ && r.crop_height@
                == r.screen_height@ && r.crop_x@ == "0"@ && r.crop_y@ == "0"@;
            !whole_screen && r.speed@ != "1"@ && both != identity ==> video_filter(r) == both
        }),
        video_filter(r) == "setpts="@ + r.speed@ + "*PTS"@ ==> {
            &&& r.crop_width@ == r.screen_width@
            &&& r.crop_height@ == r.screen_height@
            &&& r.crop_x@ == "0"@
            &&& r.crop_y@ == "0"@
        },
{
    reveal_strlit("crop=");
    reveal_strlit("setpts=");
    let both = "crop="@ + r.crop_width@ + ":"@ + r.crop_height@ + ":"@ + r.crop_x@ + ":"@
        + r.crop_y@ + ","@ + "setpts="@ + r.speed@ + "*PTS"@;
    assert(full_filter(r) =~= both);
    let sp = "setpts="@ + r.speed@ + "*PTS"@;
    if video_filter(r) == sp {
        assert(sp.len() > 0);
        assert(sp[0] == 's');
        if full_filter(r) != identity_filter(r) && r.speed@ == "1"@ {
            assert(crop_text(r)[0] == 'c');
        } else if full_filter(r) != identity_filter(r) && !(r.screen_width@ == r.crop_width@
            && r.screen_height@ == r.crop_height@ && "0"@ == r.crop_x@ && "0"@ == r.crop_y@) {
            assert(full_filter(r)[0] == 'c');
        }
    }
}

/// With fields that hold no `:`, a trim pass is needed exactly when the cut
/// does not start at `0`, `0`, `0`, or when any field of its end (hours,
/// minutes or seconds) differs from the same field of the duration.
pub proof fn law_trim_follows_every_field(r: &EditRequest)
    requires
        !r.trim_start_hr@.contains(':'),
        !r.trim_start_min@.contains(':'),
        !r.trim_start_sec@.contains(':'),
        !r.trim_end_hr@.contains(':'),
        !r.trim_end_min@.contains(':'),
        !r.trim_end_sec@.contains(':'),
        !r.duration_hr@.contains(':'),
        !r.duration_min@.contains(':'),
        !r.duration_sec@.contains(':'),
    ensures
        needs_trim(r) <==> {
            ||| !(r.trim_start_hr@ == "0"@ && r.trim_start_min@ == "0"@ && r.trim_start_sec@
                == "0"@)
            ||| r.trim_end_hr@ != r.duration_hr@
            ||| r.trim_end_min@ != r.duration_min@
            ||| r.trim_end_sec@ != r.duration_sec@
        },
{
    reveal_strlit("0");
    reveal_strlit(":");
    reveal_strlit("0:0:0");
    assert(clock_text("0"@, "0"@, "0"@) =~= "0:0:0"@);
    assert(!"0"@.contains(':')) by {
        assert("0"@ =~= seq!['0']);
    }
    crate::progress::law_clock_fields_round_trip(r.trim_start_hr@, r.trim_start_min@, r.trim_start_sec@);
    crate::progress::law_clock_fields_round_trip("0"@, "0"@, "0"@);
    crate::progress::law_clock_fields_round_trip(r.trim_end_hr@, r.trim_end_min@, r.trim_end_sec@);
    crate::progress::law_clock_fields_round_trip(r.duration_hr@, r.duration_min@, r.duration_sec@);
}

/// When every pass succeeds (and the temporary file is removed), an edit of
/// an offered speed ends with the answer `edited|compressed`: after trim,
/// edit, removal of the temporary file and compression when the request cuts
/// the video, after edit and compression when it does not.
pub proof fn law_successful_edit_answers_both_files(r: &EditRequest, out: &EditOutputs)
    requires
        tempo_args(r.speed@) is Some,
    ensures
        needs_trim(r) ==> edit_run(r, out, successes(4)) == (
            EditPhase::Done,
            EditActionModel::Finish(Ok(finished_answer(out))),
        ),
        !needs_trim(r) ==> edit_run(r, out, successes(2)) == (
            EditPhase::Done,
            EditActionModel::Finish(Ok(finished_answer(out))),
        ),
{
    reveal_with_fuel(edit_run, 5);
    assert(successes(4).drop_last() =~= successes(3));
    assert(successes(3).drop_last() =~= successes(2));
    assert(successes(2).drop_last() =~= successes(1));
    assert(successes(1).drop_last() =~= successes(0));
}

/// The passes of a successful edit, in order, each with the length its
/// progress is measured against: with a cut, trim (whole recording) on the
/// recording, edit (kept part) on the temporary file, removal of the
/// temporary file, compress (kept part) on the edited file; without a cut,
/// edit and compress, both measured against the whole recording.
pub proof fn law_pass_order(r: &EditRequest, out: &EditOutputs)
    requires
        tempo_args(r.speed@) is Some,
    ensures
        needs_trim(r) ==> {
            &&& edit_run(r, out, successes(0)).1 == EditActionModel::Run(
                Stage::Trim,
                trim_args(r.file_location@, start_time(r), end_time(r), out.temp@),
                ProgressBase::Full,
            )
            &&& edit_run(r, out, successes(1)).1 == EditActionModel::Run(
                Stage::Edit,
                edit_args(out.temp@, video_filter(r), r.speed@, r.mute@, out.edited@).unwrap(),
                ProgressBase::Trimmed,
            )
            &&& edit_run(r, out, successes(2)).1 == EditActionModel::RemoveFile(out.temp@)
            &&& edit_run(r, out, successes(3)).1 == EditActionModel::Run(
                Stage::Compress,
                compress_args(out.edited@, out.compressed@),
                ProgressBase::Trimmed,
            )
        },
        !needs_trim(r) ==> {
            &&& edit_run(r, out, successes(0)).1 == EditActionModel::Run(
                Stage::Edit,
                edit_args(r.file_location@, video_filter(r), r.speed@, r.mute@, out.edited@).unwrap(),
                ProgressBase::Full,
            )
            &&& edit_run(r, out, successes(1)).1 == EditActionModel::Run(
                Stage::Compress,
                compress_args(out.edited@, out.compressed@),
                ProgressBase::Full,
            )
        },
{
    reveal_with_fuel(edit_run, 4);
    assert(successes(3).drop_last() =~= successes(2));
    assert(successes(2).drop_last() =~= successes(1));
    assert(successes(1).drop_last() =~= successes(0));
}

/// A speed that is not offered is refused with "Invalid speed provided"
/// before any edit pass runs: right away without a cut, after the trim pass
/// with one.
pub proof fn law_unoffered_speed_refused(r: &EditRequest, out: &EditOutputs)
    requires
        tempo_args(r.speed@) is None,
    ensures
        !needs_trim(r) ==> edit_start(r, out) == (
            EditPhase::Done,
            EditActionModel::Finish(Err("Invalid speed provided"@)),
        ),
        needs_trim(r) ==> edit_run(r, out, successes(1)) == (
            EditPhase::Done,
            EditActionModel::Finish(Err("Invalid speed provided"@)),
        ),
{
    reveal_with_fuel(edit_run, 2);
    assert(successes(1).drop_last() =~= successes(0));
}

/// Any failure ends the edit with an error and no further pass.
pub proof fn law_failure_ends_edit(r: &EditRequest, out: &EditOutputs, phase: EditPhase, e: EditEventModel)
    requires
        event_fits(phase, e),
        !(e is Succeeded),
    ensures
        edit_next(r, out, phase, e).0 == EditPhase::Done,
        edit_next(r, out, phase, e).1 is Finish,
        edit_next(r, out, phase, e).1->Finish_0 is Err,
{
}

} // verus!
