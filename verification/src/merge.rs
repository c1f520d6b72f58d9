//! Joining files with ffmpeg: the sound into the video of a recording, and a
//! new recording onto an earlier one. Each join is a list of steps (write
//! the list of inputs, run ffmpeg through the shell, remove and rename
//! files) that runs in order and stops at the first failure.
use vstd::prelude::*;
use crate::stop::in_folder;
use crate::text::{concat2, views};

verus! {

/// One step of a join.
pub enum MergeOp {
    /// Create this file and write this text into it.
    WriteList(String, String),
    /// Run this command line through the shell.
    Shell(String),
    /// Remove this file.
    Remove(String),
    /// Rename the first file to the second.
    Rename(String, String),
}

pub enum MergeOpModel {
    WriteList(Seq<char>, Seq<char>),
    Shell(Seq<char>),
    Remove(Seq<char>),
    Rename(Seq<char>, Seq<char>),
}

impl View for MergeOp {
    type V = MergeOpModel;

    open spec fn view(&self) -> MergeOpModel {
        match self {
            MergeOp::WriteList(p, c) => MergeOpModel::WriteList(p@, c@),
            MergeOp::Shell(c) => MergeOpModel::Shell(c@),
            MergeOp::Remove(p) => MergeOpModel::Remove(p@),
            MergeOp::Rename(a, b) => MergeOpModel::Rename(a@, b@),
        }
    }
}

/// A step and the start of the message that its failure is answered with.
pub struct MergeStep {
    pub op: MergeOp,
    pub failure: String,
}

/// The steps of a join and the file it leaves.
pub struct MergePlan {
    pub steps: Vec<MergeStep>,
    pub result: String,
}

pub open spec fn step_models(steps: Seq<MergeStep>) -> Seq<(MergeOpModel, Seq<char>)> {
    steps.map_values(|s: MergeStep| (s.op@, s.failure@))
}

pub open spec fn merged_av_name(video: Seq<char>) -> Seq<char> {
    video + ".merged_video_and_audio.mp4"@
}

pub open spec fn av_command(video: Seq<char>, audio: Seq<char>) -> Seq<char> {
    "ffmpeg -i "@ + video + " -i "@ + audio + " -c:v copy -c:a aac -strict experimental "@
        + merged_av_name(video)
}

/// Joining the sound into the video: ffmpeg writes both into a new file,
/// the two inputs are removed and the new file takes the video's name.
pub open spec fn av_steps(video: Seq<char>, audio: Seq<char>) -> Seq<(MergeOpModel, Seq<char>)> {
    seq![
        (MergeOpModel::Shell(av_command(video, audio)), "Failed to execute merge command: "@),
        (MergeOpModel::Remove(video), "Failed to delete video file: "@),
        (MergeOpModel::Remove(audio), "Failed to delete audio file: "@),
        (MergeOpModel::Rename(merged_av_name(video), video), "Failed to rename merged file: "@),
    ]
}

pub open spec fn merged_concat_name(first: Seq<char>) -> Seq<char> {
    first + ".merged.mp4"@
}

/// The input list of a concatenation, in ffmpeg's `concat` format.
pub open spec fn concat_list_text(first: Seq<char>, second: Seq<char>) -> Seq<char> {
    "file '"@ + first + "'\nfile '"@ + second + "'"@
}

pub open spec fn concat_command(list: Seq<char>, first: Seq<char>) -> Seq<char> {
    "ffmpeg -f concat -safe 0 -i "@ + list + " -c copy "@ + merged_concat_name(first)
}

/// Appending `second` to `first`: the list of the two is written, ffmpeg
/// concatenates them into a new file, both inputs are removed, the new file
/// takes `first`'s name and the list is removed.
pub open spec fn concat_steps(first: Seq<char>, second: Seq<char>, list: Seq<char>) -> Seq<(MergeOpModel, Seq<char>)> {
    seq![
        (MergeOpModel::WriteList(list, concat_list_text(first, second)), "Failed to write to file list: "@),
        (MergeOpModel::Shell(concat_command(list, first)), "Failed to execute merge command: "@),
        (MergeOpModel::Remove(first), "Failed to delete file1: "@),
        (MergeOpModel::Remove(second), "Failed to delete file2: "@),
        (MergeOpModel::Rename(merged_concat_name(first), first), "Failed to rename merged file: "@),
        (MergeOpModel::Remove(list), "Failed to delete file list: "@),
    ]
}

fn step(op: MergeOp, failure: &str) -> (s: MergeStep)
    ensures
        s.op == op,
        s.failure@ == failure@,
{
    MergeStep { op, failure: String::from_str(failure) }
}

/// The plan that joins the sound file `audio` into the video file `video`;
/// it leaves the joined recording under the video's name.
pub fn plan_av_merge(video: &str, audio: &str) -> (p: MergePlan)
    ensures
        step_models(p.steps@) == av_steps(video@, audio@),
        p.result@ == video@,
{
    let merged = concat2(video, ".merged_video_and_audio.mp4");
    let mut command = String::from_str("ffmpeg -i ");
    command.append(video);
    command.append(" -i ");
    command.append(audio);
    command.append(" -c:v copy -c:a aac -strict experimental ");
    command.append(merged.as_str());
    let mut steps: Vec<MergeStep> = Vec::new();
    steps.push(step(MergeOp::Shell(command), "Failed to execute merge command: "));
    steps.push(step(MergeOp::Remove(String::from_str(video)), "Failed to delete video file: "));
    steps.push(step(MergeOp::Remove(String::from_str(audio)), "Failed to delete audio file: "));
    steps.push(
        step(MergeOp::Rename(merged, String::from_str(video)), "Failed to rename merged file: "),
    );
    assert(step_models(steps@) =~= av_steps(video@, audio@));
    MergePlan { steps, result: String::from_str(video) }
}

/// The plan that appends `second` to `first` through the list file `list`;
/// it leaves the joined video under `first`'s name.
pub fn plan_concat_merge(first: &str, second: &str, list: &str) -> (p: MergePlan)
    ensures
        step_models(p.steps@) == concat_steps(first@, second@, list@),
        p.result@ == first@,
{
    let merged = concat2(first, ".merged.mp4");
    let mut content = String::from_str("file '");
    content.append(first);
    content.append("'\nfile '");
    content.append(second);
    content.append("'");
    let mut command = String::from_str("ffmpeg -f concat -safe 0 -i ");
    command.append(list);
    command.append(" -c copy ");
    command.append(merged.as_str());
    let mut steps: Vec<MergeStep> = Vec::new();
    steps.push(
        step(MergeOp::WriteList(String::from_str(list), content), "Failed to write to file list: "),
    );
    steps.push(step(MergeOp::Shell(command), "Failed to execute merge command: "));
    steps.push(step(MergeOp::Remove(String::from_str(first)), "Failed to delete file1: "));
    steps.push(step(MergeOp::Remove(String::from_str(second)), "Failed to delete file2: "));
    steps.push(
        step(MergeOp::Rename(merged, String::from_str(first)), "Failed to rename merged file: "),
    );
    steps.push(step(MergeOp::Remove(String::from_str(list)), "Failed to delete file list: "));
    assert(step_models(steps@) =~= concat_steps(first@, second@, list@));
    MergePlan { steps, result: String::from_str(first) }
}

/// A text with no separator (`/`, `\\`) and no prefix mark (`:`): as a path
/// it is at most one component, the text itself.
pub open spec fn plain_path_text(t: Seq<char>) -> bool {
    !t.contains('/') && !t.contains('\\') && !t.contains(':')
}

/// A file name that is a single ordinary path component on every platform:
/// not empty, no separator or prefix mark, and neither `.` nor `..`.
pub open spec fn plain_file_name(x: Seq<char>) -> bool {
    &&& x.len() > 0
    &&& plain_path_text(x)
    &&& x != "."@
    &&& x != ".."@
}

/// Whether `std::path::Path::new(a) == Path::new(b)`: the two paths have the
/// same components. Claimed: the same text is the same path; two different
/// texts without separators or prefix marks are different paths (each is a
/// single component, or none when empty, as the documentation of
/// `Path::components` describes); and `d\x` and `d\y` are different paths
/// for different plain file names `x` and `y`, since their last components
/// differ (on Windows they are `x` and `y`, or `x` and `y` end a prefix; on
/// other platforms `\` is no separator and the last components end in
/// `\x` and `\y`). How other texts with separators compare is left unsaid.
#[verifier::external_body]
fn same_path(a: &str, b: &str) -> (r: bool)
    ensures
        a@ == b@ ==> r,
        plain_path_text(a@) && plain_path_text(b@) && a@ != b@ ==> !r,
        forall|d: Seq<char>, x: Seq<char>, y: Seq<char>|
            #![trigger in_folder(d, x), in_folder(d, y)]
            a@ == in_folder(d, x) && b@ == in_folder(d, y) && plain_file_name(x)
                && plain_file_name(y) && x != y ==> !r,
{
    std::path::Path::new(a) == std::path::Path::new(b)
}

/// Whether appending `second` to `first` is needed: not when both name the
/// same file, which is then kept as it is.
pub fn concat_needed(first: &str, second: &str) -> (r: bool)
    ensures
        first@ == second@ ==> !r,
        plain_path_text(first@) && plain_path_text(second@) && first@ != second@ ==> r,
        forall|d: Seq<char>, x: Seq<char>, y: Seq<char>|
            #![trigger in_folder(d, x), in_folder(d, y)]
            first@ == in_folder(d, x) && second@ == in_folder(d, y) && plain_file_name(x)
                && plain_file_name(y) && x != y ==> r,
{
    !same_path(first, second)
}

/// What came of a step.
pub enum MergeEvent {
    /// The step was done (for the shell, the command exited successfully).
    Succeeded,
    /// The step failed with this detail (for the list, writing to it).
    Failed(String),
    /// The list file could not be created, with this detail.
    CreateFailed(String),
    /// The command exited with this failing status.
    Unsuccessful(String),
}

pub enum MergeEventModel {
    Succeeded,
    Failed(Seq<char>),
    CreateFailed(Seq<char>),
    Unsuccessful(Seq<char>),
}

impl View for MergeEvent {
    type V = MergeEventModel;

    open spec fn view(&self) -> MergeEventModel {
        match self {
            MergeEvent::Succeeded => MergeEventModel::Succeeded,
            MergeEvent::Failed(d) => MergeEventModel::Failed(d@),
            MergeEvent::CreateFailed(d) => MergeEventModel::CreateFailed(d@),
            MergeEvent::Unsuccessful(d) => MergeEventModel::Unsuccessful(d@),
        }
    }
}

/// What to do next in a join.
pub enum MergeAction {
    Do(MergeOp),
    Finish(Result<String, String>),
}

pub enum MergeActionModel {
    Do(MergeOpModel),
    Finish(Result<Seq<char>, Seq<char>>),
}

impl View for MergeAction {
    type V = MergeActionModel;

    open spec fn view(&self) -> MergeActionModel {
        match self {
            MergeAction::Do(op) => MergeActionModel::Do(op@),
            MergeAction::Finish(Ok(x)) => MergeActionModel::Finish(Ok(x@)),
            MergeAction::Finish(Err(e)) => MergeActionModel::Finish(Err(e@)),
        }
    }
}

/// Only creating the list can fail to create it, and only the shell can
/// exit unsuccessfully.
pub open spec fn merge_event_fits(op: MergeOpModel, e: MergeEventModel) -> bool {
    &&& e is CreateFailed ==> op is WriteList
    &&& e is Unsuccessful ==> op is Shell
}

/// The first action of a join: its first step, or its result when it has
/// no steps.
pub open spec fn merge_first(steps: Seq<(MergeOpModel, Seq<char>)>, result: Seq<char>) -> MergeActionModel {
    if steps.len() == 0 {
        MergeActionModel::Finish(Ok(result))
    } else {
        MergeActionModel::Do(steps[0].0)
    }
}

/// After event `e` of step `i`: whether the join is over, and what to do.
pub open spec fn merge_next(steps: Seq<(MergeOpModel, Seq<char>)>, result: Seq<char>, i: int, e: MergeEventModel) -> (bool, MergeActionModel) {
    match e {
        MergeEventModel::Succeeded => if i + 1 < steps.len() {
            (false, MergeActionModel::Do(steps[i + 1].0))
        } else {
            (true, MergeActionModel::Finish(Ok(result)))
        },
        MergeEventModel::Failed(d) => (true, MergeActionModel::Finish(Err(steps[i].1 + d))),
        MergeEventModel::CreateFailed(d) => (true, MergeActionModel::Finish(Err("Failed to create file list: "@ + d))),
        MergeEventModel::Unsuccessful(d) => (true, MergeActionModel::Finish(Err("Merge command failed with status: "@ + d))),
    }
}

/// Whether a join is over, the step under way and the last action, after
/// it started and then met `events` in order.
pub open spec fn merge_run(steps: Seq<(MergeOpModel, Seq<char>)>, result: Seq<char>, events: Seq<MergeEventModel>) -> (bool, int, MergeActionModel)
    decreases events.len(),
{
    if events.len() == 0 {
        (steps.len() == 0, 0, merge_first(steps, result))
    } else {
        let before = merge_run(steps, result, events.drop_last());
        let after = merge_next(steps, result, before.1, events.last());
        (after.0, if after.0 { before.1 } else { before.1 + 1 }, after.1)
    }
}

/// `k` successes in a row.
pub open spec fn merge_successes(k: nat) -> Seq<MergeEventModel> {
    Seq::new(k, |i: int| MergeEventModel::Succeeded)
}

/// A join in progress: its plan, the step under way and whether it is over.
pub struct MergeRun {
    pub plan: MergePlan,
    pub current: usize,
    pub done: bool,
}

fn op_copy(op: &MergeOp) -> (r: MergeOp)
    ensures
        r@ == op@,
{
    match op {
        MergeOp::WriteList(p, c) => MergeOp::WriteList(p.clone(), c.clone()),
        MergeOp::Shell(c) => MergeOp::Shell(c.clone()),
        MergeOp::Remove(p) => MergeOp::Remove(p.clone()),
        MergeOp::Rename(a, b) => MergeOp::Rename(a.clone(), b.clone()),
    }
}

impl MergeRun {
    /// Starts a join: the run and its first action.
    pub fn start(plan: MergePlan) -> (res: (MergeRun, MergeAction))
        ensures
            res.0.plan == plan,
            res.0.current == 0,
            res.0.done == (plan.steps@.len() == 0),
            res.1@ == merge_first(step_models(plan.steps@), plan.result@),
    {
        let action = if plan.steps.len() == 0 {
            MergeAction::Finish(Ok(plan.result.clone()))
        } else {
            MergeAction::Do(op_copy(&plan.steps[0].op))
        };
        let done = plan.steps.len() == 0;
        (MergeRun { plan, current: 0, done }, action)
    }

    /// Takes in what came of the step under way and says what to do next.
    pub fn step(&mut self, event: MergeEvent) -> (action: MergeAction)
        requires
            !old(self).done,
            old(self).current < old(self).plan.steps@.len(),
            merge_event_fits(old(self).plan.steps@[old(self).current as int].op@, event@),
        ensures
            final(self).plan == old(self).plan,
            (final(self).done, action@) == merge_next(
                step_models(old(self).plan.steps@),
                old(self).plan.result@,
                old(self).current as int,
                event@,
            ),
            !final(self).done ==> final(self).current == old(self).current + 1,
            final(self).done ==> final(self).current == old(self).current,
    {
        let i = self.current;
        let ghost steps = step_models(self.plan.steps@);
        assert(steps[i as int] == (self.plan.steps@[i as int].op@, self.plan.steps@[i as int].failure@));
        match event {
            MergeEvent::Succeeded => {
                if i < self.plan.steps.len() - 1 {
                    self.current = i + 1;
                    assert(steps[i + 1] == (self.plan.steps@[i + 1].op@, self.plan.steps@[i + 1].failure@));
                    MergeAction::Do(op_copy(&self.plan.steps[i + 1].op))
                } else {
                    self.done = true;
                    MergeAction::Finish(Ok(self.plan.result.clone()))
                }
            },
            MergeEvent::Failed(d) => {
                self.done = true;
                MergeAction::Finish(Err(concat2(self.plan.steps[i].failure.as_str(), d.as_str())))
            },
            MergeEvent::CreateFailed(d) => {
                self.done = true;
                MergeAction::Finish(Err(concat2("Failed to create file list: ", d.as_str())))
            },
            MergeEvent::Unsuccessful(d) => {
                self.done = true;
                MergeAction::Finish(Err(concat2("Merge command failed with status: ", d.as_str())))
            },
        }
    }
}

/// The steps of a join run one after the other, in the order of the plan,
/// each only once the one before it succeeded; when all have succeeded the
/// join answers the file it leaves.
pub proof fn law_merge_steps_in_order(steps: Seq<(MergeOpModel, Seq<char>)>, result: Seq<char>, k: nat)
    requires
        0 < steps.len(),
        k <= steps.len(),
    ensures
        k < steps.len() ==> merge_run(steps, result, merge_successes(k)) == (
            false,
            k as int,
            MergeActionModel::Do(steps[k as int].0),
        ),
        k == steps.len() ==> merge_run(steps, result, merge_successes(k)).0 && merge_run(
            steps,
            result,
            merge_successes(k),
        ).2 == MergeActionModel::Finish(Ok(result)),
    decreases k,
{
    if k > 0 {
        law_merge_steps_in_order(steps, result, (k - 1) as nat);
        assert(merge_successes(k).drop_last() =~= merge_successes((k - 1) as nat));
    }
}

/// Joining sound into video removes each of its two inputs exactly once and
/// nothing else, and it ends by renaming the joined file onto the video's
/// path, after that path was removed, so the join's answer names the joined
/// recording.
pub proof fn law_av_join_removes_each_input_once(video: Seq<char>, audio: Seq<char>)
    requires
        video != audio,
    ensures
        ({
            let st = av_steps(video, audio);
            &&& exists|i: int| 0 <= i < st.len() && st[i].0 == MergeOpModel::Remove(audio)
            &&& exists|i: int| 0 <= i < st.len() && st[i].0 == MergeOpModel::Remove(video)
            &&& forall|i: int|
                0 <= i < st.len() && st[i].0 is Remove ==> st[i].0 == MergeOpModel::Remove(video)
                    || st[i].0 == MergeOpModel::Remove(audio)
            &&& forall|i: int, j: int|
                0 <= i < j < st.len() && st[i].0 is Remove && st[j].0 is Remove ==> st[i].0
                    != st[j].0
            &&& st.last().0 matches MergeOpModel::Rename(_, to) && to == video
            &&& forall|i: int| 0 <= i < st.len() && st[i].0 == MergeOpModel::Remove(video) ==> i < st.len() - 1
        }),
{
    let st = av_steps(video, audio);
    assert(st[2].0 == MergeOpModel::Remove(audio));
    assert(st[1].0 == MergeOpModel::Remove(video));
}

/// Appending renames the joined file onto `first`, the path the plan
/// answers, in its only rename; both inputs are removed before that rename,
/// and no later step removes `first` (when the list file is another path).
pub proof fn law_concat_join_leaves_first(first: Seq<char>, second: Seq<char>, list: Seq<char>)
    ensures
        ({
            let st = concat_steps(first, second, list);
            exists|k: int| #![trigger st[k]] {
                &&& 0 <= k < st.len()
                &&& st[k].0 matches MergeOpModel::Rename(_, to) && to == first
                &&& forall|i: int| 0 <= i < st.len() && i != k ==> !(st[i].0 is Rename)
                &&& exists|i: int| 0 <= i < k && st[i].0 == MergeOpModel::Remove(first)
                &&& exists|i: int| 0 <= i < k && st[i].0 == MergeOpModel::Remove(second)
                &&& list != first ==> forall|i: int|
                    k < i < st.len() ==> st[i].0 != MergeOpModel::Remove(first)
            }
        }),
{
    let st = concat_steps(first, second, list);
    assert(st[2].0 == MergeOpModel::Remove(first));
    assert(st[3].0 == MergeOpModel::Remove(second));
    assert(st[4].0 matches MergeOpModel::Rename(_, to) && to == first);
    assert(st[5].0 == MergeOpModel::Remove(list));
}

/// A failed step ends the join with an error and no further step.
pub proof fn law_merge_failure_ends(steps: Seq<(MergeOpModel, Seq<char>)>, result: Seq<char>, i: int, e: MergeEventModel)
    requires
        !(e is Succeeded),
    ensures
        merge_next(steps, result, i, e).0,
        merge_next(steps, result, i, e).1 is Finish,
        merge_next(steps, result, i, e).1->Finish_0 is Err,
{
}

} // verus!
