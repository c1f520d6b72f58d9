use screen_recorder::edit::{
    build_compress_args, build_edit_args, build_trim_args, choose_video_filter, output_file_names,
    trim_needed, EditAction, EditEvent, EditOutputs, EditPhase, EditPipeline, EditRequest,
    ProgressBase, Stage,
};

fn s(x: &str) -> String {
    x.to_string()
}

fn strings(v: &[&str]) -> Vec<String> {
    v.iter().map(|x| x.to_string()).collect()
}

fn request(speed: &str, mute: &str, start: (&str, &str, &str), end: (&str, &str, &str)) -> EditRequest {
    EditRequest {
        file_location: s("C:\\v\\Recording_1.mp4"),
        mute: s(mute),
        speed: s(speed),
        trim_start_hr: s(start.0),
        trim_start_min: s(start.1),
        trim_start_sec: s(start.2),
        trim_end_hr: s(end.0),
        trim_end_min: s(end.1),
        trim_end_sec: s(end.2),
        crop_x: s("0"),
        crop_y: s("0"),
        crop_width: s("1920"),
        crop_height: s("1080"),
        duration_hr: s("0"),
        duration_min: s("1"),
        duration_sec: s("30"),
        screen_width: s("1920"),
        screen_height: s("1080"),
    }
}

fn outputs() -> EditOutputs {
    EditOutputs { temp: s("T.mp4"), edited: s("E.mp4"), compressed: s("C.mp4") }
}

fn expect_run(a: EditAction) -> (Stage, Vec<String>, ProgressBase) {
    match a {
        EditAction::Run(stage, args, base) => (stage, args, base),
        _ => panic!("expected a pass to run"),
    }
}

fn expect_finish(a: EditAction) -> Result<String, String> {
    match a {
        EditAction::Finish(r) => r,
        _ => panic!("expected the end"),
    }
}

#[test]
fn output_names_replace_recording() {
    let (t, e, c) = output_file_names("Recording_2024-01-02_03-04-05.mp4");
    assert_eq!(t, "Temp_2024-01-02_03-04-05.mp4");
    assert_eq!(e, "Edited_2024-01-02_03-04-05.mp4");
    assert_eq!(c, "Compressed_2024-01-02_03-04-05.mp4");
    let (t, _, _) = output_file_names("clip.mp4");
    assert_eq!(t, "clip.mp4");
    let (t, _, _) = output_file_names("RecordingRecording");
    assert_eq!(t, "TempTemp");
}

#[test]
fn trim_needed_unless_whole_video() {
    assert!(!trim_needed(&request("1", "", ("0", "0", "0"), ("0", "1", "30"))));
    assert!(trim_needed(&request("1", "", ("0", "0", "5"), ("0", "1", "30"))));
    assert!(trim_needed(&request("1", "", ("0", "0", "0"), ("0", "1", "20"))));
    assert!(trim_needed(&request("1", "", ("00", "0", "0"), ("0", "1", "30"))));
}

#[test]
fn filter_none_when_nothing_changes() {
    let r = request("1", "", ("0", "0", "0"), ("0", "1", "30"));
    let mut r2 = r;
    r2.crop_width = s("0");
    r2.crop_height = s("0");
    r2.crop_x = s("1920");
    r2.crop_y = s("1080");
    assert_eq!(choose_video_filter(&r2), "");
}

#[test]
fn filter_crop_only_at_normal_speed() {
    let r = request("1", "", ("0", "0", "0"), ("0", "1", "30"));
    assert_eq!(choose_video_filter(&r), "crop=1920:1080:0:0");
}

#[test]
fn filter_speed_only_without_crop() {
    let r = request("2", "", ("0", "0", "0"), ("0", "1", "30"));
    assert_eq!(choose_video_filter(&r), "setpts=2*PTS");
}

#[test]
fn filter_both() {
    let mut r = request("0.5", "", ("0", "0", "0"), ("0", "1", "30"));
    r.crop_width = s("640");
    assert_eq!(choose_video_filter(&r), "crop=640:1080:0:0,setpts=0.5*PTS");
}

#[test]
fn trim_and_compress_arguments() {
    assert_eq!(
        build_trim_args("in.mp4", "0:0:5", "0:1:0", "t.mp4"),
        strings(&["-y", "-progress", "pipe:1", "-i", "in.mp4", "-ss", "0:0:5", "-to", "0:1:0", "-v", "error", "t.mp4"])
    );
    assert_eq!(
        build_compress_args("e.mp4", "c.mp4"),
        strings(&["-y", "-progress", "pipe:1", "-i", "e.mp4", "-vcodec", "libx264", "-crf", "28", "c.mp4"])
    );
}

#[test]
fn edit_arguments_per_speed() {
    let base = ["-y", "-progress", "pipe:1", "-i", "in.mp4"];
    let cases: [(&str, &[&str]); 5] = [
        ("2", &["-filter:a", "atempo=0.5"]),
        ("1", &[]),
        ("0.5", &["-filter:a", "atempo=2.0"]),
        ("0.25", &["-filter:a", "atempo=2.0,atempo=2.0"]),
        ("0.1", &["-filter:a", "atempo=2.0,atempo=2.0,atempo=2.5"]),
    ];
    for (speed, tempo) in cases.iter() {
        let mut expected: Vec<&str> = base.to_vec();
        expected.extend_from_slice(&["-filter:v", "f"]);
        expected.extend_from_slice(tempo);
        expected.extend_from_slice(&["-c:a", "aac", "out.mp4"]);
        assert_eq!(build_edit_args("in.mp4", "f", speed, "", "out.mp4"), Some(strings(&expected)));
    }
}

#[test]
fn edit_arguments_muted_without_filter() {
    assert_eq!(
        build_edit_args("in.mp4", "", "1", "-an", "out.mp4"),
        Some(strings(&["-y", "-progress", "pipe:1", "-i", "in.mp4", "-an", "out.mp4"]))
    );
}

#[test]
fn edit_arguments_refuse_unknown_speed() {
    assert_eq!(build_edit_args("in.mp4", "", "3", "", "out.mp4"), None);
    assert_eq!(build_edit_args("in.mp4", "", "1.0", "", "out.mp4"), None);
}

#[test]
fn edit_with_trim_runs_all_passes() {
    let r = request("2", "-an", ("0", "0", "5"), ("0", "1", "0"));
    let (mut p, a) = EditPipeline::start(r, outputs());
    let (stage, args, base) = expect_run(a);
    assert_eq!(stage, Stage::Trim);
    assert_eq!(base, ProgressBase::Full);
    assert_eq!(args[4], "C:\\v\\Recording_1.mp4");
    assert_eq!(args[6], "0:0:5");
    assert_eq!(args[8], "0:1:0");
    assert_eq!(stage.progress_event(), "trim-progress");

    let (stage, args, base) = expect_run(p.step(EditEvent::Succeeded));
    assert_eq!(stage, Stage::Edit);
    assert_eq!(base, ProgressBase::Trimmed);
    assert_eq!(
        args,
        strings(&["-y", "-progress", "pipe:1", "-i", "T.mp4", "-filter:v", "setpts=2*PTS", "-filter:a", "atempo=0.5", "-an", "E.mp4"])
    );
    assert_eq!(stage.progress_event(), "edit-progress");

    match p.step(EditEvent::Succeeded) {
        EditAction::RemoveFile(path) => assert_eq!(path, "T.mp4"),
        _ => panic!("expected the temporary file to be removed"),
    }
    assert_eq!(p.phase, EditPhase::RemovingTemp);

    let (stage, args, base) = expect_run(p.step(EditEvent::Succeeded));
    assert_eq!(stage, Stage::Compress);
    assert_eq!(base, ProgressBase::Trimmed);
    assert_eq!(args[4], "E.mp4");
    assert_eq!(args[9], "C.mp4");
    assert_eq!(stage.progress_event(), "compress-progress");

    assert_eq!(expect_finish(p.step(EditEvent::Succeeded)), Ok(s("E.mp4|C.mp4")));
    assert_eq!(p.phase, EditPhase::Done);
}

#[test]
fn edit_without_trim_runs_edit_and_compress() {
    let r = request("1", "", ("0", "0", "0"), ("0", "1", "30"));
    let (mut p, a) = EditPipeline::start(r, outputs());
    let (stage, args, base) = expect_run(a);
    assert_eq!(stage, Stage::Edit);
    assert_eq!(base, ProgressBase::Full);
    assert_eq!(args[4], "C:\\v\\Recording_1.mp4");
    let (stage, _, base) = expect_run(p.step(EditEvent::Succeeded));
    assert_eq!(stage, Stage::Compress);
    assert_eq!(base, ProgressBase::Full);
    assert_eq!(expect_finish(p.step(EditEvent::Succeeded)), Ok(s("E.mp4|C.mp4")));
}

#[test]
fn invalid_speed_refused_at_start_without_trim() {
    let r = request("3", "", ("0", "0", "0"), ("0", "1", "30"));
    let (p, a) = EditPipeline::start(r, outputs());
    assert_eq!(expect_finish(a), Err(s("Invalid speed provided")));
    assert_eq!(p.phase, EditPhase::Done);
}

#[test]
fn invalid_speed_refused_after_trim() {
    let r = request("3", "", ("0", "0", "1"), ("0", "1", "30"));
    let (mut p, a) = EditPipeline::start(r, outputs());
    assert_eq!(expect_run(a).0, Stage::Trim);
    assert_eq!(expect_finish(p.step(EditEvent::Succeeded)), Err(s("Invalid speed provided")));
}

#[test]
fn failures_end_the_edit() {
    let trim = || EditPipeline::start(request("1", "", ("0", "0", "1"), ("0", "1", "30")), outputs()).0;
    assert_eq!(expect_finish(trim().step(EditEvent::SpawnFailed)), Err(s("Failed to start video triming")));
    assert_eq!(expect_finish(trim().step(EditEvent::ExitedWithFailure)), Err(s("Video triming failed.")));
    assert_eq!(
        expect_finish(trim().step(EditEvent::Failed(s("boom")))),
        Err(s("Error while waiting for FFmpeg trim process: boom"))
    );
    let mut p = trim();
    p.step(EditEvent::Succeeded);
    assert_eq!(expect_finish(p.step(EditEvent::SpawnFailed)), Err(s("Failed to start video editing")));
    let mut p = trim();
    p.step(EditEvent::Succeeded);
    assert_eq!(expect_finish(p.step(EditEvent::ExitedWithFailure)), Err(s("Video editing failed.")));
    let mut p = trim();
    p.step(EditEvent::Succeeded);
    p.step(EditEvent::Succeeded);
    assert_eq!(
        expect_finish(p.step(EditEvent::Failed(s("Os { code: 2 }")))),
        Err(s("Failed to delete temp file: Os { code: 2 }"))
    );
    let mut p = trim();
    p.step(EditEvent::Succeeded);
    p.step(EditEvent::Succeeded);
    p.step(EditEvent::Succeeded);
    assert_eq!(expect_finish(p.step(EditEvent::SpawnFailed)), Err(s("Failed to start video compressing")));
    let mut p = trim();
    p.step(EditEvent::Succeeded);
    p.step(EditEvent::Succeeded);
    p.step(EditEvent::Succeeded);
    assert_eq!(expect_finish(p.step(EditEvent::ExitedWithFailure)), Err(s("Video compression failed.")));
    let mut p = trim();
    p.step(EditEvent::Succeeded);
    p.step(EditEvent::Succeeded);
    p.step(EditEvent::Succeeded);
    assert_eq!(
        expect_finish(p.step(EditEvent::Failed(s("x")))),
        Err(s("Error while waiting for FFmpeg compress process: x"))
    );
}
