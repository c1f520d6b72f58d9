use screen_recorder::merge::{
    concat_needed, plan_av_merge, plan_concat_merge, MergeAction, MergeEvent, MergeOp, MergeRun,
};
use screen_recorder::recording::{
    audio_input_arg, audio_output_path, new_recording_file_name, plan_capture, platform_of,
    recording_file_name, Platform,
};
use screen_recorder::stop::{folder_path, StopAction, StopEvent, StopFlow, StopPhase, Track};

fn s(x: &str) -> String {
    x.to_string()
}

fn strings(v: &[&str]) -> Vec<String> {
    v.iter().map(|x| x.to_string()).collect()
}

#[test]
fn platforms_by_name() {
    assert_eq!(platform_of("windows"), Platform::Windows);
    assert_eq!(platform_of("macos"), Platform::MacOs);
    assert_eq!(platform_of("linux"), Platform::Linux);
    assert_eq!(platform_of("freebsd"), Platform::Other);
    assert_eq!(platform_of("Windows"), Platform::Other);
}

#[test]
fn recording_names() {
    assert_eq!(recording_file_name("2024-05-06_07-08-09"), "Recording_2024-05-06_07-08-09.mp4");
    let name = new_recording_file_name().expect("the stamp format renders");
    assert!(name.starts_with("Recording_"));
    assert!(name.ends_with(".mp4"));
    let stamp = &name["Recording_".len()..name.len() - ".mp4".len()];
    assert_eq!(stamp.len(), 19);
    for (i, c) in stamp.chars().enumerate() {
        match i {
            4 | 7 | 13 | 16 => assert_eq!(c, '-'),
            10 => assert_eq!(c, '_'),
            _ => assert!(c.is_ascii_digit()),
        }
    }
    assert_ne!(name, "Recording_%Y-%m-%d_%H-%M-%S.mp4");
}

#[test]
fn audio_paths() {
    assert_eq!(audio_output_path("C:\\v\\Recording_1.mp4"), "C:\\v\\Recording_1_audio.aac");
    assert_eq!(audio_output_path("a.mp4.mp4"), "a_audio.aac_audio.aac");
    assert_eq!(audio_output_path("noext"), "noext");
}

#[test]
fn audio_input_argument() {
    assert_eq!(audio_input_arg(&Ok(s("Microphone (USB)"))), "audio=Microphone (USB)");
    assert_eq!(audio_input_arg(&Err(s("No microphone found"))), "default");
}

#[test]
fn capture_plan_windows() {
    let plan = plan_capture(Platform::Windows, "out.mp4", &Ok(s("Mic"))).ok().unwrap();
    assert_eq!(
        plan.video,
        strings(&["ffmpeg", "-f", "gdigrab", "-framerate", "30", "-i", "desktop", "-c:v", "libx264", "-preset", "ultrafast", "-crf", "18", "-pix_fmt", "yuv420p", "out.mp4"])
    );
    assert_eq!(
        plan.audio,
        strings(&["ffmpeg", "-f", "dshow", "-i", "audio=Mic", "-c:a", "aac", "-b:a", "128k", "out_audio.aac"])
    );
}

#[test]
fn capture_plan_macos_and_linux() {
    let plan = plan_capture(Platform::MacOs, "o.mp4", &Ok(s("1"))).ok().unwrap();
    assert_eq!(plan.video[2], "avfoundation");
    assert_eq!(plan.video[6], "1:0");
    assert_eq!(
        plan.audio,
        strings(&["ffmpeg", "-f", "avfoundation", "-i", "none:0", "-c:a", "aac", "-b:a", "128k", "o_audio.aac"])
    );
    let plan = plan_capture(Platform::Linux, "o.mp4", &Err(s("none"))).ok().unwrap();
    assert_eq!(plan.video[2], "x11grab");
    assert_eq!(plan.video[6], ":0.0");
    assert_eq!(plan.audio[2], "pulse");
    assert_eq!(plan.audio[4], "default");
}

#[test]
fn capture_plan_unknown_platform() {
    assert_eq!(plan_capture(Platform::Other, "o.mp4", &Ok(s("x"))).err(), Some(s("Unsupported platform")));
}

#[test]
fn av_merge_plan() {
    let p = plan_av_merge("v.mp4", "a.aac");
    assert_eq!(p.result, "v.mp4");
    assert_eq!(p.steps.len(), 4);
    match &p.steps[0].op {
        MergeOp::Shell(c) => assert_eq!(
            c,
            "ffmpeg -i v.mp4 -i a.aac -c:v copy -c:a aac -strict experimental v.mp4.merged_video_and_audio.mp4"
        ),
        _ => panic!(),
    }
    match &p.steps[3].op {
        MergeOp::Rename(a, b) => {
            assert_eq!(a, "v.mp4.merged_video_and_audio.mp4");
            assert_eq!(b, "v.mp4");
        }
        _ => panic!(),
    }
    assert_eq!(p.steps[1].failure, "Failed to delete video file: ");
    assert_eq!(p.steps[2].failure, "Failed to delete audio file: ");
}

#[test]
fn concat_merge_plan() {
    let p = plan_concat_merge("old.mp4", "new.mp4", "list.txt");
    assert_eq!(p.result, "old.mp4");
    assert_eq!(p.steps.len(), 6);
    match &p.steps[0].op {
        MergeOp::WriteList(path, content) => {
            assert_eq!(path, "list.txt");
            assert_eq!(content, "file 'old.mp4'\nfile 'new.mp4'");
        }
        _ => panic!(),
    }
    match &p.steps[1].op {
        MergeOp::Shell(c) => assert_eq!(c, "ffmpeg -f concat -safe 0 -i list.txt -c copy old.mp4.merged.mp4"),
        _ => panic!(),
    }
    match &p.steps[5].op {
        MergeOp::Remove(path) => assert_eq!(path, "list.txt"),
        _ => panic!(),
    }
    assert_eq!(p.steps[5].failure, "Failed to delete file list: ");
}

#[test]
fn concat_needed_only_for_different_files() {
    assert!(!concat_needed("a.mp4", "a.mp4"));
    assert!(concat_needed("a.mp4", "b.mp4"));
    assert!(!concat_needed("dir/a.mp4", "dir//a.mp4"));
    assert!(concat_needed("", "a.mp4"));
    assert!(concat_needed("Recording_1.mp4", "recording_1.mp4"));
    let earlier = folder_path("C:\\Users\\me\\Videos", "Recording_1.mp4");
    let joined = folder_path("C:\\Users\\me\\Videos", "Recording_2.mp4");
    assert!(concat_needed(&earlier, &joined));
    assert!(!concat_needed(&earlier, &earlier));
    assert!(concat_needed(&folder_path("/home/me/Videos", "a.mp4"), &folder_path("/home/me/Videos", "b.mp4")));
}

#[test]
fn merge_run_all_steps() {
    let (mut run, mut action) = MergeRun::start(plan_av_merge("v.mp4", "a.aac"));
    let mut seen = 0;
    loop {
        match action {
            MergeAction::Do(_) => {
                seen += 1;
                action = run.step(MergeEvent::Succeeded);
            }
            MergeAction::Finish(r) => {
                assert_eq!(r, Ok(s("v.mp4")));
                break;
            }
        }
    }
    assert_eq!(seen, 4);
}

#[test]
fn merge_run_failures() {
    let (mut run, _) = MergeRun::start(plan_av_merge("v.mp4", "a.aac"));
    match run.step(MergeEvent::Unsuccessful(s("ExitStatus(1)"))) {
        MergeAction::Finish(r) => assert_eq!(r, Err(s("Merge command failed with status: ExitStatus(1)"))),
        _ => panic!(),
    }
    let (mut run, _) = MergeRun::start(plan_av_merge("v.mp4", "a.aac"));
    match run.step(MergeEvent::Failed(s("NotFound"))) {
        MergeAction::Finish(r) => assert_eq!(r, Err(s("Failed to execute merge command: NotFound"))),
        _ => panic!(),
    }
    let (mut run, _) = MergeRun::start(plan_av_merge("v.mp4", "a.aac"));
    run.step(MergeEvent::Succeeded);
    run.step(MergeEvent::Succeeded);
    match run.step(MergeEvent::Failed(s("denied"))) {
        MergeAction::Finish(r) => assert_eq!(r, Err(s("Failed to delete audio file: denied"))),
        _ => panic!(),
    }
    let (mut run, _) = MergeRun::start(plan_concat_merge("a", "b", "l"));
    match run.step(MergeEvent::CreateFailed(s("denied"))) {
        MergeAction::Finish(r) => assert_eq!(r, Err(s("Failed to create file list: denied"))),
        _ => panic!(),
    }
    let (mut run, _) = MergeRun::start(plan_concat_merge("a", "b", "l"));
    match run.step(MergeEvent::Failed(s("full"))) {
        MergeAction::Finish(r) => assert_eq!(r, Err(s("Failed to write to file list: full"))),
        _ => panic!(),
    }
}

#[test]
fn folder_paths_use_backslash() {
    assert_eq!(folder_path("C:\\Videos", "Recording_1.mp4"), "C:\\Videos\\Recording_1.mp4");
}

fn finish(a: StopAction) -> Result<String, String> {
    match a {
        StopAction::Finish(r) => r,
        _ => panic!("expected the end"),
    }
}

#[test]
fn stop_with_earlier_recording() {
    let (mut f, a) = StopFlow::start(s("D"), s("Recording_2.mp4"), s("Recording_1.mp4"));
    assert!(matches!(a, StopAction::Stop(Track::Video)));
    assert!(matches!(f.step(StopEvent::Exited(true, s("ok"))), StopAction::Stop(Track::Audio)));
    match f.step(StopEvent::Exited(true, s("ok"))) {
        StopAction::MergeAudioVideo(v, a) => {
            assert_eq!(v, "D\\Recording_2.mp4");
            assert_eq!(a, "D\\Recording_2_audio.aac");
        }
        _ => panic!(),
    }
    match f.step(StopEvent::Merged(Ok(s("D\\Recording_2.mp4")))) {
        StopAction::MergeVideos(a, b) => {
            assert_eq!(a, "D\\Recording_1.mp4");
            assert_eq!(b, "D\\Recording_2.mp4");
        }
        _ => panic!(),
    }
    assert_eq!(finish(f.step(StopEvent::Merged(Ok(s("D\\Recording_1.mp4"))))), Ok(s("D\\Recording_1.mp4")));
    assert_eq!(f.phase, StopPhase::Done);
}

#[test]
fn stop_without_earlier_recording() {
    let (mut f, _) = StopFlow::start(s("D"), s("R.mp4"), s(""));
    f.step(StopEvent::Exited(true, s("")));
    f.step(StopEvent::Exited(true, s("")));
    assert_eq!(finish(f.step(StopEvent::Merged(Ok(s("D\\R.mp4"))))), Ok(s("")));
}

#[test]
fn stop_join_failures_give_empty_paths() {
    let (mut f, _) = StopFlow::start(s("D"), s("R.mp4"), s("E.mp4"));
    f.step(StopEvent::Exited(true, s("")));
    f.step(StopEvent::Exited(true, s("")));
    match f.step(StopEvent::Merged(Err(s("failed")))) {
        StopAction::MergeVideos(a, b) => {
            assert_eq!(a, "D\\E.mp4");
            assert_eq!(b, "");
        }
        _ => panic!(),
    }
    assert_eq!(finish(f.step(StopEvent::Merged(Err(s("failed"))))), Ok(s("")));
}

#[test]
fn stop_errors() {
    let start = || StopFlow::start(s("D"), s("R.mp4"), s("")).0;
    assert_eq!(finish(start().step(StopEvent::NoProcess)), Err(s("No video recording process found.")));
    assert_eq!(finish(start().step(StopEvent::QuitFailed)), Err(s("Failed to stop video recording")));
    assert_eq!(
        finish(start().step(StopEvent::Exited(false, s("exit status: 1")))),
        Err(s("FFmpeg video process exited with error: exit status: 1"))
    );
    assert_eq!(
        finish(start().step(StopEvent::WaitFailed(s("e")))),
        Err(s("Error waiting for FFmpeg video process: e"))
    );
    let mut f = start();
    f.step(StopEvent::Exited(true, s("")));
    assert_eq!(finish(f.step(StopEvent::NoProcess)), Err(s("No audio recording process found.")));
    let mut f = start();
    f.step(StopEvent::Exited(true, s("")));
    assert_eq!(finish(f.step(StopEvent::QuitFailed)), Err(s("Failed to stop audio recording")));
    let mut f = start();
    f.step(StopEvent::Exited(true, s("")));
    assert_eq!(
        finish(f.step(StopEvent::Exited(false, s("x")))),
        Err(s("FFmpeg audio process exited with error: x"))
    );
    let mut f = start();
    f.step(StopEvent::Exited(true, s("")));
    assert_eq!(
        finish(f.step(StopEvent::WaitFailed(s("y")))),
        Err(s("Error waiting for FFmpeg audio process: y"))
    );
}
