//! Starting a recording: the name of the new file, and the ffmpeg command
//! lines that capture the screen and the microphone on each platform.
use vstd::prelude::*;
use std::fmt::Write;
use crate::text::{concat2, concat3, contains_seq, push_text, replace, replace_all, same_text, text_result, views};

verus! {

/// The operating systems the recorder knows.
#[derive(Clone, Copy, PartialEq, Eq, Structural, Debug)]
pub enum Platform {
    Windows,
    MacOs,
    Linux,
    Other,
}

pub open spec fn platform_named(os: Seq<char>) -> Platform {
    if os == "windows"@ {
        Platform::Windows
    } else if os == "macos"@ {
        Platform::MacOs
    } else if os == "linux"@ {
        Platform::Linux
    } else {
        Platform::Other
    }
}

/// The platform that `std::env::consts::OS` names.
pub fn platform_of(os: &str) -> (p: Platform)
    ensures
        p == platform_named(os@),
{
    if same_text(os, "windows") {
        Platform::Windows
    } else if same_text(os, "macos") {
        Platform::MacOs
    } else if same_text(os, "linux") {
        Platform::Linux
    } else {
        Platform::Other
    }
}

/// The `strftime` format of the time stamp in a recording's name.
pub const STAMP_FORMAT: &'static str = "%Y-%m-%d_%H-%M-%S";

pub open spec fn is_ascii_digit(c: char) -> bool {
    '0' <= c <= '9'
}

pub open spec fn all_ascii_digits(s: Seq<char>) -> bool {
    forall|i: int| 0 <= i < s.len() ==> is_ascii_digit(#[trigger] s[i])
}

/// `-MM-DD_HH-MM-SS`: month, day, hour, minute and second, two digits each.
pub open spec fn date_time_tail(t: Seq<char>) -> bool {
    &&& t.len() == 15
    &&& t[0] == '-' && t[3] == '-' && t[6] == '_' && t[9] == '-' && t[12] == '-'
    &&& forall|i: int|
        0 <= i < 15 && i != 0 && i != 3 && i != 6 && i != 9 && i != 12 ==> is_ascii_digit(
            #[trigger] t[i],
        )
}

/// A year as `%Y` writes it: four digits for the years 0 to 9999, else a
/// sign and at least four digits.
pub open spec fn year_text(y: Seq<char>) -> bool {
    ||| y.len() == 4 && all_ascii_digits(y)
    ||| y.len() >= 5 && (y[0] == '+' || y[0] == '-') && all_ascii_digits(y.skip(1))
}

/// A time stamp in `STAMP_FORMAT` (`%Y-%m-%d_%H-%M-%S`).
pub open spec fn stamp_text(t: Seq<char>) -> bool {
    &&& t.len() >= 19
    &&& year_text(t.take(t.len() - 15))
    &&& date_time_tail(t.skip(t.len() - 15))
}

/// `YYYY-MM-DD_HH-MM-SS`: 19 characters, `-` at 4, 7, 13 and 16, `_` at 10,
/// ASCII digits elsewhere.
pub open spec fn four_digit_year_stamp(t: Seq<char>) -> bool {
    &&& t.len() == 19
    &&& t[4] == '-' && t[7] == '-' && t[10] == '_' && t[13] == '-' && t[16] == '-'
    &&& forall|i: int|
        0 <= i < 19 && i != 4 && i != 7 && i != 10 && i != 13 && i != 16 ==> is_ascii_digit(
            #[trigger] t[i],
        )
}

/// Formats the current local time with `chrono::Local::now()` and
/// `DateTime::format(format)`, written into a `String`. Claimed: for
/// `STAMP_FORMAT` the result is `Some` and has the shape `stamp_text`, since
/// chrono renders its literals as they are, `%Y` as the year zero-padded to
/// four digits (with a sign outside the years 0 to 9999) and `%m`, `%d`,
/// `%H`, `%M`, `%S` zero-padded to two digits, and writing into a `String`
/// does not fail. Which time the digits give is left unsaid: it depends on
/// the clock and the time zone. A format that chrono cannot render gives
/// `None`.
#[verifier::external_body]
fn local_time_text(format: &str) -> (r: Option<String>)
    ensures
        format@ == STAMP_FORMAT@ ==> r is Some,
        format@ == STAMP_FORMAT@ ==> stamp_text(r->0@),
{
    let mut text = String::new();
    match write!(text, "{}", chrono::Local::now().format(format)) {
        Ok(()) => Some(text),
        Err(_) => None,
    }
}

pub open spec fn recording_name(stamp: Seq<char>) -> Seq<char> {
    "Recording_"@ + stamp + ".mp4"@
}

/// The name of a recording made at the time written `stamp`.
pub fn recording_file_name(stamp: &str) -> (r: String)
    ensures
        r@ == recording_name(stamp@),
{
    concat3("Recording_", stamp, ".mp4")
}

/// The name of a recording started now, `Recording_` + the local time in
/// `STAMP_FORMAT` + `.mp4`; the stamp always renders, so the result is
/// `Some`.
pub fn new_recording_file_name() -> (r: Option<String>)
    ensures
        r is Some,
        r matches Some(name) ==> exists|stamp: Seq<char>|
            stamp_text(stamp) && name@ == recording_name(stamp),
{
    match local_time_text(STAMP_FORMAT) {
        Some(stamp) => Some(recording_file_name(stamp.as_str())),
        None => None,
    }
}

/// A stamp of 19 characters has a four-digit year: it is
/// `YYYY-MM-DD_HH-MM-SS`.
pub proof fn law_short_stamp_shape(t: Seq<char>)
    requires
        stamp_text(t),
        t.len() == 19,
    ensures
        four_digit_year_stamp(t),
{
    let y = t.take(4);
    let d = t.skip(4);
    assert forall|i: int|
        0 <= i < 19 && i != 4 && i != 7 && i != 10 && i != 13 && i != 16 implies is_ascii_digit(
        #[trigger] t[i],
    ) by {
        if i < 4 {
            assert(y[i] == t[i]);
        } else {
            assert(d[i - 4] == t[i]);
        }
    }
    assert(d[0] == t[4] && d[3] == t[7] && d[6] == t[10] && d[9] == t[13] && d[12] == t[16]);
}

pub open spec fn audio_path_for(video: Seq<char>) -> Seq<char> {
    replace_all(video, ".mp4"@, "_audio.aac"@)
}

/// Where the sound of a recording goes: the video's path with every `.mp4`
/// replaced by `_audio.aac`.
pub fn audio_output_path(video_output: &str) -> (r: String)
    ensures
        r@ == audio_path_for(video_output@),
{
    proof {
        reveal_strlit(".mp4");
    }
    replace(video_output, ".mp4", "_audio.aac")
}

/// The input that the sound is recorded from: the microphone found, else the
/// default one.
pub open spec fn audio_input_text(found: Result<Seq<char>, Seq<char>>) -> Seq<char> {
    match found {
        Ok(device) => "audio="@ + device,
        Err(_) => "default"@,
    }
}

/// The `-i` argument of the sound recording, from the result of the search
/// for a microphone.
pub fn audio_input_arg(found: &Result<String, String>) -> (r: String)
    ensures
        r@ == audio_input_text(text_result(*found)),
{
    match found {
        Ok(device) => concat2("audio=", device.as_str()),
        Err(_) => String::from_str("default"),
    }
}

pub open spec fn encode_tail(output: Seq<char>) -> Seq<Seq<char>> {
    seq![
        "-c:v"@,
        "libx264"@,
        "-preset"@,
        "ultrafast"@,
        "-crf"@,
        "18"@,
        "-pix_fmt"@,
        "yuv420p"@,
        output,
    ]
}

/// The screen capture command of a platform, program first; `None` for a
/// platform without one.
pub open spec fn screen_command(p: Platform, output: Seq<char>) -> Option<Seq<Seq<char>>> {
    match p {
        Platform::Windows => Some(
            seq!["ffmpeg"@, "-f"@, "gdigrab"@, "-framerate"@, "30"@, "-i"@, "desktop"@]
                + encode_tail(output),
        ),
        Platform::MacOs => Some(
            seq!["ffmpeg"@, "-f"@, "avfoundation"@, "-framerate"@, "30"@, "-i"@, "1:0"@]
                + encode_tail(output),
        ),
        Platform::Linux => Some(
            seq!["ffmpeg"@, "-f"@, "x11grab"@, "-framerate"@, "30"@, "-i"@, ":0.0"@]
                + encode_tail(output),
        ),
        Platform::Other => None,
    }
}

/// The sound capture command of a platform, program first; `None` for a
/// platform without one.
pub open spec fn sound_command(p: Platform, input: Seq<char>, output: Seq<char>) -> Option<Seq<Seq<char>>> {
    let tail = seq!["-c:a"@, "aac"@, "-b:a"@, "128k"@, output];
    match p {
        Platform::Windows => Some(seq!["ffmpeg"@, "-f"@, "dshow"@, "-i"@, input] + tail),
        Platform::MacOs => Some(seq!["ffmpeg"@, "-f"@, "avfoundation"@, "-i"@, "none:0"@] + tail),
        Platform::Linux => Some(seq!["ffmpeg"@, "-f"@, "pulse"@, "-i"@, input] + tail),
        Platform::Other => None,
    }
}

/// The two capture commands of a recording.
pub struct CapturePlan {
    pub video: Vec<String>,
    pub audio: Vec<String>,
}

/// What a recording into `video_output` runs, with `found` the result of the
/// search for a microphone; "Unsupported platform" for an unknown platform.
pub open spec fn capture_plan(p: Platform, video_output: Seq<char>, found: Result<Seq<char>, Seq<char>>) -> Result<(Seq<Seq<char>>, Seq<Seq<char>>), Seq<char>> {
    match (screen_command(p, video_output), sound_command(p, audio_input_text(found), audio_path_for(video_output))) {
        (Some(v), Some(a)) => Ok((v, a)),
        _ => Err("Unsupported platform"@),
    }
}

/// Every known platform gets a plan; the screen capture writes to the
/// video output, and the sound capture writes to the video output with
/// every `.mp4` replaced by `_audio.aac`, which is another file whenever the
/// video output holds `.mp4`.
pub proof fn law_sound_beside_video(p: Platform, video_output: Seq<char>, found: Result<Seq<char>, Seq<char>>)
    ensures
        p != Platform::Other ==> capture_plan(p, video_output, found) is Ok,
        capture_plan(p, video_output, found) matches Ok((v, a)) ==> {
            &&& v.last() == video_output
            &&& a.last() == replace_all(video_output, ".mp4"@, "_audio.aac"@)
            &&& contains_seq(video_output, ".mp4"@) ==> a.last() != v.last()
        },
{
    reveal_strlit(".mp4");
    reveal_strlit("_audio.aac");
    crate::text::lemma_replace_lengthens(video_output, ".mp4"@, "_audio.aac"@);
}

fn push_encode_tail(v: &mut Vec<String>, output: &str)
    ensures
        views(final(v)@) == views(old(v)@) + encode_tail(output@),
{
    push_text(v, "-c:v");
    push_text(v, "libx264");
    push_text(v, "-preset");
    push_text(v, "ultrafast");
    push_text(v, "-crf");
    push_text(v, "18");
    push_text(v, "-pix_fmt");
    push_text(v, "yuv420p");
    push_text(v, output);
    assert(views(v@) =~= views(old(v)@) + encode_tail(output@));
}

/// The screen capture command, program first.
pub fn screen_capture_command(p: Platform, output: &str) -> (r: Option<Vec<String>>)
    ensures
        match r {
            Some(v) => screen_command(p, output@) == Some(views(v@)),
            None => screen_command(p, output@) is None,
        },
{
    let (grab, input) = match p {
        Platform::Windows => ("gdigrab", "desktop"),
        Platform::MacOs => ("avfoundation", "1:0"),
        Platform::Linux => ("x11grab", ":0.0"),
        Platform::Other => {
            return None;
        },
    };
    let mut v: Vec<String> = Vec::new();
    push_text(&mut v, "ffmpeg");
    push_text(&mut v, "-f");
    push_text(&mut v, grab);
    push_text(&mut v, "-framerate");
    push_text(&mut v, "30");
    push_text(&mut v, "-i");
    push_text(&mut v, input);
    push_encode_tail(&mut v, output);
    assert(views(v@) =~= screen_command(p, output@).unwrap());
    Some(v)
}

/// The sound capture command, program first.
pub fn sound_capture_command(p: Platform, input: &str, output: &str) -> (r: Option<Vec<String>>)
    ensures
        match r {
            Some(v) => sound_command(p, input@, output@) == Some(views(v@)),
            None => sound_command(p, input@, output@) is None,
        },
{
    let (format, source) = match p {
        Platform::Windows => ("dshow", input),
        Platform::MacOs => ("avfoundation", "none:0"),
        Platform::Linux => ("pulse", input),
        Platform::Other => {
            return None;
        },
    };
    let mut v: Vec<String> = Vec::new();
    push_text(&mut v, "ffmpeg");
    push_text(&mut v, "-f");
    push_text(&mut v, format);
    push_text(&mut v, "-i");
    push_text(&mut v, source);
    push_text(&mut v, "-c:a");
    push_text(&mut v, "aac");
    push_text(&mut v, "-b:a");
    push_text(&mut v, "128k");
    push_text(&mut v, output);
    assert(views(v@) =~= sound_command(p, input@, output@).unwrap());
    Some(v)
}

/// The capture commands of a recording into `video_output`, given the result
/// of the search for a microphone.
pub fn plan_capture(p: Platform, video_output: &str, found: &Result<String, String>) -> (r: Result<CapturePlan, String>)
    ensures
        match r {
            Ok(plan) => capture_plan(p, video_output@, text_result(*found)) == Ok::<
                (Seq<Seq<char>>, Seq<Seq<char>>),
                Seq<char>,
            >((views(plan.video@), views(plan.audio@))),
            Err(e) => capture_plan(p, video_output@, text_result(*found)) == Err::<
                (Seq<Seq<char>>, Seq<Seq<char>>),
                Seq<char>,
            >(e@),
        },
{
    let audio_output = audio_output_path(video_output);
    let input = audio_input_arg(found);
    let video = screen_capture_command(p, video_output);
    let audio = sound_capture_command(p, input.as_str(), audio_output.as_str());
    match (video, audio) {
        (Some(video), Some(audio)) => Ok(CapturePlan { video, audio }),
        _ => Err(String::from_str("Unsupported platform")),
    }
}

} // verus!
