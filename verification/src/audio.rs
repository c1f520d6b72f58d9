//! Sound input: the check for an audio routing tool, the command that lists
//! the sound devices on each platform, and the reading of the device to
//! record from out of what that command prints.
use vstd::prelude::*;
use crate::recording::Platform;
use crate::text::{
    chars_of, concat2, contains, contains_seq, first_index_of, push_text, split, split_on, views,
};

verus! {

/// How the presence of an audio routing tool is checked.
pub enum ToolCheck {
    /// Nothing to check: the platform needs no tool.
    Present,
    /// Run this command (program first); when it fails, the tool is missing
    /// and this is the answer.
    Probe(Vec<String>, String),
    /// The platform is not known.
    Unsupported,
}

pub enum ToolCheckModel {
    Present,
    Probe(Seq<Seq<char>>, Seq<char>),
    Unsupported,
}

impl View for ToolCheck {
    type V = ToolCheckModel;

    open spec fn view(&self) -> ToolCheckModel {
        match self {
            ToolCheck::Present => ToolCheckModel::Present,
            ToolCheck::Probe(c, m) => ToolCheckModel::Probe(views(c@), m@),
            ToolCheck::Unsupported => ToolCheckModel::Unsupported,
        }
    }
}

pub open spec fn tool_check_of(p: Platform) -> ToolCheckModel {
    match p {
        Platform::Windows => ToolCheckModel::Probe(
            seq!["where"@, "VirtualCable"@],
            "VB-Audio Virtual Cable not found"@,
        ),
        Platform::MacOs => ToolCheckModel::Probe(
            seq!["brew"@, "list"@, "blackhole-16ch"@],
            "BlackHole not found"@,
        ),
        Platform::Linux => ToolCheckModel::Present,
        Platform::Other => ToolCheckModel::Unsupported,
    }
}

/// How to check for the audio routing tool of a platform (VB-Audio Virtual
/// Cable on Windows, BlackHole on macOS).
pub fn audio_tool_check(p: Platform) -> (r: ToolCheck)
    ensures
        r@ == tool_check_of(p),
{
    match p {
        Platform::Windows => {
            let mut c: Vec<String> = Vec::new();
            push_text(&mut c, "where");
            push_text(&mut c, "VirtualCable");
            assert(views(c@) =~= seq!["where"@, "VirtualCable"@]);
            ToolCheck::Probe(c, String::from_str("VB-Audio Virtual Cable not found"))
        },
        Platform::MacOs => {
            let mut c: Vec<String> = Vec::new();
            push_text(&mut c, "brew");
            push_text(&mut c, "list");
            push_text(&mut c, "blackhole-16ch");
            assert(views(c@) =~= seq!["brew"@, "list"@, "blackhole-16ch"@]);
            ToolCheck::Probe(c, String::from_str("BlackHole not found"))
        },
        Platform::Linux => ToolCheck::Present,
        Platform::Other => ToolCheck::Unsupported,
    }
}

/// The answer of the check, with `outcome` what came of the probe when one
/// ran: whether it exited successfully, or why it could not run.
pub open spec fn tool_answer_of(check: ToolCheckModel, outcome: Result<bool, Seq<char>>) -> Result<bool, Seq<char>> {
    match check {
        ToolCheckModel::Present => Ok(true),
        ToolCheckModel::Unsupported => Err("Unsupported platform"@),
        ToolCheckModel::Probe(_, missing) => match outcome {
            Err(e) => Err("Failed to execute command: "@ + e),
            Ok(true) => Ok(true),
            Ok(false) => Err(missing),
        },
    }
}

/// Whether the audio routing tool is there, from the check and the probe's
/// outcome (ignored when no probe runs).
pub fn audio_tool_answer(check: &ToolCheck, outcome: &Result<bool, String>) -> (r: Result<bool, String>)
    ensures
        (match r {
            Ok(b) => Ok(b),
            Err(e) => Err(e@),
        }) == tool_answer_of(check@, match outcome {
            Ok(b) => Ok(*b),
            Err(e) => Err(e@),
        }),
{
    match check {
        ToolCheck::Present => Ok(true),
        ToolCheck::Unsupported => Err(String::from_str("Unsupported platform")),
        ToolCheck::Probe(_, missing) => match outcome {
            Err(e) => Err(concat2("Failed to execute command: ", e.as_str())),
            Ok(true) => Ok(true),
            Ok(false) => Err(missing.clone()),
        },
    }
}

/// Which output of the listing command holds the devices.
#[derive(Clone, Copy, PartialEq, Eq, Structural, Debug)]
pub enum Stream {
    Stdout,
    Stderr,
}

/// The command that lists the sound devices (program first) and the output
/// that holds the list.
pub struct DeviceQuery {
    pub command: Vec<String>,
    pub stream: Stream,
}

pub open spec fn device_query_of(p: Platform) -> Option<(Seq<Seq<char>>, Stream)> {
    match p {
        Platform::Windows => Some(
            (
                seq!["ffmpeg"@, "-list_devices"@, "true"@, "-f"@, "dshow"@, "-i"@, "dummy"@],
                Stream::Stderr,
            ),
        ),
        Platform::MacOs => Some(
            (
                seq!["ffmpeg"@, "-f"@, "avfoundation"@, "-list_devices"@, "true"@, "-i"@, "dummy"@],
                Stream::Stderr,
            ),
        ),
        Platform::Linux => Some((seq!["pactl"@, "list"@, "sources"@], Stream::Stdout)),
        Platform::Other => None,
    }
}

/// The device listing of a platform; `None` for an unknown platform, which
/// is answered "Unsupported platform".
pub fn audio_device_query(p: Platform) -> (r: Option<DeviceQuery>)
    ensures
        match r {
            Some(q) => device_query_of(p) == Some((views(q.command@), q.stream)),
            None => device_query_of(p) is None,
        },
{
    let mut c: Vec<String> = Vec::new();
    match p {
        Platform::Windows => {
            push_text(&mut c, "ffmpeg");
            push_text(&mut c, "-list_devices");
            push_text(&mut c, "true");
            push_text(&mut c, "-f");
            push_text(&mut c, "dshow");
            push_text(&mut c, "-i");
            push_text(&mut c, "dummy");
            assert(views(c@) =~= device_query_of(p).unwrap().0);
            Some(DeviceQuery { command: c, stream: Stream::Stderr })
        },
        Platform::MacOs => {
            push_text(&mut c, "ffmpeg");
            push_text(&mut c, "-f");
            push_text(&mut c, "avfoundation");
            push_text(&mut c, "-list_devices");
            push_text(&mut c, "true");
            push_text(&mut c, "-i");
            push_text(&mut c, "dummy");
            assert(views(c@) =~= device_query_of(p).unwrap().0);
            Some(DeviceQuery { command: c, stream: Stream::Stderr })
        },
        Platform::Linux => {
            push_text(&mut c, "pactl");
            push_text(&mut c, "list");
            push_text(&mut c, "sources");
            assert(views(c@) =~= device_query_of(p).unwrap().0);
            Some(DeviceQuery { command: c, stream: Stream::Stdout })
        },
        Platform::Other => None,
    }
}

/// Unicode's `White_Space` property, which `char::is_whitespace` tests: the
/// controls U+0009 to U+000D, space, U+0085, no-break space, U+1680, the
/// spaces U+2000 to U+200A, the line and paragraph separators, U+202F,
/// U+205F and the ideographic space.
pub open spec fn unicode_white_space(c: char) -> bool {
    ||| '\u{9}' <= c <= '\u{d}'
    ||| c == '\u{20}'
    ||| c == '\u{85}'
    ||| c == '\u{a0}'
    ||| c == '\u{1680}'
    ||| '\u{2000}' <= c <= '\u{200a}'
    ||| c == '\u{2028}'
    ||| c == '\u{2029}'
    ||| c == '\u{202f}'
    ||| c == '\u{205f}'
    ||| c == '\u{3000}'
}

/// Whether `c` is white space, as `char::is_whitespace` answers.
pub fn is_white_space(c: char) -> (r: bool)
    ensures
        r == unicode_white_space(c),
{
    ('\u{9}' <= c && c <= '\u{d}') || c == '\u{20}' || c == '\u{85}' || c == '\u{a0}' || c
        == '\u{1680}' || ('\u{2000}' <= c && c <= '\u{200a}') || c == '\u{2028}' || c
        == '\u{2029}' || c == '\u{202f}' || c == '\u{205f}' || c == '\u{3000}'
}

/// The words of `s`: its maximal runs of characters that are not white
/// space, in order, as `str::split_whitespace` gives them.
pub open spec fn words(s: Seq<char>) -> Seq<Seq<char>>
    decreases s.len(),
{
    if s.len() == 0 {
        Seq::<Seq<char>>::empty()
    } else {
        let t = words(s.drop_last());
        let c = s.last();
        if unicode_white_space(c) {
            t
        } else if s.len() >= 2 && !unicode_white_space(s[s.len() - 2]) && t.len() > 0 {
            t.update(t.len() - 1, t.last().push(c))
        } else {
            t.push(seq![c])
        }
    }
}

/// The words of `s`.
pub fn split_words(s: &str) -> (r: Vec<String>)
    ensures
        views(r@) == words(s@),
{
    let sv = chars_of(s);
    let n = sv.len();
    let mut done: Vec<String> = Vec::new();
    let mut start: usize = 0;
    let mut in_word = false;
    let mut i: usize = 0;
    assert(s@.take(0) =~= Seq::<char>::empty());
    while i < n
        invariant
            sv@ == s@,
            n == s@.len(),
            i <= n,
            start <= i,
            in_word ==> start < i,
            in_word <==> (i > 0 && !unicode_white_space(s@[i - 1])),
            in_word ==> views(done@).push(s@.subrange(start as int, i as int)) == words(s@.take(i as int)),
            !in_word ==> views(done@) == words(s@.take(i as int)),
        decreases n - i,
    {
        let c = sv[i];
        let ghost t = s@.take(i + 1);
        assert(t.drop_last() =~= s@.take(i as int));
        assert(t.last() == c);
        if is_white_space(c) {
            if in_word {
                done.push(String::from_str(s.substring_char(start, i)));
                in_word = false;
            }
        } else {
            if in_word {
                assert(t[t.len() - 2] == s@[i - 1]);
                assert(s@.subrange(start as int, i + 1) =~= s@.subrange(start as int, i as int).push(c));
            } else {
                start = i;
                in_word = true;
                assert(s@.subrange(start as int, i + 1) =~= seq![c]);
                if i > 0 {
                    assert(t[t.len() - 2] == s@[i - 1]);
                }
            }
        }
        i = i + 1;
        proof {
            if in_word {
                assert(views(done@).push(s@.subrange(start as int, i as int)) =~= words(s@.take(i as int)));
            } else {
                assert(views(done@) =~= words(s@.take(i as int)));
            }
        }
    }
    if in_word {
        done.push(String::from_str(s.substring_char(start, n)));
    }
    assert(s@.take(n as int) =~= s@);
    assert(views(done@) =~= words(s@));
    done
}

/// Index of the last occurrence of `c` in `s`, if any.
pub open spec fn last_index_of(s: Seq<char>, c: char) -> Option<int> {
    if exists|i: int| 0 <= i < s.len() && s[i] == c {
        Some(choose|i: int| 0 <= i < s.len() && s[i] == c && forall|j: int| i < j < s.len() ==> s[j] != c)
    } else {
        None
    }
}

/// Whether a line of a device listing names the device to record from.
pub open spec fn names_device(p: Platform, line: Seq<char>) -> bool {
    match p {
        Platform::Windows => contains_seq(line, "audio"@) && contains_seq(line, "Microphone"@),
        Platform::MacOs => contains_seq(line, "audio"@),
        Platform::Linux => contains_seq(line, "Name:"@) && contains_seq(line, "microphone"@),
        Platform::Other => false,
    }
}

/// Index of the first line that names the device, if any.
pub open spec fn first_device_line(p: Platform, lines: Seq<Seq<char>>) -> Option<int> {
    if exists|i: int| 0 <= i < lines.len() && names_device(p, lines[i]) {
        Some(
            choose|i: int|
                0 <= i < lines.len() && names_device(p, lines[i]) && forall|j: int|
                    0 <= j < i ==> !names_device(p, lines[j]),
        )
    } else {
        None
    }
}

/// On Windows the device is the text between the first and the last `"`
/// of the line; without a `"`, the line from its second character on.
pub open spec fn quoted_device(line: Seq<char>) -> Seq<char> {
    let start = match first_index_of(line, '"') {
        Some(i) => i + 1,
        None => 1,
    };
    let end = match last_index_of(line, '"') {
        Some(j) => j,
        None => line.len() as int,
    };
    line.subrange(start, end)
}

/// The Windows line can be cut as described: two distinct `"`, or none and
/// a first character that takes one byte.
pub open spec fn quoted_device_cuttable(line: Seq<char>) -> bool {
    match (first_index_of(line, '"'), last_index_of(line, '"')) {
        (Some(i), Some(j)) => i < j,
        _ => line.len() > 0 && (line[0] as int) < 128,
    }
}

/// On macOS the device is the index between the first `[` and the `]`
/// after it, or `0` when the line has no `[`.
pub open spec fn bracketed_device(line: Seq<char>) -> Seq<char> {
    let parts = split_on(line, '[');
    if parts.len() >= 2 {
        split_on(parts[1], ']')[0]
    } else {
        "0"@
    }
}

/// On Linux the device is the second word of the line, or `default`.
pub open spec fn second_word_device(line: Seq<char>) -> Seq<char> {
    let w = words(line);
    if w.len() >= 2 {
        w[1]
    } else {
        "default"@
    }
}

pub open spec fn device_in_line(p: Platform, line: Seq<char>) -> Seq<char> {
    match p {
        Platform::Windows => quoted_device(line),
        Platform::MacOs => bracketed_device(line),
        _ => second_word_device(line),
    }
}

pub open spec fn no_device_message(p: Platform) -> Seq<char> {
    match p {
        Platform::Windows => "No microphone found"@,
        Platform::MacOs => "No audio input device found"@,
        Platform::Linux => "No microphone found"@,
        Platform::Other => "Unsupported platform"@,
    }
}

/// The device to record from, read from the device listing `text`: from
/// the first line of the listing that names one.
pub open spec fn device_answer(p: Platform, text: Seq<char>) -> Result<Seq<char>, Seq<char>> {
    let lines = split_on(text, '\n');
    if p == Platform::Other {
        Err("Unsupported platform"@)
    } else {
        match first_device_line(p, lines) {
            Some(i) => Ok(device_in_line(p, lines[i])),
            None => Err(no_device_message(p)),
        }
    }
}

/// The listing can be read without cutting a line where it cannot be cut.
pub open spec fn device_listing_readable(p: Platform, text: Seq<char>) -> bool {
    let lines = split_on(text, '\n');
    p == Platform::Windows ==> match first_device_line(p, lines) {
        Some(i) => quoted_device_cuttable(lines[i]),
        None => true,
    }
}

fn names_device_exec(p: Platform, line: &str) -> (r: bool)
    ensures
        r == names_device(p, line@),
{
    match p {
        Platform::Windows => contains(line, "audio") && contains(line, "Microphone"),
        Platform::MacOs => contains(line, "audio"),
        Platform::Linux => contains(line, "Name:") && contains(line, "microphone"),
        Platform::Other => false,
    }
}

/// The first line of the listing that names a device, with its index.
fn find_device_line(p: Platform, lines: &Vec<String>) -> (r: Option<usize>)
    ensures
        match r {
            Some(i) => first_device_line(p, views(lines@)) == Some(i as int) && i < lines@.len(),
            None => first_device_line(p, views(lines@)) is None,
        },
{
    let ghost ls = views(lines@);
    let mut i: usize = 0;
    while i < lines.len()
        invariant
            ls == views(lines@),
            i <= lines@.len(),
            forall|j: int| 0 <= j < i ==> !names_device(p, ls[j]),
        decreases lines@.len() - i,
    {
        assert(ls[i as int] == lines@[i as int]@);
        if names_device_exec(p, lines[i].as_str()) {
            let ghost w = choose|k: int|
                0 <= k < ls.len() && names_device(p, ls[k]) && forall|j: int|
                    0 <= j < k ==> !names_device(p, ls[j]);
            assert(0 <= i < ls.len() && names_device(p, ls[i as int]) && forall|j: int|
                0 <= j < i ==> !names_device(p, ls[j]));
            assert(w == i) by {
                if w < i {
                    assert(!names_device(p, ls[w]));
                }
                if i < w {
                    assert(!names_device(p, ls[i as int]));
                }
            }
            return Some(i);
        }
        i = i + 1;
    }
    None
}

fn first_index_exec(sv: &Vec<char>, c: char) -> (r: Option<usize>)
    ensures
        match r {
            Some(i) => first_index_of(sv@, c) == Some(i as int) && i < sv@.len(),
            None => first_index_of(sv@, c) is None,
        },
{
    let mut i: usize = 0;
    while i < sv.len()
        invariant
            i <= sv@.len(),
            forall|j: int| 0 <= j < i ==> sv@[j] != c,
        decreases sv@.len() - i,
    {
        if sv[i] == c {
            let ghost w = choose|k: int| 0 <= k < sv@.len() && sv@[k] == c && forall|j: int| 0 <= j < k ==> sv@[j] != c;
            assert(0 <= i < sv@.len() && sv@[i as int] == c && forall|j: int| 0 <= j < i ==> sv@[j] != c);
            assert(w == i) by {
                if w < i {
                    assert(sv@[w] != c);
                }
                if i < w {
                    assert(sv@[i as int] != c);
                }
            }
            return Some(i);
        }
        i = i + 1;
    }
    None
}

fn last_index_exec(sv: &Vec<char>, c: char) -> (r: Option<usize>)
    ensures
        match r {
            Some(i) => last_index_of(sv@, c) == Some(i as int) && i < sv@.len(),
            None => last_index_of(sv@, c) is None,
        },
{
    let mut k: usize = sv.len();
    while k > 0
        invariant
            k <= sv@.len(),
            forall|j: int| k <= j < sv@.len() ==> sv@[j] != c,
        decreases k,
    {
        let i = k - 1;
        if sv[i] == c {
            let ghost w = choose|m: int| 0 <= m < sv@.len() && sv@[m] == c && forall|j: int| m < j < sv@.len() ==> sv@[j] != c;
            assert(0 <= i < sv@.len() && sv@[i as int] == c && forall|j: int| i < j < sv@.len() ==> sv@[j] != c);
            assert(w == i) by {
                if w < i {
                    assert(sv@[i as int] != c);
                }
                if i < w {
                    assert(sv@[w] != c);
                }
            }
            return Some(i);
        }
        k = i;
    }
    None
}

fn quoted_device_cuttable_exec(line: &str) -> (r: bool)
    ensures
        r == quoted_device_cuttable(line@),
{
    let sv = chars_of(line);
    match (first_index_exec(&sv, '"'), last_index_exec(&sv, '"')) {
        (Some(i), Some(j)) => i < j,
        _ => sv.len() > 0 && sv[0] < '\u{80}',
    }
}

fn quoted_device_exec(line: &str) -> (r: String)
    requires
        quoted_device_cuttable(line@),
    ensures
        r@ == quoted_device(line@),
{
    let sv = chars_of(line);
    let first = first_index_exec(&sv, '"');
    let last = last_index_exec(&sv, '"');
    let start = match first {
        Some(i) => i + 1,
        None => 1,
    };
    let end = match last {
        Some(j) => j,
        None => sv.len(),
    };
    proof {
        if first is Some {
            assert(last is Some);
        }
        if first is None {
            assert(last is None);
        }
    }
    String::from_str(line.substring_char(start, end))
}

fn bracketed_device_exec(line: &str) -> (r: String)
    ensures
        r@ == bracketed_device(line@),
{
    let parts = split(line, '[');
    if parts.len() >= 2 {
        assert(views(parts@)[1] == parts@[1]@);
        let inner = split(parts[1].as_str(), ']');
        proof {
            crate::text::lemma_split_nonempty(parts@[1]@, ']');
        }
        assert(views(inner@)[0] == inner@[0]@);
        inner[0].clone()
    } else {
        String::from_str("0")
    }
}

fn second_word_device_exec(line: &str) -> (r: String)
    ensures
        r@ == second_word_device(line@),
{
    let w = split_words(line);
    if w.len() >= 2 {
        assert(views(w@)[1] == w@[1]@);
        w[1].clone()
    } else {
        String::from_str("default")
    }
}

/// Whether the listing `text` can be read on platform `p` (on Windows the
/// device line must be cuttable).
pub fn audio_device_listing_readable(p: Platform, text: &str) -> (r: bool)
    ensures
        r == device_listing_readable(p, text@),
{
    if p != Platform::Windows {
        return true;
    }
    let lines = split(text, '\n');
    match find_device_line(p, &lines) {
        Some(i) => {
            assert(views(lines@)[i as int] == lines@[i as int]@);
            quoted_device_cuttable_exec(lines[i].as_str())
        },
        None => true,
    }
}

/// The device to record from, read from the device listing `text` that
/// `audio_device_query` names; the error says why there is none.
pub fn find_audio_device(p: Platform, text: &str) -> (r: Result<String, String>)
    requires
        device_listing_readable(p, text@),
    ensures
        crate::text::text_result(r) == device_answer(p, text@),
{
    if p == Platform::Other {
        return Err(String::from_str("Unsupported platform"));
    }
    let lines = split(text, '\n');
    match find_device_line(p, &lines) {
        Some(i) => {
            assert(views(lines@)[i as int] == lines@[i as int]@);
            let line = lines[i].as_str();
            let device = match p {
                Platform::Windows => quoted_device_exec(line),
                Platform::MacOs => bracketed_device_exec(line),
                _ => second_word_device_exec(line),
            };
            Ok(device)
        },
        None => Err(
            String::from_str(
                match p {
                    Platform::Windows => "No microphone found",
                    Platform::MacOs => "No audio input device found",
                    _ => "No microphone found",
                },
            ),
        ),
    }
}

} // verus!
