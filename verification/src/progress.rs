//! Reading times: the `h:m:s` fields of a duration, and the `time=` fields
//! that ffmpeg prints on its progress lines.
use vstd::prelude::*;
use crate::edit::clock_text;
use crate::text::{contains, contains_seq, join_with, lemma_split_nonempty, split, split_on, views};

verus! {

/// The three fields of a duration written `hours:minutes:seconds`, or `None`
/// when it does not split into exactly three fields at `:`.
pub open spec fn duration_field_texts(duration: Seq<char>) -> Option<(Seq<char>, Seq<char>, Seq<char>)> {
    let parts = split_on(duration, ':');
    if parts.len() == 3 {
        Some((parts[0], parts[1], parts[2]))
    } else {
        None
    }
}

/// The hours, minutes and seconds fields of a duration, as text; `None`
/// unless splitting at `:` gives exactly three fields.
pub fn duration_fields(duration: &str) -> (r: Option<(String, String, String)>)
    ensures
        match r {
            Some((h, m, s)) => duration_field_texts(duration@) == Some((h@, m@, s@)),
            None => duration_field_texts(duration@) is None,
        },
{
    let parts = split(duration, ':');
    if parts.len() == 3 {
        let h = parts[0].clone();
        let m = parts[1].clone();
        let s = parts[2].clone();
        assert(views(parts@)[0] == parts@[0]@);
        assert(views(parts@)[1] == parts@[1]@);
        assert(views(parts@)[2] == parts@[2]@);
        Some((h, m, s))
    } else {
        None
    }
}

/// The marker of the lines of ffmpeg's progress report that carry a time.
pub open spec fn is_progress_line_text(line: Seq<char>) -> bool {
    contains_seq(line, "out_time="@)
}

/// Whether a line of ffmpeg's progress report carries the time reached.
pub fn is_progress_line(line: &str) -> (r: bool)
    ensures
        r == is_progress_line_text(line@),
{
    contains(line, "out_time=")
}

/// The pattern of the time on a progress line.
pub const PROGRESS_PATTERN: &'static str = "time=(\\d+):(\\d+):(\\d+\\.\\d+)";

/// Name for what `regex::Regex::new(pattern)` followed by
/// `Regex::captures(text)` and `Captures::get(group)` gives back, as text:
/// the text of capture group `group` in the leftmost-first match of
/// `pattern` in `text`.
pub uninterp spec fn regex_capture(pattern: Seq<char>, text: Seq<char>, group: nat) -> Option<Seq<char>>;

/// Compiles `pattern` with `regex::Regex::new`, searches `text` with
/// `Regex::captures` and returns the text of group `group` of the match
/// (`Captures::get`, `Match::as_str`). Claimed: the result is the named
/// `regex_capture`, and a group's text is a piece of `text`, as regex's
/// documentation says of `Match::as_str`. What the match is, is left to the
/// name. A pattern that does not compile gives `None` here.
#[verifier::external_body]
fn regex_group(pattern: &str, text: &str, group: usize) -> (r: Option<String>)
    ensures
        match r {
            Some(g) => regex_capture(pattern@, text@, group as nat) == Some(g@),
            None => regex_capture(pattern@, text@, group as nat) is None,
        },
        r matches Some(g) ==> contains_seq(text@, g@),
{
    let re = match regex::Regex::new(pattern) {
        Ok(re) => re,
        Err(_) => return None,
    };
    let caps = match re.captures(text) {
        Some(caps) => caps,
        None => return None,
    };
    match caps.get(group) {
        Some(m) => Some(m.as_str().to_string()),
        None => None,
    }
}

/// The hours, minutes and seconds captured from a progress line by
/// `PROGRESS_PATTERN`, when all three groups are there.
pub open spec fn progress_field_texts(line: Seq<char>) -> Option<(Seq<char>, Seq<char>, Seq<char>)> {
    match (
        regex_capture(PROGRESS_PATTERN@, line, 1),
        regex_capture(PROGRESS_PATTERN@, line, 2),
        regex_capture(PROGRESS_PATTERN@, line, 3),
    ) {
        (Some(h), Some(m), Some(s)) => Some((h, m, s)),
        _ => None,
    }
}

/// The hours, minutes and seconds of the time on a progress line, as text.
pub fn progress_fields(line: &str) -> (r: Option<(String, String, String)>)
    ensures
        match r {
            Some((h, m, s)) => progress_field_texts(line@) == Some((h@, m@, s@)),
            None => progress_field_texts(line@) is None,
        },
        r matches Some((h, m, s)) ==> contains_seq(line@, h@) && contains_seq(line@, m@)
            && contains_seq(line@, s@),
{
    let h = regex_group(PROGRESS_PATTERN, line, 1);
    let m = regex_group(PROGRESS_PATTERN, line, 2);
    let s = regex_group(PROGRESS_PATTERN, line, 3);
    match (h, m, s) {
        (Some(h), Some(m), Some(s)) => Some((h, m, s)),
        _ => None,
    }
}

proof fn lemma_split_no_sep(s: Seq<char>, sep: char)
    requires
        !s.contains(sep),
    ensures
        split_on(s, sep) == seq![s],
    decreases s.len(),
{
    if s.len() > 0 {
        assert(!s.drop_last().contains(sep)) by {
            if s.drop_last().contains(sep) {
                let i = choose|i: int| 0 <= i < s.drop_last().len() && s.drop_last()[i] == sep;
                assert(s[i] == sep);
            }
        }
        lemma_split_no_sep(s.drop_last(), sep);
        assert(s[s.len() - 1] != sep);
        assert(s.drop_last().push(s.last()) =~= s);
    } else {
        assert(s =~= Seq::<char>::empty());
    }
}

proof fn lemma_split_append(a: Seq<char>, b: Seq<char>, sep: char)
    ensures
        split_on(a.push(sep) + b, sep) == split_on(a, sep) + split_on(b, sep),
    decreases b.len(),
{
    let s = a.push(sep) + b;
    if b.len() == 0 {
        assert(s =~= a.push(sep));
        assert(s.drop_last() =~= a);
        assert(split_on(b, sep) =~= seq![Seq::<char>::empty()]);
    } else {
        lemma_split_append(a, b.drop_last(), sep);
        assert(s.drop_last() =~= a.push(sep) + b.drop_last());
        assert(s.last() == b.last());
        let x = split_on(a, sep);
        let y = split_on(b.drop_last(), sep);
        assert(y.len() >= 1) by {
            lemma_split_nonempty(b.drop_last(), sep);
        }
        if b.last() == sep {
            assert((x + y).push(Seq::<char>::empty()) =~= x + y.push(Seq::<char>::empty()));
        } else {
            assert((x + y).update((x + y).len() - 1, (x + y).last().push(b.last())) =~= x + y.update(
                y.len() - 1,
                y.last().push(b.last()),
            ));
        }
    }
}

/// The fields of a duration written with `clock` are read back unchanged,
/// provided no field holds a `:`.
pub proof fn law_clock_fields_round_trip(h: Seq<char>, m: Seq<char>, s: Seq<char>)
    requires
        !h.contains(':'),
        !m.contains(':'),
        !s.contains(':'),
    ensures
        duration_field_texts(clock_text(h, m, s)) == Some((h, m, s)),
{
    reveal_strlit(":");
    assert(":"@ =~= seq![':']);
    lemma_split_no_sep(h, ':');
    lemma_split_no_sep(m, ':');
    lemma_split_no_sep(s, ':');
    assert(h + ":"@ + m =~= h.push(':') + m);
    lemma_split_append(h, m, ':');
    let hm = h + ":"@ + m;
    assert(clock_text(h, m, s) =~= hm.push(':') + s);
    lemma_split_append(hm, s, ':');
    assert(split_on(clock_text(h, m, s), ':') =~= seq![h, m, s]);
}

/// Splitting at a separator and joining the pieces with it gives the text
/// back.
pub proof fn law_split_join(s: Seq<char>, sep: char)
    ensures
        join_with(split_on(s, sep), sep) == s,
    decreases s.len(),
{
    if s.len() > 0 {
        let t = s.drop_last();
        law_split_join(t, sep);
        lemma_split_nonempty(t, sep);
        let p = split_on(t, sep);
        if s.last() == sep {
            let q = p.push(Seq::<char>::empty());
            assert(q.drop_last() =~= p);
            assert(join_with(q, sep) =~= join_with(p, sep).push(sep) + Seq::<char>::empty());
            assert(s =~= t.push(sep));
        } else {
            let q = p.update(p.len() - 1, p.last().push(s.last()));
            if p.len() == 1 {
                assert(q =~= seq![p[0].push(s.last())]);
                assert(join_with(q, sep) == q[0]);
                assert(s =~= t.push(s.last()));
            } else {
                assert(q.drop_last() =~= p.drop_last());
                assert(join_with(q, sep) == join_with(p.drop_last(), sep).push(sep) + q.last());
                assert(join_with(p, sep) == join_with(p.drop_last(), sep).push(sep) + p.last());
                assert(s =~= t.push(s.last()));
                assert(join_with(q, sep) =~= join_with(p, sep).push(s.last()));
            }
        }
    } else {
        assert(s =~= Seq::<char>::empty());
    }
}

/// The three fields of a duration, joined with `:`, give the duration back.
pub proof fn law_duration_fields_rejoin(duration: Seq<char>)
    requires
        duration_field_texts(duration) is Some,
    ensures
        ({
            let (h, m, s) = duration_field_texts(duration).unwrap();
            clock_text(h, m, s) == duration
        }),
{
    law_split_join(duration, ':');
    let p = split_on(duration, ':');
    reveal_strlit(":");
    assert(p.drop_last().drop_last() =~= seq![p[0]]);
    assert(p.drop_last() =~= seq![p[0], p[1]]);
    assert(":"@ =~= seq![':']);
    assert(join_with(p.drop_last().drop_last(), ':') == p[0]);
    assert(join_with(p.drop_last(), ':') == p[0].push(':') + p[1]);
    assert(join_with(p, ':') == join_with(p.drop_last(), ':').push(':') + p[2]);
    assert(clock_text(p[0], p[1], p[2]) =~= join_with(p, ':'));
}

} // verus!
