//! Record filtering and the plain-text fallback parser for insight replies.
//!
//! The backend answers insights requests with free text. When the transport
//! layer cannot read that text as structured data, the lines are parsed
//! here: a line of the shape `Title: description` becomes one insight, and
//! the first number found on the line, if any, becomes its quoted value.

use vstd::prelude::*;
use vstd::string::*;
use vstd::seq_lib::*;
use crate::models::Record;
use crate::agent_types::{Insight, AgentConfig, Filter};
use crate::text::{
    dec_int, i64_to_string, parse_i64, parse_i64_spec, str_eq, is_space_char, is_space_char_x,
    is_word_char, is_word_char_x, is_digit, space_end, str_to_chars,
    chars_range_to_string, trimmed, space_end_x,
};

verus! {

/// The number a comparison filter compares against: the value parsed as an
/// integer, or 0 when it does not parse.
pub open spec fn filter_number(v: Seq<char>) -> int {
    match parse_i64_spec(v) {
        Some(n) => n,
        None => 0,
    }
}

/// Whether one record passes one filter. Equality holds when the value
/// equals the record's name or its measure written in decimal; the
/// comparisons go against [`filter_number`]; any other operator rejects.
pub open spec fn record_matches(r: Record, f: Filter) -> bool {
    if f.operator@ == "="@ {
        r.name@ == f.value@ || dec_int(r.value as int) == f.value@
    } else if f.operator@ == ">"@ {
        r.value > filter_number(f.value@)
    } else if f.operator@ == "<"@ {
        r.value < filter_number(f.value@)
    } else {
        false
    }
}

/// Whether one record passes every filter.
pub open spec fn record_kept(r: Record, fs: Seq<Filter>) -> bool {
    forall|i: int| 0 <= i < fs.len() ==> record_matches(r, #[trigger] fs[i])
}

/// Whether one record passes one filter.
fn record_matches_x(r: &Record, f: &Filter) -> (b: bool)
    ensures
        b == record_matches(*r, *f),
{
    if str_eq(f.operator.as_str(), "=") {
        if str_eq(r.name.as_str(), f.value.as_str()) {
            return true;
        }
        let rendered = i64_to_string(r.value);
        str_eq(rendered.as_str(), f.value.as_str())
    } else if str_eq(f.operator.as_str(), ">") {
        let bound = match parse_i64(f.value.as_str()) {
            Some(n) => n,
            None => 0,
        };
        r.value > bound
    } else if str_eq(f.operator.as_str(), "<") {
        let bound = match parse_i64(f.value.as_str()) {
            Some(n) => n,
            None => 0,
        };
        r.value < bound
    } else {
        false
    }
}

/// Keeps exactly the records that pass every filter, in their given order.
pub fn apply_filters(records: Vec<Record>, filters: &Vec<Filter>) -> (r: Vec<Record>)
    ensures
        r@ == records@.filter(|rec: Record| record_kept(rec, filters@)),
{
    let ghost pred = |rec: Record| record_kept(rec, filters@);
    let mut out: Vec<Record> = Vec::new();
    let mut rest = records;
    let ghost orig = rest@;
    let ghost mut k: int = 0;
    proof {
        reveal(Seq::filter);
        assert(orig.take(0) =~= Seq::<Record>::empty());
        assert(orig.take(0).filter(pred) =~= Seq::<Record>::empty());
    }
    while rest.len() > 0
        invariant
            0 <= k <= orig.len(),
            rest@ == orig.skip(k),
            out@ == orig.take(k).filter(pred),
            pred == (|rec: Record| record_kept(rec, filters@)),
        decreases rest@.len(),
    {
        let record = rest.remove(0);
        proof {
            assert(orig.skip(k)[0] == orig[k]);
            assert(orig.skip(k).remove(0) =~= orig.skip(k + 1));
        }
        let mut keep = true;
        let mut i: usize = 0;
        while i < filters.len()
            invariant
                i <= filters@.len(),
                keep == (forall|j: int|
                    0 <= j < i ==> record_matches(record, #[trigger] filters@[j])),
            decreases filters@.len() - i,
        {
            if !record_matches_x(&record, &filters[i]) {
                keep = false;
                proof {
                    assert(!record_matches(record, filters@[i as int]));
                }
                i = filters.len();
            } else {
                i = i + 1;
            }
        }
        proof {
            reveal(Seq::filter);
            assert(orig.take(k + 1).drop_last() =~= orig.take(k));
            assert(orig.take(k + 1).last() == orig[k]);
        }
        if keep {
            out.push(record);
        }
        proof {
            k = k + 1;
        }
    }
    proof {
        assert(orig.take(orig.len() as int) =~= orig);
    }
    out
}

/// Whether this character opens a match of the digit pattern: a digit run
/// may only start at a word boundary.
pub open spec fn number_start_ok(line: Seq<char>, i: int) -> bool {
    0 <= i < line.len() && is_digit(line[i]) && (i == 0 || !is_word_char(line[i - 1]))
}

/// The end of the maximal digit run starting at `j`.
pub open spec fn digit_end(line: Seq<char>, j: int) -> int
    decreases line.len() - j,
{
    if 0 <= j < line.len() && is_digit(line[j]) {
        digit_end(line, j + 1)
    } else {
        j
    }
}

/// A number match starting at `i`: the maximal digit run, extended by a
/// fractional part when a dot and digits follow and the result still ends
/// at a word boundary; `None` when even the bare run ends inside a word.
pub open spec fn number_match_at(line: Seq<char>, i: int) -> Option<int> {
    if !number_start_ok(line, i) {
        None
    } else {
        let e = digit_end(line, i);
        if e < line.len() && line[e] == '.' && e + 1 < line.len() && is_digit(line[e + 1]) {
            let e2 = digit_end(line, e + 1);
            if e2 == line.len() || !is_word_char(line[e2]) {
                Some(e2)
            } else {
                Some(e)
            }
        } else {
            if e == line.len() || !is_word_char(line[e]) {
                Some(e)
            } else {
                None
            }
        }
    }
}

/// The first number on the line: the leftmost position where the digit
/// pattern matches, with its end.
pub open spec fn first_number(line: Seq<char>, i: int) -> Option<(int, int)>
    decreases line.len() - i,
{
    if !(0 <= i <= line.len()) {
        None
    } else if number_match_at(line, i) is Some {
        match number_match_at(line, i) {
            Some(e) => Some((i, e)),
            None => None,
        }
    } else if i == line.len() {
        None
    } else {
        first_number(line, i + 1)
    }
}

/// Where a line splits into title and description: the least index with a
/// colon followed by whitespace and at least one further character.
pub open spec fn split_point(line: Seq<char>, i: int) -> Option<int>
    decreases line.len() - i,
{
    if !(1 <= i <= line.len()) {
        None
    } else if i + 2 < line.len() && line[i] == ':' && is_space_char(line[i + 1]) {
        Some(i)
    } else if i == line.len() {
        None
    } else {
        split_point(line, i + 1)
    }
}

/// Where the description begins, after the split point: past the whitespace
/// run, but never beyond the line's last character.
pub open spec fn description_start(line: Seq<char>, p: int) -> int {
    let s = space_end(line, p + 1);
    if s < line.len() {
        s
    } else {
        line.len() - 1
    }
}

/// What one line contributes: a title and description around the first
/// eligible colon, or nothing for lines without one.
pub open spec fn parsed_line(line: Seq<char>) -> Option<(Seq<char>, Seq<char>)> {
    match split_point(line, 1) {
        Some(p) => Some(
            (line.take(p), line.subrange(description_start(line, p), line.len() as int)),
        ),
        None => None,
    }
}

/// The index of the first newline at or after `i`.
pub open spec fn newline_at(t: Seq<char>, i: int) -> Option<int>
    decreases t.len() - i,
{
    if !(0 <= i <= t.len()) {
        None
    } else if i < t.len() && t[i] == '\n' {
        Some(i)
    } else if i >= t.len() {
        None
    } else {
        newline_at(t, i + 1)
    }
}

/// A newline found at or after `i` lies within the sequence.
pub proof fn lemma_newline_at_bounds(t: Seq<char>, i: int)
    requires
        0 <= i <= t.len(),
    ensures
        match newline_at(t, i) {
            Some(j) => i <= j < t.len() && t[j] == '\n',
            None => true,
        },
    decreases t.len() - i,
{
    if i < t.len() && !(t[i] == '\n') {
        lemma_newline_at_bounds(t, i + 1);
    }
}

#[via_fn]
proof fn lines_from_decreases(t: Seq<char>, pos: int) {
    if 0 <= pos < t.len() {
        lemma_newline_at_bounds(t, pos);
    }
}

/// A line segment with a trailing carriage return removed.
pub open spec fn strip_cr(s: Seq<char>) -> Seq<char> {
    if s.len() >= 1 && s[s.len() - 1] == '\r' {
        s.drop_last()
    } else {
        s
    }
}

/// The lines of the text from position `pos` on: segments between
/// newlines, trailing carriage returns removed, and nothing after a
/// terminating newline.
pub open spec fn lines_from(t: Seq<char>, pos: int) -> Seq<Seq<char>>
    decreases t.len() - pos,
    via lines_from_decreases
{
    if !(0 <= pos < t.len()) {
        Seq::empty()
    } else {
        match newline_at(t, pos) {
            Some(j) => seq![strip_cr(t.subrange(pos, j))] + lines_from(t, j + 1),
            None => seq![strip_cr(t.subrange(pos, t.len() as int))],
        }
    }
}

/// What one parsed insight holds, at the view level.
pub open spec fn insight_view_ok(ins: Insight, line: Seq<char>, tag: Seq<char>) -> bool {
    &&& parsed_line(line) matches Some(td) && ins.title@ == td.0 && ins.description@ == td.1
    &&& match first_number(line, 0) {
        Some(se) => ins.value matches Some(v) && v@ == line.subrange(se.0, se.1),
        None => ins.value is None,
    }
    &&& ins.visualization is None
    &&& ins.tags@.len() == 1 && ins.tags@[0]@ == tag
}

/// The lines that contribute an insight: non-blank and of the
/// title-description shape.
pub open spec fn line_contributes(line: Seq<char>) -> bool {
    trimmed(line).len() > 0 && parsed_line(line) is Some
}

/// The first newline at or after `i`, as `newline_at` says.
fn newline_at_x(t: &Vec<char>, i: usize) -> (r: Option<usize>)
    requires
        i <= t@.len(),
    ensures
        match r {
            Some(j) => newline_at(t@, i as int) == Some(j as int) && i <= j < t@.len(),
            None => newline_at(t@, i as int) is None,
        },
{
    let mut j = i;
    while j < t.len()
        invariant
            i <= j <= t@.len(),
            newline_at(t@, i as int) == newline_at(t@, j as int),
        decreases t@.len() - j,
    {
        if t[j] == '\n' {
            return Some(j);
        }
        j = j + 1;
    }
    None
}

/// The end of the maximal digit run, as `digit_end` says.
fn digit_end_x(t: &Vec<char>, j: usize) -> (r: usize)
    requires
        j <= t@.len(),
    ensures
        r == digit_end(t@, j as int),
        j <= r <= t@.len(),
{
    let mut i = j;
    while i < t.len() && '0' <= t[i] && t[i] <= '9'
        invariant
            j <= i <= t@.len(),
            digit_end(t@, j as int) == digit_end(t@, i as int),
        decreases t@.len() - i,
    {
        i = i + 1;
    }
    i
}

/// The first number of the line, as `first_number` says.
fn first_number_x(line: &Vec<char>) -> (r: Option<(usize, usize)>)
    ensures
        match r {
            Some(se) => first_number(line@, 0) == Some((se.0 as int, se.1 as int)) && se.0 <= se.1
                <= line@.len(),
            None => first_number(line@, 0) is None,
        },
{
    let n = line.len();
    let mut i: usize = 0;
    while i < n
        invariant
            i <= n,
            n == line@.len(),
            first_number(line@, 0) == first_number(line@, i as int),
        decreases n - i,
    {
        let start_ok = ('0' <= line[i] && line[i] <= '9') && (i == 0 || !is_word_char_x(
            line[i - 1],
        ));
        if start_ok {
            let e = digit_end_x(line, i);
            if e < n && line[e] == '.' && e + 1 < n && '0' <= line[e + 1] && line[e + 1] <= '9' {
                let e2 = digit_end_x(line, e + 1);
                if e2 == n || !is_word_char_x(line[e2]) {
                    return Some((i, e2));
                } else {
                    return Some((i, e));
                }
            } else {
                if e == n || !is_word_char_x(line[e]) {
                    return Some((i, e));
                }
            }
        }
        proof {
            assert(first_number(line@, i as int) == first_number(line@, i + 1));
        }
        i = i + 1;
    }
    None
}

/// The split point of the line, as `split_point` says.
fn split_point_x(line: &Vec<char>) -> (r: Option<usize>)
    ensures
        match r {
            Some(p) => split_point(line@, 1) == Some(p as int) && 1 <= p && p + 2 < line@.len(),
            None => split_point(line@, 1) is None,
        },
{
    let n = line.len();
    if n == 0 {
        return None;
    }
    let mut i: usize = 1;
    while i < n
        invariant
            1 <= i <= n,
            n == line@.len(),
            split_point(line@, 1) == split_point(line@, i as int),
        decreases n - i,
    {
        if n >= 3 && i < n - 2 && line[i] == ':' && is_space_char_x(line[i + 1]) {
            return Some(i);
        }
        proof {
            assert(split_point(line@, i as int) == split_point(line@, i + 1));
        }
        i = i + 1;
    }
    None
}

/// One parsed line as an insight, tagged with the configured agent type.
fn parse_one_line(line: &Vec<char>, config: &AgentConfig) -> (r: Option<Insight>)
    ensures
        match r {
            Some(ins) => line_contributes(line@) && insight_view_ok(
                ins,
                line@,
                config.agent_type@,
            ),
            None => !line_contributes(line@),
        },
{
    let a = space_end_x(line, 0);
    if a == line.len() {
        proof {
            crate::text::lemma_trim_end_bounds(line@, line@.len() as int);
            assert(trimmed(line@).len() == 0);
        }
        return None;
    }
    proof {
        crate::text::lemma_space_end_stops(line@, 0);
        crate::text::lemma_trim_end_after(line@, line@.len() as int, a as int);
        crate::text::lemma_trim_end_bounds(line@, line@.len() as int);
        assert(trimmed(line@).len() > 0);
    }
    match split_point_x(line) {
        None => None,
        Some(p) => {
            let title = chars_range_to_string(line, 0, p);
            let ds = space_end_x(line, p + 1);
            let dstart = if ds < line.len() {
                ds
            } else {
                line.len() - 1
            };
            let description = chars_range_to_string(line, dstart, line.len());
            let value = match first_number_x(line) {
                Some((s, e)) => Some(chars_range_to_string(line, s, e)),
                None => None,
            };
            let mut tags: Vec<String> = Vec::new();
            tags.push(config.agent_type.clone());
            proof {
                assert(line@.take(p as int) =~= line@.subrange(0, p as int));
            }
            Some(Insight { title, description, value, visualization: None, tags })
        },
    }
}

/// Parses the backend's plain-text insight reply: every non-blank line of
/// the shape `Title: description` becomes one insight, in line order,
/// tagged with the configured agent type, carrying the first number of the
/// line as its quoted value. Always succeeds; lines of any other shape are
/// passed over.
pub fn parse_insights(insights_text: String, config: &AgentConfig) -> (r: Result<
    Vec<Insight>,
    String,
>)
    ensures
        r matches Ok(v) && {
            let contributing = lines_from(insights_text@, 0).filter(
                |l: Seq<char>| line_contributes(l),
            );
            &&& v@.len() == contributing.len()
            &&& forall|i: int|
                0 <= i < v@.len() ==> insight_view_ok(
                    #[trigger] v@[i],
                    contributing[i],
                    config.agent_type@,
                )
        },
{
    let ghost keep = |l: Seq<char>| line_contributes(l);
    let chars = str_to_chars(insights_text.as_str());
    let n = chars.len();
    let mut out: Vec<Insight> = Vec::new();
    let mut pos: usize = 0;
    let ghost mut seen: Seq<Seq<char>> = Seq::empty();
    proof {
        reveal(Seq::filter);
        assert(seen.filter(keep) =~= Seq::<Seq<char>>::empty());
        assert(lines_from(chars@, 0) =~= seen + lines_from(chars@, 0));
    }
    while pos < n
        invariant
            pos <= n,
            n == chars@.len(),
            chars@ == insights_text@,
            keep == (|l: Seq<char>| line_contributes(l)),
            lines_from(chars@, 0) =~= seen + lines_from(chars@, pos as int),
            out@.len() == seen.filter(keep).len(),
            forall|i: int|
                0 <= i < out@.len() ==> insight_view_ok(
                    #[trigger] out@[i],
                    seen.filter(keep)[i],
                    config.agent_type@,
                ),
        decreases n - pos,
    {
        let (line_end, next_pos): (usize, usize) = match newline_at_x(&chars, pos) {
            Some(j) => (j, j + 1),
            None => (n, n),
        };
        let raw_end = if line_end > pos && chars[line_end - 1] == '\r' {
            line_end - 1
        } else {
            line_end
        };
        let mut line_vec: Vec<char> = Vec::new();
        let mut q = pos;
        while q < raw_end
            invariant
                pos <= q <= raw_end <= chars@.len(),
                line_vec@ == chars@.subrange(pos as int, q as int),
            decreases raw_end - q,
        {
            line_vec.push(chars[q]);
            proof {
                assert(line_vec@ =~= chars@.subrange(pos as int, q + 1));
            }
            q = q + 1;
        }
        let ghost line = strip_cr(chars@.subrange(pos as int, line_end as int));
        proof {
            if line_end > pos && chars@[line_end - 1] == '\r' {
                assert(line =~= chars@.subrange(pos as int, raw_end as int));
            }
            assert(line_vec@ == line);
        }
        match parse_one_line(&line_vec, config) {
            Some(ins) => {
                out.push(ins);
            },
            None => {},
        }
        proof {
            reveal(Seq::filter);
            let old_seen = seen;
            seen = seen + seq![line];
            assert(seen.drop_last() =~= old_seen);
            assert(seen.last() == line);
            if line_contributes(line) {
                assert(seen.filter(keep) =~= old_seen.filter(keep) + seq![line]);
            } else {
                assert(seen.filter(keep) =~= old_seen.filter(keep));
            }
            match newline_at(chars@, pos as int) {
                Some(j) => {
                    assert(lines_from(chars@, pos as int) =~= seq![line] + lines_from(
                        chars@,
                        next_pos as int,
                    ));
                },
                None => {
                    assert(lines_from(chars@, pos as int) =~= seq![line]);
                    assert(lines_from(chars@, next_pos as int) =~= Seq::<Seq<char>>::empty());
                },
            }
            assert((old_seen + lines_from(chars@, pos as int)) =~= (seen + lines_from(
                chars@,
                next_pos as int,
            )));
        }
        pos = next_pos;
    }
    proof {
        assert(lines_from(chars@, pos as int) =~= Seq::<Seq<char>>::empty());
        assert(lines_from(chars@, 0) =~= seen);
        assert(seen.filter(keep) =~= lines_from(insights_text@, 0).filter(keep));
    }
    Ok(out)
}

} // verus!
