//! Reducing the event stream of a turn to its answer.
//!
//! The body of a turn reply is a sequence of lines. A line that starts with
//! `data: ` is a record, and the rest of it is a JSON chunk. A chunk may carry
//! the text of the first candidate of a turn. The answer of the stream is the
//! text of the last record that carries a text which is not empty.

use vstd::prelude::*;
use vstd::slice::slice_subrange;
use crate::error::{text_of, ClientError};
use crate::json::{elements, json_elements, json_member, json_parse, json_text, member, parse, text};

verus! {

/// The bytes of `data: `, which open a record.
pub open spec fn data_prefix() -> Seq<u8> {
    seq![100u8, 97u8, 116u8, 97u8, 58u8, 32u8]
}

/// The first position at or after `from` that holds a line feed, or the
/// length of `body` where there is none.
pub open spec fn line_end(body: Seq<u8>, from: int) -> int
    decreases body.len() - from,
{
    if from < 0 || from >= body.len() {
        body.len() as int
    } else if body[from] == 10u8 {
        from
    } else {
        line_end(body, from + 1)
    }
}

/// The line that starts at `from` and is closed at `end`: the bytes between
/// them, without the carriage return that stands before a closing line feed.
pub open spec fn line_at(body: Seq<u8>, from: int, end: int) -> Seq<u8> {
    if from < end < body.len() && body[end - 1] == 13u8 {
        body.subrange(from, end - 1)
    } else {
        body.subrange(from, end)
    }
}

/// The lines of `body` that start at or after `from`. A line ends at a line
/// feed or at the end of the body; a line feed at the very end opens no
/// further line.
pub open spec fn lines_from(body: Seq<u8>, from: int) -> Seq<Seq<u8>>
    decreases body.len() + 1 - from,
{
    if from < 0 || from >= body.len() {
        Seq::empty()
    } else {
        proof {
            lemma_line_end_bounds(body, from);
        }
        let end = line_end(body, from);
        seq![line_at(body, from, end)] + lines_from(body, end + 1)
    }
}

/// The text of the first candidate of the turn that a chunk carries, if it
/// carries one: the string under `turn`, `candidates`, first element,
/// `raw_content`.
pub open spec fn first_candidate_text(value: serde_json::Value) -> Option<Seq<char>> {
    match json_member(value, "turn"@) {
        Some(turn) => match json_member(turn, "candidates"@) {
            Some(list) => match json_elements(list) {
                Some(items) => if items.len() > 0 {
                    match json_member(items[0], "raw_content"@) {
                        Some(raw) => json_text(raw),
                        None => None,
                    }
                } else {
                    None
                },
                None => None,
            },
            None => None,
        },
        None => None,
    }
}

/// The candidate text of the chunk written in `payload`; `None` where the
/// payload is no JSON document or carries no such text.
pub open spec fn chunk_text(payload: Seq<u8>) -> Option<Seq<char>> {
    match json_parse(payload) {
        Some(value) => first_candidate_text(value),
        None => None,
    }
}

/// Whether a line is a record of the stream.
pub open spec fn is_record(line: Seq<u8>) -> bool {
    line.len() >= 6 && line.subrange(0, 6) =~= data_prefix()
}

/// The candidate text that a line carries; `None` for a line that is no record.
pub open spec fn line_text(line: Seq<u8>) -> Option<Seq<char>> {
    if is_record(line) {
        chunk_text(line.skip(6))
    } else {
        None
    }
}

/// The best answer after one more candidate text: a text that is present and
/// not empty replaces the answer so far, anything else leaves it.
pub open spec fn latest(best: Option<Seq<char>>, content: Option<Seq<char>>) -> Option<
    Seq<char>,
> {
    match content {
        Some(t) => if t.len() > 0 {
            Some(t)
        } else {
            best
        },
        None => best,
    }
}

/// The answer that a single line gives: its text, where that is not empty.
pub open spec fn line_answer(line: Seq<u8>) -> Option<Seq<char>> {
    latest(None, line_text(line))
}

/// The answer of a sequence of lines: that of the last line which gives one.
pub open spec fn last_answer(lines: Seq<Seq<u8>>) -> Option<Seq<char>>
    decreases lines.len(),
{
    if lines.len() == 0 {
        None
    } else {
        latest(last_answer(lines.drop_last()), line_text(lines.last()))
    }
}

/// The answer of a whole stream body.
pub open spec fn stream_answer(body: Seq<u8>) -> Option<Seq<char>> {
    last_answer(lines_from(body, 0))
}

/// The answer reached by reading `body` from `from` on, with `best` in hand.
pub open spec fn answer_from(body: Seq<u8>, from: int, best: Option<Seq<char>>) -> Option<
    Seq<char>,
>
    decreases body.len() + 1 - from,
{
    if from < 0 || from >= body.len() {
        best
    } else {
        proof {
            lemma_line_end_bounds(body, from);
        }
        let end = line_end(body, from);
        answer_from(body, end + 1, latest(best, line_text(line_at(body, from, end))))
    }
}

/// A line closes at or after its start and within the body, on a line feed
/// unless it closes at the end.
pub proof fn lemma_line_end_bounds(body: Seq<u8>, from: int)
    requires
        0 <= from <= body.len(),
    ensures
        from <= line_end(body, from) <= body.len(),
        line_end(body, from) < body.len() ==> body[line_end(body, from)] == 10u8,
    decreases body.len() - from,
{
    if from < body.len() && body[from] != 10u8 {
        lemma_line_end_bounds(body, from + 1);
    }
}

/// Putting a line in front of others changes the answer only where the
/// others give none.
pub proof fn lemma_answer_with_first_line(first: Seq<u8>, rest: Seq<Seq<u8>>)
    ensures
        last_answer(seq![first] + rest) == match last_answer(rest) {
            Some(a) => Some(a),
            None => line_answer(first),
        },
    decreases rest.len(),
{
    let all = seq![first] + rest;
    if rest.len() == 0 {
        assert(all.drop_last() =~= Seq::<Seq<u8>>::empty());
        assert(all.last() == first);
        assert(last_answer(all.drop_last()) == None::<Seq<char>>);
    } else {
        assert(all.drop_last() =~= seq![first] + rest.drop_last());
        assert(all.last() == rest.last());
        lemma_answer_with_first_line(first, rest.drop_last());
    }
}

/// Reading a body line by line, keeping the latest text, gives the answer of
/// its lines, or what was in hand where they give none.
pub proof fn lemma_answer_from_lines(body: Seq<u8>, from: int, best: Option<Seq<char>>)
    requires
        0 <= from,
    ensures
        answer_from(body, from, best) == match last_answer(lines_from(body, from)) {
            Some(a) => Some(a),
            None => best,
        },
    decreases body.len() + 1 - from,
{
    if from < body.len() {
        lemma_line_end_bounds(body, from);
        let end = line_end(body, from);
        let first = line_at(body, from, end);
        lemma_answer_from_lines(body, end + 1, latest(best, line_text(first)));
        lemma_answer_with_first_line(first, lines_from(body, end + 1));
    }
}

/// Whether the line at `i` gives the answer `a` and no later line gives any.
pub open spec fn is_last_answer_at(lines: Seq<Seq<u8>>, i: int, a: Seq<char>) -> bool {
    &&& 0 <= i < lines.len()
    &&& line_answer(lines[i]) == Some(a)
    &&& forall|j: int| i < j < lines.len() ==> (#[trigger] line_answer(lines[j])) is None
}

/// A stream has no answer exactly where none of its lines gives one.
pub proof fn lemma_no_answer_iff_no_line_answers(lines: Seq<Seq<u8>>)
    ensures
        last_answer(lines) is None <==> forall|i: int|
            0 <= i < lines.len() ==> (#[trigger] line_answer(lines[i])) is None,
    decreases lines.len(),
{
    if lines.len() > 0 {
        let front = lines.drop_last();
        lemma_no_answer_iff_no_line_answers(front);
        assert(forall|i: int| 0 <= i < front.len() ==> front[i] == lines[i]);
        if last_answer(lines) is None {
            assert(line_answer(lines.last()) is None);
            assert forall|i: int| 0 <= i < lines.len() implies (#[trigger] line_answer(
                lines[i],
            )) is None by {
                if i < front.len() {
                    assert(line_answer(front[i]) is None);
                }
            }
        }
        if forall|i: int| 0 <= i < lines.len() ==> (#[trigger] line_answer(lines[i])) is None {
            assert forall|i: int| 0 <= i < front.len() implies (#[trigger] line_answer(
                front[i],
            )) is None by {
                assert(line_answer(lines[i]) is None);
            }
            assert(line_answer(lines[lines.len() - 1]) is None);
        }
    }
}

/// The last text that is not empty wins: the answer of a stream is given by
/// one of its lines, and no line after that one gives any.
pub proof fn lemma_answer_is_last_nonempty(lines: Seq<Seq<u8>>)
    ensures
        last_answer(lines) matches Some(a) ==> exists|i: int| is_last_answer_at(lines, i, a),
    decreases lines.len(),
{
    if lines.len() > 0 {
        if let Some(a) = last_answer(lines) {
            let front = lines.drop_last();
            let end = lines.len() - 1;
            if line_answer(lines.last()) is Some {
                assert(is_last_answer_at(lines, end, a));
            } else {
                lemma_answer_is_last_nonempty(front);
                let i = choose|i: int| is_last_answer_at(front, i, a);
                assert(front[i] == lines[i]);
                assert forall|j: int| i < j < lines.len() implies (#[trigger] line_answer(
                    lines[j],
                )) is None by {
                    if j < end {
                        assert(front[j] == lines[j]);
                        assert(line_answer(front[j]) is None);
                    }
                }
                assert(is_last_answer_at(lines, i, a));
            }
        }
    }
}

/// One more line at the end takes over where it gives an answer, and
/// changes nothing where it gives none: a blank record does not erase an
/// answer seen before it.
pub proof fn lemma_answer_with_last_line(lines: Seq<Seq<u8>>, line: Seq<u8>)
    ensures
        last_answer(lines.push(line)) == match line_answer(line) {
            Some(a) => Some(a),
            None => last_answer(lines),
        },
{
    assert(lines.push(line).drop_last() =~= lines);
    assert(lines.push(line).last() == line);
}

/// Whether `line` starts with `data: `.
fn has_data_prefix(line: &[u8]) -> (b: bool)
    ensures
        b == is_record(line@),
{
    if line.len() < 6 {
        return false;
    }
    let b = line[0] == 100u8 && line[1] == 97u8 && line[2] == 116u8 && line[3] == 97u8 && line[4]
        == 58u8 && line[5] == 32u8;
    b
}

/// Where the line that starts at `from` closes.
fn find_line_end(body: &[u8], from: usize) -> (end: usize)
    requires
        from <= body.len(),
    ensures
        end == line_end(body@, from as int),
        from <= end <= body.len(),
{
    let mut i: usize = from;
    while i < body.len() && body[i] != 10u8
        invariant
            from <= i <= body.len(),
            line_end(body@, from as int) == line_end(body@, i as int),
        decreases body.len() - i,
    {
        i += 1;
    }
    i
}

/// Reads the text of the first candidate out of a parsed chunk.
pub fn candidate_text(value: &serde_json::Value) -> (r: Option<String>)
    ensures
        text_of(r) == first_candidate_text(*value),
{
    let turn = match member(value, "turn") {
        Some(turn) => turn,
        None => { return None; },
    };
    let list = match member(turn, "candidates") {
        Some(list) => list,
        None => { return None; },
    };
    let items = match elements(list) {
        Some(items) => items,
        None => { return None; },
    };
    if items.len() == 0 {
        return None;
    }
    let raw = match member(&items[0], "raw_content") {
        Some(raw) => raw,
        None => { return None; },
    };
    match text(raw) {
        Some(s) => Some(s.to_owned()),
        None => None,
    }
}

/// Keeps the latest answer: `content` where it is present and not empty,
/// `best` otherwise.
pub fn keep_latest(best: Option<String>, content: Option<String>) -> (r: Option<String>)
    ensures
        text_of(r) == latest(text_of(best), text_of(content)),
{
    match content {
        Some(t) => if t.as_str().is_empty() {
            best
        } else {
            Some(t)
        },
        None => best,
    }
}

/// The candidate text of one line of the stream.
pub fn record_text(line: &[u8]) -> (r: Option<String>)
    ensures
        text_of(r) == line_text(line@),
{
    if !has_data_prefix(line) {
        return None;
    }
    let payload = slice_subrange(line, 6, line.len());
    assert(payload@ =~= line@.skip(6));
    match parse(payload) {
        Some(value) => candidate_text(&value),
        None => None,
    }
}

/// Reduces the body of a turn reply to its answer: the text of the last
/// record that carries one which is not empty. Fails with `EmptyAnswer`
/// exactly where no record carries such a text.
pub fn reduce_stream(body: &[u8]) -> (r: Result<String, ClientError>)
    ensures
        match stream_answer(body@) {
            Some(answer) => r matches Ok(s) && s@ == answer,
            None => r matches Err(ClientError::EmptyAnswer),
        },
{
    let mut best: Option<String> = None;
    let mut pos: usize = 0;
    while pos < body.len()
        invariant
            pos <= body.len(),
            answer_from(body@, 0, None) == answer_from(body@, pos as int, text_of(best)),
        decreases body.len() - pos,
    {
        let end = find_line_end(body, pos);
        let stop: usize = if pos < end && end < body.len() && body[end - 1] == 13u8 {
            end - 1
        } else {
            end
        };
        let line = slice_subrange(body, pos, stop);
        assert(line@ =~= line_at(body@, pos as int, end as int));
        let content = record_text(line);
        best = keep_latest(best, content);
        let next: usize = if end < body.len() { end + 1 } else { end };
        // A line that closes at the end of the body is the last one.
        assert(answer_from(body@, end + 1, text_of(best)) == answer_from(
            body@,
            next as int,
            text_of(best),
        ));
        pos = next;
    }
    proof {
        lemma_answer_from_lines(body@, 0, None);
    }
    match best {
        Some(s) => Ok(s),
        None => Err(ClientError::EmptyAnswer),
    }
}

} // verus!
