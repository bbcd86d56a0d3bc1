//! Applying one hunk of a unified diff to the content of a file.

use vstd::prelude::*;
use vstd::string::StringExecFns;
use vstd::slice::{slice_subrange, slice_to_vec};
use vstd::utf8::encode_utf8;

use crate::messages::ChangeHunk;
use crate::text::{
    chars_of, decimal, decimal_string, owned, join_lines, join_with_newlines, lines_view, ranges_equal, split_lines,
    string_from_chars, string_from_utf8_lossy, text_lines, trim_end, trim_end_newlines,
    trimmed_end, trimmed_newlines_end, utf8_lossy,
};

verus! {

/// Why a hunk could not be applied.
#[derive(Debug, Clone, PartialEq, Eq)]
pub enum HunkError {
    /// A context or removed line does not match the base line at `index`
    /// (0-based); both are compared without trailing white space, `found` is
    /// `None` past the end of the base.
    Mismatch { index: usize, expected: String, found: Option<String> },
    /// A hunk line that does not start with ` `, `-` or `+`.
    Malformed { line: String },
}

/// The message a hunk that does not apply is reported with.
pub open spec fn hunk_failure_message(failure: HunkFailure) -> Seq<char> {
    match failure {
        HunkFailure::Mismatch { index, expected, found } =>
            "Hunk mismatch: context/removed line does not match base content at index "@
                + decimal(index as nat) + ". Expected (trimmed): '"@ + expected
                + "', Found (trimmed): '"@ + match found {
                Some(f) => f,
                None => "<EOF>"@,
            } + "'"@,
        HunkFailure::Malformed { line } => "Malformed hunk line: "@ + line,
    }
}

impl HunkError {
    /// The message this error is reported with.
    pub fn message(&self) -> (m: String)
        ensures
            m@ == hunk_failure_message(self@),
    {
        match self {
            HunkError::Mismatch { index, expected, found } => {
                let mut m = owned(
                    "Hunk mismatch: context/removed line does not match base content at index ",
                );
                m.append(decimal_string(*index).as_str());
                m.append(". Expected (trimmed): '");
                m.append(expected.as_str());
                m.append("', Found (trimmed): '");
                match found {
                    Some(f) => m.append(f.as_str()),
                    None => m.append("<EOF>"),
                }
                m.append("'");
                m
            },
            HunkError::Malformed { line } => {
                let mut m = owned("Malformed hunk line: ");
                m.append(line.as_str());
                m
            },
        }
    }
}

/// `HunkError` with its strings taken by their characters.
pub enum HunkFailure {
    Mismatch { index: int, expected: Seq<char>, found: Option<Seq<char>> },
    Malformed { line: Seq<char> },
}

impl View for HunkError {
    type V = HunkFailure;

    open spec fn view(&self) -> HunkFailure {
        match self {
            HunkError::Mismatch { index, expected, found } => HunkFailure::Mismatch {
                index: *index as int,
                expected: expected@,
                found: match found {
                    Some(f) => Some(f@),
                    None => None,
                },
            },
            HunkError::Malformed { line } => HunkFailure::Malformed { line: line@ },
        }
    }
}

/// Whether hunk line `line` is a context line or a removed line.
pub open spec fn consumes_base(line: Seq<char>) -> bool {
    line.len() > 0 && (line[0] == ' ' || line[0] == '-')
}

/// One hunk line applied: `out` is what has been produced so far and `idx`
/// the next base line; yields the new `out` and `idx`.
pub open spec fn hunk_step(base: Seq<Seq<char>>, out: Seq<Seq<char>>, idx: int, line: Seq<char>) -> Result<
    (Seq<Seq<char>>, int),
    HunkFailure,
> {
    if consumes_base(line) {
        let part = line.skip(1);
        if 0 <= idx < base.len() && trim_end(base[idx]) == trim_end(part) {
            Ok((if line[0] == ' ' { out.push(base[idx]) } else { out }, idx + 1))
        } else {
            Err(
                HunkFailure::Mismatch {
                    index: idx,
                    expected: trim_end(part),
                    found: if 0 <= idx < base.len() {
                        Some(trim_end(base[idx]))
                    } else {
                        None
                    },
                },
            )
        }
    } else if line.len() > 0 && line[0] == '+' {
        Ok((out.push(trim_end_newlines(line.skip(1))), idx))
    } else {
        Err(HunkFailure::Malformed { line })
    }
}

/// The hunk lines `lines` applied in order from base line `start`, after
/// the base lines before `start` were copied.
pub open spec fn hunk_walk(base: Seq<Seq<char>>, lines: Seq<Seq<char>>, start: int) -> Result<
    (Seq<Seq<char>>, int),
    HunkFailure,
>
    decreases lines.len(),
{
    if lines.len() == 0 {
        Ok((base.take(start), start))
    } else {
        match hunk_walk(base, lines.drop_last(), start) {
            Ok((out, idx)) => hunk_step(base, out, idx, lines.last()),
            Err(e) => Err(e),
        }
    }
}

/// The lines that result from applying the hunk lines `lines` to `base`
/// from base line `start` (0-based): the base lines before `start`, the
/// hunk's context and added lines with removed lines dropped, and the base
/// lines after the last one the hunk consumed.
pub open spec fn apply_to_lines(base: Seq<Seq<char>>, lines: Seq<Seq<char>>, start: int) -> Result<
    Seq<Seq<char>>,
    HunkFailure,
> {
    match hunk_walk(base, lines, start) {
        Ok((out, idx)) => Ok(out + base.skip(idx)),
        Err(e) => Err(e),
    }
}

/// Whether `content` ends with a line feed.
pub open spec fn ends_with_newline(content: Seq<u8>) -> bool {
    content.len() > 0 && content.last() == 10
}

/// The bytes of the joined result lines; a line feed is added when the
/// original content ended with one, the result is not empty and does not
/// already end with one.
pub open spec fn finish_bytes(content: Seq<u8>, lines: Seq<Seq<char>>) -> Seq<u8> {
    let bytes = encode_utf8(join_lines(lines));
    if ends_with_newline(content) && bytes.len() > 0 && bytes.last() != 10 {
        bytes.push(10)
    } else {
        bytes
    }
}

/// The 0-based base line where the hunk starts.
pub open spec fn hunk_start(hunk: &ChangeHunk) -> int {
    if hunk.location.from_file.start == 0 {
        0
    } else {
        hunk.location.from_file.start - 1
    }
}

/// The hunk's lines, by their characters.
pub open spec fn hunk_body(hunk: &ChangeHunk) -> Seq<Seq<char>> {
    hunk.lines.lines@.map_values(|s: String| s@)
}

/// The lines of `content` once decoded.
pub open spec fn content_lines(content: Seq<u8>) -> Seq<Seq<char>> {
    text_lines(utf8_lossy(content))
}

/// What applying `hunk` to `content` yields.
pub open spec fn hunk_result(content: Seq<u8>, hunk: &ChangeHunk) -> Result<Seq<u8>, HunkFailure> {
    match apply_to_lines(content_lines(content), hunk_body(hunk), hunk_start(hunk)) {
        Ok(lines) => Ok(finish_bytes(content, lines)),
        Err(e) => Err(e),
    }
}

/// `res` by its views.
pub open spec fn lines_result_view(res: Result<Vec<Vec<char>>, HunkError>) -> Result<
    Seq<Seq<char>>,
    HunkFailure,
> {
    match res {
        Ok(v) => Ok(lines_view(v@)),
        Err(e) => Err(e@),
    }
}

/// `res` by its views.
pub open spec fn bytes_result_view(res: Result<Vec<u8>, HunkError>) -> Result<Seq<u8>, HunkFailure> {
    match res {
        Ok(v) => Ok(v@),
        Err(e) => Err(e@),
    }
}

/// Once applying a prefix of the hunk lines failed, applying all of them
/// fails the same way.
proof fn lemma_walk_error_persists(base: Seq<Seq<char>>, lines: Seq<Seq<char>>, start: int, k: int)
    requires
        0 <= k <= lines.len(),
        hunk_walk(base, lines.take(k), start) is Err,
    ensures
        hunk_walk(base, lines, start) == hunk_walk(base, lines.take(k), start),
    decreases lines.len(),
{
    if k == lines.len() {
        assert(lines.take(k) =~= lines);
    } else {
        assert(lines.drop_last().take(k) =~= lines.take(k));
        lemma_walk_error_persists(base, lines.drop_last(), start, k);
    }
}

fn copy_chars(s: &[char]) -> (v: Vec<char>)
    ensures
        v@ == s@,
{
    slice_to_vec(s)
}

/// Applies the hunk lines `hunk_lines` to the lines `base`, from base line
/// `start` (0-based).
pub fn apply_hunk_lines(base: &Vec<Vec<char>>, hunk_lines: &Vec<Vec<char>>, start: usize) -> (res:
    Result<Vec<Vec<char>>, HunkError>)
    requires
        start <= base.len(),
    ensures
        lines_result_view(res) == apply_to_lines(lines_view(base@), lines_view(hunk_lines@), start as int),
{
    let ghost bv = lines_view(base@);
    let ghost hv = lines_view(hunk_lines@);
    let mut out: Vec<Vec<char>> = Vec::new();
    let mut i: usize = 0;
    while i < start
        invariant
            i <= start <= base.len(),
            bv == lines_view(base@),
            lines_view(out@) == bv.take(i as int),
        decreases start - i,
    {
        let ghost before = out@;
        out.push(copy_chars(base[i].as_slice()));
        assert(lines_view(out@) =~= lines_view(before).push(bv[i as int]));
        assert(bv.take(i as int + 1) =~= bv.take(i as int).push(bv[i as int]));
        i = i + 1;
    }
    let mut idx: usize = start;
    let mut h: usize = 0;
    assert(hv.take(0) =~= Seq::<Seq<char>>::empty());
    while h < hunk_lines.len()
        invariant
            start <= idx <= base.len(),
            h <= hunk_lines.len(),
            bv == lines_view(base@),
            hv == lines_view(hunk_lines@),
            hunk_walk(bv, hv.take(h as int), start as int) == Ok::<(Seq<Seq<char>>, int), HunkFailure>(
                (lines_view(out@), idx as int),
            ),
        decreases hunk_lines.len() - h,
    {
        let line = &hunk_lines[h];
        assert(hv.take(h as int + 1).drop_last() =~= hv.take(h as int));
        assert(hv.take(h as int + 1).last() == line@);
        let ghost before = out@;
        if line.len() > 0 {
            assert(line@.skip(1) =~= line@.subrange(1, line@.len() as int));
        }
        if line.len() > 0 && (line[0] == ' ' || line[0] == '-') {
            let part_end = trimmed_end(line, 1);
            let expected = string_from_chars(slice_subrange(line.as_slice(), 1, part_end));
            if idx < base.len() {
                let b = &base[idx];
                let b_end = trimmed_end(b, 0);
                assert(b@.subrange(0, b@.len() as int) =~= b@);
                if ranges_equal(b, 0, b_end, line, 1, part_end) {
                    if line[0] == ' ' {
                        out.push(copy_chars(b.as_slice()));
                        assert(lines_view(out@) =~= lines_view(before).push(bv[idx as int]));
                    }
                    idx = idx + 1;
                } else {
                    let found = string_from_chars(slice_subrange(b.as_slice(), 0, b_end));
                    proof {
                        lemma_walk_error_persists(bv, hv, start as int, h as int + 1);
                    }
                    return Err(HunkError::Mismatch { index: idx, expected, found: Some(found) });
                }
            } else {
                proof {
                    lemma_walk_error_persists(bv, hv, start as int, h as int + 1);
                }
                return Err(HunkError::Mismatch { index: idx, expected, found: None });
            }
        } else if line.len() > 0 && line[0] == '+' {
            let end = trimmed_newlines_end(line, 1);
            out.push(copy_chars(slice_subrange(line.as_slice(), 1, end)));
            assert(lines_view(out@) =~= lines_view(before).push(
                trim_end_newlines(line@.skip(1)),
            ));
        } else {
            proof {
                lemma_walk_error_persists(bv, hv, start as int, h as int + 1);
            }
            return Err(HunkError::Malformed { line: string_from_chars(line.as_slice()) });
        }
        h = h + 1;
    }
    assert(hv.take(hunk_lines.len() as int) =~= hv);
    let ghost walked = lines_view(out@);
    let ghost walked_to = idx;
    while idx < base.len()
        invariant
            start <= walked_to <= idx <= base.len(),
            bv == lines_view(base@),
            lines_view(out@) == walked + bv.subrange(walked_to as int, idx as int),
        decreases base.len() - idx,
    {
        let ghost before = out@;
        out.push(copy_chars(base[idx].as_slice()));
        assert(lines_view(out@) =~= lines_view(before).push(bv[idx as int]));
        assert(bv.subrange(walked_to as int, idx + 1) =~= bv.subrange(walked_to as int, idx as int).push(
            bv[idx as int],
        ));
        idx = idx + 1;
    }
    assert(bv.subrange(walked_to as int, base.len() as int) =~= bv.skip(walked_to as int));
    Ok(out)
}


/// The hunk's lines as characters.
fn hunk_lines_of(hunk: &ChangeHunk) -> (lines: Vec<Vec<char>>)
    ensures
        lines_view(lines@) == hunk_body(hunk),
{
    let src = &hunk.lines.lines;
    let ghost body = hunk_body(hunk);
    let mut lines: Vec<Vec<char>> = Vec::new();
    let mut i: usize = 0;
    while i < src.len()
        invariant
            i <= src.len(),
            src == &hunk.lines.lines,
            body == hunk_body(hunk),
            lines_view(lines@) == body.take(i as int),
        decreases src.len() - i,
    {
        let ghost before = lines@;
        lines.push(chars_of(src[i].as_str()));
        assert(lines_view(lines@) =~= lines_view(before).push(body[i as int]));
        assert(body.take(i as int + 1) =~= body.take(i as int).push(body[i as int]));
        i = i + 1;
    }
    assert(body.take(src.len() as int) =~= body);
    lines
}

/// The 0-based base line where the hunk starts.
fn start_line(hunk: &ChangeHunk) -> (start: usize)
    ensures
        start == hunk_start(hunk),
{
    let s = hunk.location.from_file.start;
    if s == 0 {
        0
    } else {
        s - 1
    }
}

/// The decoded lines of `content`.
fn decoded_lines(content: &[u8]) -> (lines: Vec<Vec<char>>)
    ensures
        lines_view(lines@) == content_lines(content@),
{
    let text = string_from_utf8_lossy(content);
    let chars = chars_of(text.as_str());
    split_lines(&chars)
}

/// The bytes of `lines` joined with line feeds, with the final line feed
/// handled as `finish_bytes` states.
fn encode_result(content: &[u8], lines: &Vec<Vec<char>>) -> (bytes: Vec<u8>)
    ensures
        bytes@ == finish_bytes(content@, lines_view(lines@)),
{
    let joined = join_with_newlines(lines);
    let text = string_from_chars(joined.as_slice());
    let mut bytes = slice_to_vec(text.as_str().as_bytes());
    let ends_with_newline = content.len() > 0 && content[content.len() - 1] == 10u8;
    if ends_with_newline && bytes.len() > 0 && bytes[bytes.len() - 1] != 10u8 {
        bytes.push(10u8);
    }
    bytes
}

fn apply_to_decoded(content: &[u8], base: &Vec<Vec<char>>, hunk: &ChangeHunk) -> (res: Result<Vec<u8>, HunkError>)
    requires
        lines_view(base@) == content_lines(content@),
        hunk_start(hunk) <= base.len(),
    ensures
        bytes_result_view(res) == hunk_result(content@, hunk),
{
    let hunk_lines = hunk_lines_of(hunk);
    let start = start_line(hunk);
    match apply_hunk_lines(base, &hunk_lines, start) {
        Ok(lines) => Ok(encode_result(content, &lines)),
        Err(e) => Err(e),
    }
}

/// Applies `hunk` to the file content `content`: the content is decoded
/// (lossily) and split into lines, the hunk is applied from its first old
/// line, and the result is joined with line feeds, ending with one when the
/// content did and the result is not empty.
pub fn apply_hunk(content: &[u8], hunk: &ChangeHunk) -> (res: Result<Vec<u8>, HunkError>)
    requires
        hunk_start(hunk) <= content_lines(content@).len(),
    ensures
        bytes_result_view(res) == hunk_result(content@, hunk),
{
    let base = decoded_lines(content);
    apply_to_decoded(content, &base, hunk)
}

/// `apply_hunk` where the hunk starts within the content's lines; `None`
/// where it starts past their end.
pub fn try_apply_hunk(content: &[u8], hunk: &ChangeHunk) -> (res: Option<Result<Vec<u8>, HunkError>>)
    ensures
        res is None <==> hunk_start(hunk) > content_lines(content@).len(),
        res matches Some(r) ==> bytes_result_view(r) == hunk_result(content@, hunk),
{
    let base = decoded_lines(content);
    if start_line(hunk) > base.len() {
        None
    } else {
        Some(apply_hunk(content, hunk))
    }
}


/// A hunk made only of context lines that repeat the base lines from
/// `start` on leaves the lines unchanged.
pub proof fn law_context_lines_keep_base(base: Seq<Seq<char>>, hunk: Seq<Seq<char>>, start: int)
    requires
        0 <= start,
        start + hunk.len() <= base.len(),
        forall|j: int| 0 <= j < hunk.len() ==> #[trigger] hunk[j] == seq![' '] + base[start + j],
    ensures
        apply_to_lines(base, hunk, start) == Ok::<Seq<Seq<char>>, HunkFailure>(base),
{
    lemma_context_walk(base, hunk, start);
    assert(base.take(start + hunk.len()) + base.skip(start + hunk.len()) =~= base);
}

proof fn lemma_context_walk(base: Seq<Seq<char>>, hunk: Seq<Seq<char>>, start: int)
    requires
        0 <= start,
        start + hunk.len() <= base.len(),
        forall|j: int| 0 <= j < hunk.len() ==> #[trigger] hunk[j] == seq![' '] + base[start + j],
    ensures
        hunk_walk(base, hunk, start) == Ok::<(Seq<Seq<char>>, int), HunkFailure>(
            (base.take(start + hunk.len()), start + hunk.len()),
        ),
    decreases hunk.len(),
{
    if hunk.len() > 0 {
        let prev = hunk.drop_last();
        assert forall|j: int| 0 <= j < prev.len() implies #[trigger] prev[j] == seq![' '] + base[start + j] by {
            assert(prev[j] == hunk[j]);
        }
        lemma_context_walk(base, prev, start);
        let i = start + prev.len();
        let line = hunk.last();
        assert(line == hunk[hunk.len() - 1]);
        assert(line.skip(1) =~= base[i]);
        assert(base.take(i).push(base[i]) =~= base.take(i + 1));
    }
}

/// A hunk made only of removed lines that repeat the base lines from
/// `start` on drops exactly those lines.
pub proof fn law_removed_lines_are_dropped(base: Seq<Seq<char>>, hunk: Seq<Seq<char>>, start: int)
    requires
        0 <= start,
        start + hunk.len() <= base.len(),
        forall|j: int| 0 <= j < hunk.len() ==> #[trigger] hunk[j] == seq!['-'] + base[start + j],
    ensures
        apply_to_lines(base, hunk, start) == Ok::<Seq<Seq<char>>, HunkFailure>(
            base.take(start) + base.skip(start + hunk.len()),
        ),
{
    lemma_removal_walk(base, hunk, start);
}

proof fn lemma_removal_walk(base: Seq<Seq<char>>, hunk: Seq<Seq<char>>, start: int)
    requires
        0 <= start,
        start + hunk.len() <= base.len(),
        forall|j: int| 0 <= j < hunk.len() ==> #[trigger] hunk[j] == seq!['-'] + base[start + j],
    ensures
        hunk_walk(base, hunk, start) == Ok::<(Seq<Seq<char>>, int), HunkFailure>(
            (base.take(start), start + hunk.len()),
        ),
    decreases hunk.len(),
{
    if hunk.len() > 0 {
        let prev = hunk.drop_last();
        assert forall|j: int| 0 <= j < prev.len() implies #[trigger] prev[j] == seq!['-'] + base[start + j] by {
            assert(prev[j] == hunk[j]);
        }
        lemma_removal_walk(base, prev, start);
        let i = start + prev.len();
        let line = hunk.last();
        assert(line == hunk[hunk.len() - 1]);
        assert(line.skip(1) =~= base[i]);
    }
}

/// A hunk made only of added lines inserts them, in order, before base line
/// `start`; an added line loses only trailing line feeds, so one without
/// them is inserted as it is.
pub proof fn law_added_lines_are_inserted(base: Seq<Seq<char>>, added: Seq<Seq<char>>, hunk: Seq<Seq<char>>, start: int)
    requires
        0 <= start <= base.len(),
        hunk.len() == added.len(),
        forall|j: int| 0 <= j < hunk.len() ==> #[trigger] hunk[j] == seq!['+'] + added[j],
        forall|j: int| 0 <= j < added.len() ==> trim_end_newlines(#[trigger] added[j]) == added[j],
    ensures
        apply_to_lines(base, hunk, start) == Ok::<Seq<Seq<char>>, HunkFailure>(
            base.take(start) + added + base.skip(start),
        ),
{
    lemma_insertion_walk(base, added, hunk, start);
}

proof fn lemma_insertion_walk(base: Seq<Seq<char>>, added: Seq<Seq<char>>, hunk: Seq<Seq<char>>, start: int)
    requires
        0 <= start <= base.len(),
        hunk.len() == added.len(),
        forall|j: int| 0 <= j < hunk.len() ==> #[trigger] hunk[j] == seq!['+'] + added[j],
        forall|j: int| 0 <= j < added.len() ==> trim_end_newlines(#[trigger] added[j]) == added[j],
    ensures
        hunk_walk(base, hunk, start) == Ok::<(Seq<Seq<char>>, int), HunkFailure>(
            (base.take(start) + added, start),
        ),
    decreases hunk.len(),
{
    if hunk.len() == 0 {
        assert(base.take(start) + added =~= base.take(start));
    } else {
        let prev = hunk.drop_last();
        let prev_added = added.drop_last();
        assert forall|j: int| 0 <= j < prev.len() implies #[trigger] prev[j] == seq!['+'] + prev_added[j] by {
            assert(prev[j] == hunk[j]);
        }
        assert forall|j: int| 0 <= j < prev_added.len() implies trim_end_newlines(#[trigger] prev_added[j]) == prev_added[j] by {
            assert(prev_added[j] == added[j]);
        }
        lemma_insertion_walk(base, prev_added, prev, start);
        let line = hunk.last();
        assert(line == hunk[hunk.len() - 1]);
        assert(line.skip(1) =~= added.last());
        assert((base.take(start) + prev_added).push(added.last()) =~= base.take(start) + added);
    }
}

/// When the content ended with a line feed, a non-empty result ends with one
/// too.
pub proof fn law_trailing_newline_kept(content: Seq<u8>, hunk: &ChangeHunk)
    requires
        ends_with_newline(content),
        hunk_result(content, hunk) is Ok,
        hunk_result(content, hunk)->Ok_0.len() > 0,
    ensures
        ends_with_newline(hunk_result(content, hunk)->Ok_0),
{
}

} // verus!
