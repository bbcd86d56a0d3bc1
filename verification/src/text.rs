//! Character-level text utilities with their specifications: splitting into
//! lines, trimming, joining.

use vstd::prelude::*;
use vstd::string::StringExecFns;
use vstd::utf8::{decode_utf8, valid_utf8};

verus! {

/// Whether `c` has the Unicode `White_Space` property, which is what
/// `char::is_whitespace` and `str::trim_end` go by.
pub open spec fn is_white_space(c: char) -> bool {
    let u = c as u32;
    ||| 0x9 <= u <= 0xd
    ||| u == 0x20
    ||| u == 0x85
    ||| u == 0xa0
    ||| u == 0x1680
    ||| 0x2000 <= u <= 0x200a
    ||| u == 0x2028
    ||| u == 0x2029
    ||| u == 0x202f
    ||| u == 0x205f
    ||| u == 0x3000
}

/// `s` without its trailing white space.
pub open spec fn trim_end(s: Seq<char>) -> Seq<char>
    decreases s.len(),
{
    if s.len() > 0 && is_white_space(s.last()) {
        trim_end(s.drop_last())
    } else {
        s
    }
}

/// `s` without its trailing line feeds.
pub open spec fn trim_end_newlines(s: Seq<char>) -> Seq<char>
    decreases s.len(),
{
    if s.len() > 0 && s.last() == '\n' {
        trim_end_newlines(s.drop_last())
    } else {
        s
    }
}

/// `line` without a final carriage return.
pub open spec fn strip_cr(line: Seq<char>) -> Seq<char> {
    if line.len() > 0 && line.last() == '\r' {
        line.drop_last()
    } else {
        line
    }
}

/// Reading `text` from the left: the lines already ended by a line feed
/// (each without its `\r\n` or `\n`), and the line still open.
pub open spec fn line_scan(text: Seq<char>) -> (Seq<Seq<char>>, Seq<char>)
    decreases text.len(),
{
    if text.len() == 0 {
        (Seq::empty(), Seq::empty())
    } else {
        let (done, open) = line_scan(text.drop_last());
        if text.last() == '\n' {
            (done.push(strip_cr(open)), Seq::empty())
        } else {
            (done, open.push(text.last()))
        }
    }
}

/// The lines of `text` as `str::lines` yields them: split at `\n` or `\r\n`,
/// terminators dropped, a final line ending optional.
pub open spec fn text_lines(text: Seq<char>) -> Seq<Seq<char>> {
    let (done, open) = line_scan(text);
    if open.len() == 0 {
        done
    } else {
        done.push(open)
    }
}

/// `lines` joined with a line feed between each two.
pub open spec fn join_lines(lines: Seq<Seq<char>>) -> Seq<char>
    decreases lines.len(),
{
    if lines.len() == 0 {
        Seq::empty()
    } else if lines.len() == 1 {
        lines[0]
    } else {
        join_lines(lines.drop_last()) + seq!['\n'] + lines.last()
    }
}

/// The decimal digit of `d`, for `d` below ten.
pub open spec fn digit(d: nat) -> char {
    if d == 0 {
        '0'
    } else if d == 1 {
        '1'
    } else if d == 2 {
        '2'
    } else if d == 3 {
        '3'
    } else if d == 4 {
        '4'
    } else if d == 5 {
        '5'
    } else if d == 6 {
        '6'
    } else if d == 7 {
        '7'
    } else if d == 8 {
        '8'
    } else {
        '9'
    }
}

/// `n` written in decimal, without leading zeros.
pub open spec fn decimal(n: nat) -> Seq<char>
    decreases n,
{
    if n < 10 {
        seq![digit(n)]
    } else {
        decimal(n / 10).push(digit(n % 10))
    }
}

/// `v` with every string taken by its characters.
pub open spec fn strings_model(v: Seq<String>) -> Seq<Seq<char>> {
    v.map_values(|s: String| s@)
}

/// Text that the standard library's lossy UTF-8 decoding makes of `bytes`.
pub uninterp spec fn utf8_lossy(bytes: Seq<u8>) -> Seq<char>;

/// The text that the standard library's error for bytes `bytes` that are
/// not UTF-8 is displayed with.
pub uninterp spec fn utf8_error_text(bytes: Seq<u8>) -> Seq<char>;

/// Calls `String::from_utf8`, which succeeds exactly on valid UTF-8 and then
/// holds the decoded characters; its error is taken by the text it is
/// displayed with, named `utf8_error_text`, whose wording is not stated.
#[verifier::external_body]
pub(crate) fn string_from_utf8(bytes: Vec<u8>) -> (text: Result<String, String>)
    ensures
        text is Ok <==> valid_utf8(bytes@),
        text matches Ok(s) ==> s@ == decode_utf8(bytes@),
        text matches Err(e) ==> e@ == utf8_error_text(bytes@),
{
    match String::from_utf8(bytes) {
        Ok(s) => Ok(s),
        Err(e) => Err(e.to_string()),
    }
}

/// Calls `String::from_utf8_lossy`; its result is named `utf8_lossy`, and on
/// valid UTF-8 it is the decoded text, as the documentation states. How
/// invalid sequences are replaced is left to the name and not stated.
#[verifier::external_body]
pub(crate) fn string_from_utf8_lossy(bytes: &[u8]) -> (text: String)
    ensures
        text@ == utf8_lossy(bytes@),
        valid_utf8(bytes@) ==> text@ == decode_utf8(bytes@),
{
    String::from_utf8_lossy(bytes).into_owned()
}

/// A copy of the literal `s` as a `String`.
pub(crate) fn owned(s: &str) -> (r: String)
    ensures
        r@ == s@,
{
    String::from_str(s)
}

/// `lines` with every line taken by its characters.
pub open spec fn lines_view(lines: Seq<Vec<char>>) -> Seq<Seq<char>> {
    lines.map_values(|l: Vec<char>| l@)
}

/// Calls `FromIterator<char>` for `String`, which holds the characters given,
/// in order.
#[verifier::external_body]
pub(crate) fn string_from_chars(chars: &[char]) -> (s: String)
    ensures
        s@ == chars@,
{
    chars.iter().collect()
}

fn digit_char(d: usize) -> (c: char)
    requires
        d < 10,
    ensures
        c == digit(d as nat),
{
    if d == 0 {
        '0'
    } else if d == 1 {
        '1'
    } else if d == 2 {
        '2'
    } else if d == 3 {
        '3'
    } else if d == 4 {
        '4'
    } else if d == 5 {
        '5'
    } else if d == 6 {
        '6'
    } else if d == 7 {
        '7'
    } else if d == 8 {
        '8'
    } else {
        '9'
    }
}

fn decimal_chars(n: usize) -> (v: Vec<char>)
    ensures
        v@ == decimal(n as nat),
    decreases n,
{
    if n < 10 {
        let mut v: Vec<char> = Vec::new();
        v.push(digit_char(n));
        assert(v@ =~= seq![digit(n as nat)]);
        v
    } else {
        let mut v = decimal_chars(n / 10);
        v.push(digit_char(n % 10));
        v
    }
}

/// `n` written in decimal.
pub fn decimal_string(n: usize) -> (s: String)
    ensures
        s@ == decimal(n as nat),
{
    let v = decimal_chars(n);
    string_from_chars(v.as_slice())
}

/// The characters of `s`, in order.
pub fn chars_of(s: &str) -> (v: Vec<char>)
    ensures
        v@ == s@,
{
    let mut v: Vec<char> = Vec::new();
    for c in it: s.chars()
        invariant
            v@ == it.seq().take(it.index() as int),
            it.seq() == s@,
    {
        v.push(c);
    }
    v
}

/// Whether `c` is white space in the sense of `is_white_space`.
pub fn is_white_space_char(c: char) -> (b: bool)
    ensures
        b == is_white_space(c),
{
    let u = c as u32;
    (0x9 <= u && u <= 0xd) || u == 0x20 || u == 0x85 || u == 0xa0 || u == 0x1680 || (0x2000 <= u
        && u <= 0x200a) || u == 0x2028 || u == 0x2029 || u == 0x202f || u == 0x205f || u == 0x3000
}

/// The end of `s[from..]` once its trailing white space is trimmed.
pub fn trimmed_end(s: &Vec<char>, from: usize) -> (end: usize)
    requires
        from <= s.len(),
    ensures
        from <= end <= s.len(),
        trim_end(s@.subrange(from as int, s.len() as int)) == s@.subrange(from as int, end as int),
{
    let mut end = s.len();
    while end > from && is_white_space_char(s[end - 1])
        invariant
            from <= end <= s.len(),
            trim_end(s@.subrange(from as int, s.len() as int)) == trim_end(
                s@.subrange(from as int, end as int),
            ),
        decreases end,
    {
        assert(s@.subrange(from as int, end as int).drop_last() =~= s@.subrange(
            from as int,
            end - 1,
        ));
        end = end - 1;
    }
    end
}

/// The end of `s[from..]` once its trailing line feeds are trimmed.
pub fn trimmed_newlines_end(s: &Vec<char>, from: usize) -> (end: usize)
    requires
        from <= s.len(),
    ensures
        from <= end <= s.len(),
        trim_end_newlines(s@.subrange(from as int, s.len() as int)) == s@.subrange(
            from as int,
            end as int,
        ),
{
    let mut end = s.len();
    while end > from && s[end - 1] == '\n'
        invariant
            from <= end <= s.len(),
            trim_end_newlines(s@.subrange(from as int, s.len() as int)) == trim_end_newlines(
                s@.subrange(from as int, end as int),
            ),
        decreases end,
    {
        assert(s@.subrange(from as int, end as int).drop_last() =~= s@.subrange(
            from as int,
            end - 1,
        ));
        end = end - 1;
    }
    end
}

/// Whether `a[a_from..a_end]` and `b[b_from..b_end]` hold the same characters.
pub fn ranges_equal(a: &Vec<char>, a_from: usize, a_end: usize, b: &Vec<char>, b_from: usize, b_end: usize) -> (eq: bool)
    requires
        a_from <= a_end <= a.len(),
        b_from <= b_end <= b.len(),
    ensures
        eq == (a@.subrange(a_from as int, a_end as int) == b@.subrange(b_from as int, b_end as int)),
{
    if a_end - a_from != b_end - b_from {
        assert(a@.subrange(a_from as int, a_end as int).len() != b@.subrange(b_from as int, b_end as int).len());
        return false;
    }
    let n = a_end - a_from;
    let mut k: usize = 0;
    while k < n
        invariant
            n == a_end - a_from == b_end - b_from,
            a_from <= a_end <= a.len(),
            b_from <= b_end <= b.len(),
            k <= n,
            a@.subrange(a_from as int, a_from + k) == b@.subrange(b_from as int, b_from + k),
        decreases n - k,
    {
        if a[a_from + k] != b[b_from + k] {
            assert(a@.subrange(a_from as int, a_end as int)[k as int] != b@.subrange(
                b_from as int,
                b_end as int,
            )[k as int]);
            return false;
        }
        assert(a@.subrange(a_from as int, a_from + k + 1) =~= a@.subrange(a_from as int, a_from + k).push(a@[a_from + k]));
        assert(b@.subrange(b_from as int, b_from + k + 1) =~= b@.subrange(b_from as int, b_from + k).push(b@[b_from + k]));
        k = k + 1;
    }
    true
}

/// The lines of `text`, as `text_lines` states them.
pub fn split_lines(text: &Vec<char>) -> (lines: Vec<Vec<char>>)
    ensures
        lines@.map_values(|l: Vec<char>| l@) == text_lines(text@),
{
    let mut done: Vec<Vec<char>> = Vec::new();
    let mut open: Vec<char> = Vec::new();
    let mut i: usize = 0;
    while i < text.len()
        invariant
            i <= text.len(),
            (done@.map_values(|l: Vec<char>| l@), open@) == line_scan(text@.take(i as int)),
        decreases text.len() - i,
    {
        let c = text[i];
        assert(text@.take(i as int + 1).drop_last() =~= text@.take(i as int));
        let ghost prev_done = done@;
        if c == '\n' {
            if open.len() > 0 && open[open.len() - 1] == '\r' {
                open.pop();
            }
            done.push(open);
            open = Vec::new();
            assert(done@.map_values(|l: Vec<char>| l@) =~= prev_done.map_values(
                |l: Vec<char>| l@,
            ).push(done@.last()@));
        } else {
            open.push(c);
        }
        i = i + 1;
    }
    assert(text@.take(text.len() as int) =~= text@);
    if open.len() > 0 {
        let ghost prev_done = done@;
        done.push(open);
        assert(done@.map_values(|l: Vec<char>| l@) =~= prev_done.map_values(|l: Vec<char>| l@).push(
            done@.last()@,
        ));
    }
    done
}

/// `lines` joined with a line feed between each two.
pub fn join_with_newlines(lines: &Vec<Vec<char>>) -> (text: Vec<char>)
    ensures
        text@ == join_lines(lines@.map_values(|l: Vec<char>| l@)),
{
    let ghost view = lines@.map_values(|l: Vec<char>| l@);
    let mut text: Vec<char> = Vec::new();
    let mut i: usize = 0;
    while i < lines.len()
        invariant
            i <= lines.len(),
            view == lines@.map_values(|l: Vec<char>| l@),
            text@ == join_lines(view.take(i as int)),
        decreases lines.len() - i,
    {
        if i > 0 {
            text.push('\n');
        }
        let line = &lines[i];
        let ghost before = text@;
        let mut k: usize = 0;
        while k < line.len()
            invariant
                k <= line.len(),
                text@ == before + line@.take(k as int),
            decreases line.len() - k,
        {
            text.push(line[k]);
            assert(line@.take(k as int + 1) =~= line@.take(k as int).push(line@[k as int]));
            k = k + 1;
        }
        assert(line@.take(line.len() as int) =~= line@);
        assert(view.take(i as int + 1).drop_last() =~= view.take(i as int));
        if i == 0 {
            assert(text@ =~= join_lines(view.take(1)));
        }
        i = i + 1;
    }
    assert(view.take(lines.len() as int) =~= view);
    text
}

} // verus!
