//! Reading the lines of a response head.
//!
//! The head of a response arrives line by line: a status line, then one line for each
//! header, then an empty line.

use vstd::prelude::*;
use vstd::slice::slice_subrange;

verus! {

/// Whether the byte is a space, a tab, a carriage return or a line feed.
pub open spec fn is_space(b: u8) -> bool {
    b == 32 || b == 9 || b == 13 || b == 10
}

/// Whether the byte is a decimal digit.
pub open spec fn is_digit_byte(b: u8) -> bool {
    48 <= b && b <= 57
}

/// The index of the first byte from `from` on that is `byte`, and the length of the line
/// where there is none.
pub open spec fn first_index(line: Seq<u8>, byte: u8, from: int) -> int
    decreases line.len() - from,
{
    if from < 0 || from >= line.len() {
        line.len() as int
    } else if line[from] == byte {
        from
    } else {
        first_index(line, byte, from + 1)
    }
}

/// The index of the first byte from `from` on that is not white space, and the length of
/// the line where there is none.
pub open spec fn skip_spaces(line: Seq<u8>, from: int) -> int
    decreases line.len() - from,
{
    if from < 0 || from >= line.len() {
        line.len() as int
    } else if is_space(line[from]) {
        skip_spaces(line, from + 1)
    } else {
        from
    }
}

/// The index behind the last byte before `to` that is not white space, and `from` where
/// there is none behind `from`.
pub open spec fn drop_spaces(line: Seq<u8>, from: int, to: int) -> int
    decreases to - from,
{
    if to <= from || to > line.len() {
        from
    } else if is_space(line[to - 1]) {
        drop_spaces(line, from, to - 1)
    } else {
        to
    }
}

/// The text without the white space in front of it and behind it.
pub open spec fn trimmed(text: Seq<u8>) -> Seq<u8> {
    let start = skip_spaces(text, 0);
    text.subrange(start, drop_spaces(text, start, text.len() as int))
}

/// Whether the line ends the head of a response: it holds nothing but a line break.
pub open spec fn is_terminator(line: Seq<u8>) -> bool {
    line == seq![13u8, 10u8] || line == seq![10u8]
}

/// Whether the line begins like a status line: with `HTTP/`.
pub open spec fn is_status_line(line: Seq<u8>) -> bool {
    line.len() >= 5 && line[0] == 72 && line[1] == 84 && line[2] == 84 && line[3] == 80
        && line[4] == 47
}

/// The status code of a status line: the three digits behind the first space, which
/// are followed by no fourth.
pub open spec fn status_of(line: Seq<u8>) -> Option<u16> {
    let space = first_index(line, 32, 0);
    if is_status_line(line) && space + 4 <= line.len() && is_digit_byte(line[space + 1])
        && is_digit_byte(line[space + 2]) && is_digit_byte(line[space + 3]) && (space + 4
        == line.len() || !is_digit_byte(line[space + 4])) {
        Some(
            ((line[space + 1] - 48) * 100 + (line[space + 2] - 48) * 10 + (line[space + 3]
                - 48)) as u16,
        )
    } else {
        None
    }
}

/// The name and the value of a header line: the name is what stands before the first colon,
/// and is not empty; the value is what stands behind that colon, without the white space in
/// front of it and behind it.
pub open spec fn header_of(line: Seq<u8>) -> Option<(Seq<u8>, Seq<u8>)> {
    let colon = first_index(line, 58, 0);
    if 0 < colon && colon < line.len() {
        Some((line.take(colon), trimmed(line.skip(colon + 1))))
    } else {
        None
    }
}

/// The letter in lower case, where the byte is an upper-case ASCII letter.
pub open spec fn lower_byte(b: u8) -> u8 {
    if 65 <= b && b <= 90 {
        (b + 32) as u8
    } else {
        b
    }
}

/// Whether two names are the same but for the case of their letters.
pub open spec fn same_name(a: Seq<u8>, b: Seq<u8>) -> bool {
    a.len() == b.len() && forall|i: int| 0 <= i < a.len() ==> lower_byte(#[trigger] a[i]) == lower_byte(b[i])
}

/// Tells whether the line ends the head of a response.
pub fn ends_head(line: &[u8]) -> (ends: bool)
    ensures
        ends == is_terminator(line@),
{
    let ends = (line.len() == 2 && line[0] == 13 && line[1] == 10) || (line.len() == 1 && line[0]
        == 10);
    proof {
        if ends {
            if line.len() == 2 {
                assert(line@ =~= seq![13u8, 10u8]);
            } else {
                assert(line@ =~= seq![10u8]);
            }
        }
    }
    ends
}

/// Tells whether the line begins like a status line.
pub fn begins_status(line: &[u8]) -> (begins: bool)
    ensures
        begins == is_status_line(line@),
{
    line.len() >= 5 && line[0] == 72 && line[1] == 84 && line[2] == 84 && line[3] == 80 && line[4]
        == 47
}

/// Finds a byte in a line.
pub fn find_byte(line: &[u8], byte: u8) -> (index: usize)
    ensures
        index == first_index(line@, byte, 0),
        index <= line@.len(),
{
    let mut i: usize = 0;
    while i < line.len() && line[i] != byte
        invariant
            i <= line.len(),
            first_index(line@, byte, 0) == first_index(line@, byte, i as int),
        decreases line.len() - i,
    {
        i = i + 1;
    }
    i
}

/// Reads the status code of a status line.
pub fn parse_status(line: &[u8]) -> (status: Option<u16>)
    ensures
        status == status_of(line@),
{
    if !begins_status(line) {
        return None;
    }
    let space = find_byte(line, 32);
    if line.len() - space < 4 {
        return None;
    }
    let a = line[space + 1];
    let b = line[space + 2];
    let c = line[space + 3];
    if !(a >= 48 && a <= 57 && b >= 48 && b <= 57 && c >= 48 && c <= 57) {
        return None;
    }
    if space + 4 < line.len() && line[space + 4] >= 48 && line[space + 4] <= 57 {
        return None;
    }
    Some((a - 48) as u16 * 100 + (b - 48) as u16 * 10 + (c - 48) as u16)
}

/// Takes the white space off both ends of a text.
pub fn trim(text: &[u8]) -> (result: &[u8])
    ensures
        result@ == trimmed(text@),
{
    let mut start: usize = 0;
    while start < text.len() && (text[start] == 32 || text[start] == 9 || text[start] == 13
        || text[start] == 10)
        invariant
            start <= text.len(),
            skip_spaces(text@, 0) == skip_spaces(text@, start as int),
        decreases text.len() - start,
    {
        start = start + 1;
    }
    let mut end: usize = text.len();
    while end > start && (text[end - 1] == 32 || text[end - 1] == 9 || text[end - 1] == 13
        || text[end - 1] == 10)
        invariant
            start <= end <= text.len(),
            drop_spaces(text@, start as int, text@.len() as int) == drop_spaces(
                text@,
                start as int,
                end as int,
            ),
        decreases end - start,
    {
        end = end - 1;
    }
    slice_subrange(text, start, end)
}

/// Reads the name and the value of a header line.
pub fn parse_header(line: &[u8]) -> (header: Option<(&[u8], &[u8])>)
    ensures
        match header {
            Some((name, value)) => header_of(line@) == Some((name@, value@)),
            None => header_of(line@) is None,
        },
{
    let colon = find_byte(line, 58);
    if colon == 0 || colon >= line.len() {
        return None;
    }
    let name = slice_subrange(line, 0, colon);
    let rest = slice_subrange(line, colon + 1, line.len());
    let value = trim(rest);
    proof {
        assert(line@.take(colon as int) =~= line@.subrange(0, colon as int));
        assert(line@.skip(colon + 1) =~= line@.subrange(colon + 1, line@.len() as int));
    }
    Some((name, value))
}

/// Tells whether two names are the same but for the case of their letters.
pub fn names_match(a: &[u8], b: &[u8]) -> (same: bool)
    ensures
        same == same_name(a@, b@),
{
    if a.len() != b.len() {
        return false;
    }
    let mut i: usize = 0;
    while i < a.len()
        invariant
            i <= a.len(),
            a.len() == b.len(),
            forall|j: int| 0 <= j < i ==> lower_byte(#[trigger] a@[j]) == lower_byte(b@[j]),
        decreases a.len() - i,
    {
        let x = if a[i] >= 65 && a[i] <= 90 {
            a[i] + 32
        } else {
            a[i]
        };
        let y = if b[i] >= 65 && b[i] <= 90 {
            b[i] + 32
        } else {
            b[i]
        };
        if x != y {
            return false;
        }
        i = i + 1;
    }
    true
}

} // verus!
