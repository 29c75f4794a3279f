//! The platform UUID in the output of `ioreg -rd1 -c IOPlatformExpertDevice`.
//!
//! The utility prints one property per line, as in
//! `"IOPlatformUUID" = "9C8A3F2E-..."`. The identifier is the fourth of the
//! fields that the quotation marks of such a line delimit.

use crate::text::{
    chars_of, contains_in, contains_text, field_bounds, find_char, find_char_in, split_on, trim,
    trim_bounds,
};
use vstd::prelude::*;
use vstd::slice::slice_subrange;

verus! {

/// `line` without one trailing carriage return.
pub open spec fn strip_cr(line: Seq<char>) -> Seq<char> {
    if line.len() > 0 && line.last() == '\r' {
        line.drop_last()
    } else {
        line
    }
}

/// The lines of `s`. A line ends with a line feed, or with a carriage
/// return and a line feed; neither belongs to the line. What follows the
/// last line feed is a line of its own unless it is empty.
pub open spec fn text_lines(s: Seq<char>) -> Seq<Seq<char>>
    decreases s.len(),
{
    let at = find_char(s, '\n');
    if s.len() == 0 {
        seq![]
    } else if 0 <= at < s.len() {
        seq![strip_cr(s.take(at))] + text_lines(s.skip(at + 1))
    } else {
        seq![s]
    }
}

/// The identifier that `line` gives: if the line names the property and has
/// at least four fields between quotation marks, the fourth field, trimmed,
/// unless that is empty.
pub open spec fn line_uuid(line: Seq<char>) -> Option<Seq<char>> {
    let fields = split_on(line, '"');
    if contains_text(line, "IOPlatformUUID"@) && fields.len() >= 4 && trim(fields[3]).len() > 0 {
        Some(trim(fields[3]))
    } else {
        None
    }
}

/// The identifier of the first of `lines` that gives one.
pub open spec fn first_uuid(lines: Seq<Seq<char>>) -> Option<Seq<char>>
    decreases lines.len(),
{
    if lines.len() == 0 {
        None
    } else if line_uuid(lines[0]) is Some {
        line_uuid(lines[0])
    } else {
        first_uuid(lines.drop_first())
    }
}

/// The platform UUID that the utility's output gives, if any.
pub open spec fn platform_uuid(output: Seq<char>) -> Option<Seq<char>> {
    first_uuid(text_lines(output))
}

/// The identifier found is never empty.
pub proof fn lemma_platform_uuid_not_empty(output: Seq<char>)
    ensures
        platform_uuid(output) matches Some(id) ==> id.len() > 0,
{
    lemma_first_uuid_not_empty(text_lines(output));
}

proof fn lemma_first_uuid_not_empty(lines: Seq<Seq<char>>)
    ensures
        first_uuid(lines) matches Some(id) ==> id.len() > 0,
    decreases lines.len(),
{
    if lines.len() > 0 && line_uuid(lines[0]) is None {
        lemma_first_uuid_not_empty(lines.drop_first());
    }
}

/// The bounds in `line` of the identifier that it gives; `key` is the name
/// of the property.
fn line_uuid_bounds(line: &[char], key: &[char]) -> (found: Option<(usize, usize)>)
    requires
        key@ == "IOPlatformUUID"@,
    ensures
        match found {
            Some((a, b)) => a <= b <= line.len() && line_uuid(line@) == Some(
                line@.subrange(a as int, b as int),
            ),
            None => line_uuid(line@) is None,
        },
{
    if !contains_in(line, key) {
        return None;
    }
    match field_bounds(line, '"', 3) {
        None => None,
        Some((fa, fb)) => {
            let field = slice_subrange(line, fa, fb);
            let (ta, tb) = trim_bounds(field);
            proof {
                assert(field@.subrange(ta as int, tb as int) =~= line@.subrange(
                    fa + ta,
                    fa + tb,
                ));
            }
            if ta == tb {
                None
            } else {
                Some((fa + ta, fa + tb))
            }
        },
    }
}

/// The bounds in `output` of the platform UUID that it gives.
pub fn platform_uuid_bounds(output: &[char]) -> (found: Option<(usize, usize)>)
    ensures
        match found {
            Some((a, b)) => a <= b <= output.len() && platform_uuid(output@) == Some(
                output@.subrange(a as int, b as int),
            ),
            None => platform_uuid(output@) is None,
        },
{
    let n: usize = output.len();
    let key = chars_of("IOPlatformUUID");
    let mut pos: usize = 0;
    proof {
        assert(output@.skip(0) =~= output@);
    }
    while pos < n
        invariant
            pos <= n == output.len(),
            key@ == "IOPlatformUUID"@,
            platform_uuid(output@) == first_uuid(text_lines(output@.skip(pos as int))),
        decreases n - pos,
    {
        let rest = slice_subrange(output, pos, n);
        let width: usize = find_char_in(rest, '\n');
        let end: usize = pos + width;
        let terminated = end < n;
        let line_end: usize = if terminated && end > pos && output[end - 1] == '\r' {
            end - 1
        } else {
            end
        };
        let line = slice_subrange(output, pos, line_end);
        proof {
            let tail = output@.skip(pos as int);
            let lines = text_lines(tail);
            assert(rest@ == tail);
            assert(tail.take(width as int) =~= output@.subrange(pos as int, end as int));
            if terminated {
                assert(tail.skip(width + 1) =~= output@.skip(end + 1));
                assert(strip_cr(tail.take(width as int)) =~= line@);
                assert(lines.drop_first() =~= text_lines(output@.skip(end + 1)));
            } else {
                assert(tail =~= line@);
                assert(lines.drop_first() =~= Seq::<Seq<char>>::empty());
                assert(first_uuid(lines.drop_first()) is None);
            }
            assert(lines[0] == line@);
        }
        match line_uuid_bounds(line, key.as_slice()) {
            Some((a, b)) => {
                proof {
                    assert(line@.subrange(a as int, b as int) =~= output@.subrange(
                        pos + a,
                        pos + b,
                    ));
                }
                return Some((pos + a, pos + b));
            },
            None => {},
        }
        if !terminated {
            return None;
        }
        pos = end + 1;
    }
    proof {
        assert(output@.skip(pos as int).len() == 0);
    }
    None
}

/// The platform UUID that the utility's output gives, if any.
pub fn parse_platform_uuid(output: &str) -> (id: Option<String>)
    ensures
        match id {
            Some(text) => platform_uuid(output@) == Some(text@),
            None => platform_uuid(output@) is None,
        },
{
    let chars = chars_of(output);
    match platform_uuid_bounds(chars.as_slice()) {
        Some((a, b)) => Some(output.substring_char(a, b).to_owned()),
        None => None,
    }
}

} // verus!
