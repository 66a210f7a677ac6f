use vstd::prelude::*;
use vstd::string::*;

verus! {

/// Whether `text` begins with `pattern`.
pub open spec fn has_prefix(text: Seq<char>, pattern: Seq<char>) -> bool {
    pattern.len() <= text.len() && text.subrange(0, pattern.len() as int) == pattern
}

/// `text` without the occurrences of `pattern`, found from left to right, each
/// search going on behind the occurrence before it. An empty pattern takes
/// nothing away.
pub open spec fn without_pattern(text: Seq<char>, pattern: Seq<char>) -> Seq<char>
    decreases text.len(),
{
    if text.len() == 0 || pattern.len() == 0 {
        text
    } else if has_prefix(text, pattern) {
        without_pattern(text.skip(pattern.len() as int), pattern)
    } else {
        seq![text[0]] + without_pattern(text.skip(1), pattern)
    }
}

/// Whether `pattern` stands in `text` at place `at`.
fn occurs_at(text: &str, at: usize, pattern: &str) -> (found: bool)
    requires
        at <= text@.len(),
    ensures
        found == has_prefix(text@.skip(at as int), pattern@),
{
    let length = text.unicode_len();
    let width = pattern.unicode_len();
    if width > length - at {
        return false;
    }
    let mut offset: usize = 0;
    while offset < width
        invariant
            offset <= width,
            width == pattern@.len(),
            length == text@.len(),
            at + width <= length,
            forall|i: int| 0 <= i < offset ==> text@[at + i] == pattern@[i],
        decreases width - offset,
    {
        if text.get_char(at + offset) != pattern.get_char(offset) {
            assert(text@.skip(at as int).subrange(0, width as int)[offset as int]
                != pattern@[offset as int]);
            return false;
        }
        offset = offset + 1;
    }
    assert(text@.skip(at as int).subrange(0, width as int) =~= pattern@);
    true
}

/// `text` without the occurrences of `pattern`.
pub fn remove_all(text: &str, pattern: &str) -> (cleaned: String)
    ensures
        cleaned@ == without_pattern(text@, pattern@),
{
    let length = text.unicode_len();
    let width = pattern.unicode_len();
    if width == 0 || length == 0 {
        return String::from_str(text);
    }
    let mut cleaned = String::new();
    let mut at: usize = 0;
    assert(text@.skip(0) =~= text@);
    while at < length
        invariant
            at <= length,
            length == text@.len(),
            width == pattern@.len(),
            width > 0,
            cleaned@ + without_pattern(text@.skip(at as int), pattern@) == without_pattern(
                text@,
                pattern@,
            ),
        decreases length - at,
    {
        let ghost rest = text@.skip(at as int);
        if occurs_at(text, at, pattern) {
            assert(rest.skip(width as int) =~= text@.skip(at + width));
            at = at + width;
        } else {
            let piece = text.substring_char(at, at + 1);
            assert(piece@ =~= seq![rest[0]]);
            assert(rest.skip(1) =~= text@.skip(at + 1));
            assert(cleaned@ + (seq![rest[0]] + without_pattern(rest.skip(1), pattern@)) =~= (
            cleaned@ + piece@) + without_pattern(rest.skip(1), pattern@));
            cleaned.append(piece);
            at = at + 1;
        }
    }
    assert(cleaned@ + Seq::<char>::empty() =~= cleaned@);
    cleaned
}

} // verus!
