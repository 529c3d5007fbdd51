use vstd::prelude::*;

use crate::text::{all_white, chars_of, slice_all_white, slice_starts_with, starts_with};

verus! {

/// `s[a..b]` is one line of `s`: it begins at the start of `s` or just after a
/// line feed, and runs up to the next line feed or the end of `s`.
pub open spec fn is_line(s: Seq<char>, a: int, b: int) -> bool {
    &&& 0 <= a <= b <= s.len()
    &&& (a == 0 || s[a - 1] == '\n')
    &&& (b == s.len() || s[b] == '\n')
    &&& forall|k: int| a <= k < b ==> s[k] != '\n'
}

/// A line that the robots.txt policy accepts: a `User-agent:`, `Disallow:` or
/// `Allow:` directive (exact, case-sensitive prefix), a `#` comment, or a blank line.
/// A carriage return before the line feed is whitespace and never part of a
/// prefix, so it changes nothing.
pub open spec fn line_ok(l: Seq<char>) -> bool {
    ||| starts_with(l, "User-agent:"@)
    ||| starts_with(l, "Disallow:"@)
    ||| starts_with(l, "Allow:"@)
    ||| all_white(l)
    ||| starts_with(l, "#"@)
}

/// A robots.txt body is valid iff every one of its lines is accepted.
pub open spec fn robots_valid(s: Seq<char>) -> bool {
    forall|a: int, b: int| #[trigger] is_line(s, a, b) ==> line_ok(s.subrange(a, b))
}

/// Whether one line `s[a..b]` is accepted.
fn check_line(
    s: &Vec<char>,
    a: usize,
    b: usize,
    user_agent: &Vec<char>,
    disallow: &Vec<char>,
    allow: &Vec<char>,
    hash: &Vec<char>,
) -> (r: bool)
    requires
        a <= b <= s@.len(),
        user_agent@ == "User-agent:"@,
        disallow@ == "Disallow:"@,
        allow@ == "Allow:"@,
        hash@ == "#"@,
    ensures
        r == line_ok(s@.subrange(a as int, b as int)),
{
    slice_starts_with(s, a, b, user_agent) || slice_starts_with(s, a, b, disallow)
        || slice_starts_with(s, a, b, allow) || slice_all_white(s, a, b)
        || slice_starts_with(s, a, b, hash)
}

/// Checks a robots.txt body line by line; one line that is not accepted makes
/// the whole file invalid.
pub fn is_valid_robots_txt(content: &str) -> (r: bool)
    ensures
        r == robots_valid(content@),
{
    let s = chars_of(content);
    let user_agent = chars_of("User-agent:");
    let disallow = chars_of("Disallow:");
    let allow = chars_of("Allow:");
    let hash = chars_of("#");
    let ghost sq = s@;
    let mut start: usize = 0;
    let mut i: usize = 0;
    while i < s.len()
        invariant
            sq == s@,
            sq == content@,
            user_agent@ == "User-agent:"@,
            disallow@ == "Disallow:"@,
            allow@ == "Allow:"@,
            hash@ == "#"@,
            start <= i <= sq.len(),
            start == 0 || sq[start - 1] == '\n',
            forall|k: int| start <= k < i ==> sq[k] != '\n',
            forall|a: int, b: int| #[trigger] is_line(sq, a, b) && a < start ==> line_ok(sq.subrange(a, b)),
        decreases sq.len() - i,
    {
        if s[i] == '\n' {
            assert(is_line(sq, start as int, i as int));
            if !check_line(&s, start, i, &user_agent, &disallow, &allow, &hash) {
                return false;
            }
            assert forall|a: int, b: int| #[trigger] is_line(sq, a, b) && a < i + 1 implies line_ok(sq.subrange(a, b)) by {
                if a >= start {
                    if a > start {
                        assert(sq[a - 1] != '\n');
                    }
                    if b > i {
                        assert(sq[i as int] != '\n');
                    }
                    if b < i {
                        assert(sq[b] != '\n');
                    }
                }
            }
            start = i + 1;
        }
        i = i + 1;
    }
    assert(is_line(sq, start as int, i as int));
    if !check_line(&s, start, i, &user_agent, &disallow, &allow, &hash) {
        return false;
    }
    assert forall|a: int, b: int| #[trigger] is_line(sq, a, b) implies line_ok(sq.subrange(a, b)) by {
        if a >= start {
            if a > start {
                assert(sq[a - 1] != '\n');
            }
            if b < i {
                assert(sq[b] != '\n');
            }
        }
    }
    true
}

} // verus!

verus! {

/// A single line that the policy does not accept makes the whole file invalid.
pub proof fn lemma_bad_line_invalidates(s: Seq<char>, a: int, b: int)
    requires
        is_line(s, a, b),
        !line_ok(s.subrange(a, b)),
    ensures
        !robots_valid(s),
{
}

} // verus!
