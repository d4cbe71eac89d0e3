//! What the updater reads from files on the device: the installed version marker and
//! the font preference.

use vstd::prelude::*;
use crate::text::{contains, has_substring};

verus! {

/// A character with the Unicode `White_Space` property.
pub open spec fn is_white_space(c: char) -> bool {
    let u = c as u32;
    (0x9 <= u <= 0xd) || u == 0x20 || u == 0x85 || u == 0xa0 || u == 0x1680 || (0x2000 <= u
        <= 0x200a) || u == 0x2028 || u == 0x2029 || u == 0x202f || u == 0x205f || u == 0x3000
}

fn white_space(c: char) -> (r: bool)
    ensures
        r == is_white_space(c),
{
    let u = c as u32;
    (0x9 <= u && u <= 0xd) || u == 0x20 || u == 0x85 || u == 0xa0 || u == 0x1680 || (0x2000 <= u
        && u <= 0x200a) || u == 0x2028 || u == 0x2029 || u == 0x202f || u == 0x205f || u == 0x3000
}

/// `r` is `s` without its leading and trailing white space.
pub open spec fn trims_to(s: Seq<char>, r: Seq<char>) -> bool {
    exists|a: int, b: int|
        0 <= a <= b <= s.len() && r == s.subrange(a, b) && (forall|i: int|
            0 <= i < a ==> is_white_space(#[trigger] s[i])) && (forall|i: int|
            b <= i < s.len() ==> is_white_space(#[trigger] s[i])) && (a < b ==> !is_white_space(
            s[a],
        ) && !is_white_space(s[b - 1]))
}

/// `s` without its leading and trailing white space.
pub fn trim(s: &str) -> (r: String)
    ensures
        trims_to(s@, r@),
        r@.len() == 0 <==> forall|i: int| 0 <= i < s@.len() ==> is_white_space(#[trigger] s@[i]),
{
    let n = s.unicode_len();
    let mut a: usize = 0;
    while a < n && white_space(s.get_char(a))
        invariant
            n == s@.len(),
            a <= n,
            forall|i: int| 0 <= i < a ==> is_white_space(#[trigger] s@[i]),
        decreases n - a,
    {
        a = a + 1;
    }
    let mut b: usize = n;
    while b > a && white_space(s.get_char(b - 1))
        invariant
            n == s@.len(),
            a <= b <= n,
            forall|i: int| b <= i < n ==> is_white_space(#[trigger] s@[i]),
        decreases b - a,
    {
        b = b - 1;
    }
    let r = String::from_str(s.substring_char(a, b));
    assert(r@ =~= s@.subrange(a as int, b as int));
    assert(trims_to(s@, r@));
    if a < b {
        assert(!is_white_space(s@[a as int]));
    } else {
        assert forall|i: int| 0 <= i < s@.len() implies is_white_space(#[trigger] s@[i]) by {
            if i >= a {
                assert(i >= b);
            }
        }
    }
    r
}

/// `line` is the second line of `text`: what stands between its first and its second
/// line break, or the end of the text.
pub open spec fn is_second_line(text: Seq<char>, line: Seq<char>) -> bool {
    exists|a: int, b: int| #[trigger] breaks_at(text, a, b) && line == text.subrange(a + 1, b)
}

/// The first line break of `text` is at `a`, and the next one at `b` (or the text
/// ends there).
pub open spec fn breaks_at(text: Seq<char>, a: int, b: int) -> bool {
    &&& 0 <= a < b <= text.len()
    &&& text[a] == '\n'
    &&& forall|i: int| 0 <= i < a ==> text[i] != '\n'
    &&& forall|i: int| a < i < b ==> text[i] != '\n'
    &&& b == text.len() || text[b] == '\n'
}

/// The installed version named in the version marker `text`: its second line without
/// surrounding white space (as `str::trim` strips it); `None` when there is no second line or it is blank.
pub fn installed_version(text: &str) -> (r: Option<String>)
    ensures
        r matches Some(v) ==> exists|line: Seq<char>|
            is_second_line(text@, line) && trims_to(line, v@) && v@.len() > 0,
        r is None ==> forall|line: Seq<char>|
            is_second_line(text@, line) ==> forall|i: int|
                0 <= i < line.len() ==> is_white_space(#[trigger] line[i]),
{
    let n = text.unicode_len();
    let mut a: usize = 0;
    while a < n && text.get_char(a) != '\n'
        invariant
            n == text@.len(),
            a <= n,
            forall|i: int| 0 <= i < a ==> text@[i] != '\n',
        decreases n - a,
    {
        a = a + 1;
    }
    if a == n {
        assert forall|line: Seq<char>| is_second_line(text@, line) implies forall|i: int|
            0 <= i < line.len() ==> is_white_space(#[trigger] line[i]) by {
            let (x, y) = choose|x: int, y: int| #[trigger] breaks_at(text@, x, y) && line == text@.subrange(x + 1, y);
            assert(text@[x] == '\n');
        }
        return None;
    }
    let mut b: usize = a + 1;
    while b < n && text.get_char(b) != '\n'
        invariant
            n == text@.len(),
            a < b <= n,
            forall|i: int| a < i < b ==> text@[i] != '\n',
        decreases n - b,
    {
        b = b + 1;
    }
    let line = text.substring_char(a + 1, b);
    assert(breaks_at(text@, a as int, b as int));
    assert(is_second_line(text@, line@));
    let v = trim(line);
    if v.as_str().unicode_len() == 0 {
        assert forall|l: Seq<char>| is_second_line(text@, l) implies forall|i: int|
            0 <= i < l.len() ==> is_white_space(#[trigger] l[i]) by {
            let (x, y) = choose|x: int, y: int| #[trigger] breaks_at(text@, x, y) && l == text@.subrange(x + 1, y);
            if x < a {
                assert(text@[x] != '\n');
            } else if x > a {
                assert(text@[a as int] != '\n');
            } else {
                if y < b {
                    assert(text@[y] != '\n');
                } else if y > b {
                    assert(text@[b as int] != '\n');
                }
                assert(l =~= line@);
            }
        }
        None
    } else {
        Some(v)
    }
}

/// The index of the font the user chose in the settings `text`: 1 when it holds
/// `font=1`, else 0.
pub fn font_preference(text: &str) -> (r: usize)
    ensures
        r == (if has_substring(text@, "font=1"@) {
            1usize
        } else {
            0usize
        }),
{
    if contains(text, "font=1") {
        1
    } else {
        0
    }
}

} // verus!
