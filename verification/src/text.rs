//! Small verified operations on text.

use vstd::prelude::*;
use vstd::string::StringExecFns;
use vstd::string::StrSliceExecFns;

verus! {

/// Whether two strings hold the same characters.
pub fn same_text(a: &str, b: &str) -> (r: bool)
    ensures
        r == (a@ == b@),
{
    let x = String::from_str(a);
    let y = String::from_str(b);
    x == y
}

/// `a` followed by `b`.
pub fn join(a: &str, b: &str) -> (r: String)
    ensures
        r@ == a@ + b@,
{
    let mut r = String::from_str(a);
    r.append(b);
    r
}

/// Whether `c` is one of `0`-`9`, `a`-`f`, `A`-`F`.
pub open spec fn is_hex_digit(c: char) -> bool {
    ('0' <= c && c <= '9') || ('a' <= c && c <= 'f') || ('A' <= c && c <= 'F')
}

/// Whether `c` is one of `0`-`9`, `a`-`f`, `A`-`F`.
pub fn hex_digit(c: char) -> (r: bool)
    ensures
        r == is_hex_digit(c),
{
    ('0' <= c && c <= '9') || ('a' <= c && c <= 'f') || ('A' <= c && c <= 'F')
}

/// The position of the first `c` in `s` at or behind `from`; the length of
/// `s` if there is none.
pub open spec fn first_at(s: Seq<char>, c: char, from: int) -> int
    decreases s.len() - from,
{
    if from >= s.len() {
        s.len() as int
    } else if s[from] == c {
        from
    } else {
        first_at(s, c, from + 1)
    }
}

/// The position of the first `c` in `s` at or behind `from`; the length of
/// `s` if there is none.
pub fn find_char(s: &str, c: char, from: usize) -> (r: usize)
    ensures
        r == first_at(s@, c, from as int),
        r <= s@.len(),
        from <= s@.len() ==> from <= r,
{
    let n = s.unicode_len();
    if from >= n {
        return n;
    }
    let mut i = from;
    while i < n
        invariant
            from <= i <= n,
            n == s@.len(),
            first_at(s@, c, from as int) == first_at(s@, c, i as int),
        decreases n - i,
    {
        if s.get_char(i) == c {
            return i;
        }
        i += 1;
    }
    i
}

/// `part` stands in `s` at position `from`.
pub open spec fn occurs_at(s: Seq<char>, from: int, part: Seq<char>) -> bool {
    0 <= from && from + part.len() <= s.len() && s.subrange(from, from + part.len()) == part
}

/// Whether `part` stands in `s` at position `from`.
pub fn has_at(s: &str, from: usize, part: &str) -> (r: bool)
    ensures
        r == occurs_at(s@, from as int, part@),
{
    let n = part.unicode_len();
    let len = s.unicode_len();
    if from > len || len - from < n {
        return false;
    }
    let mut i: usize = 0;
    while i < n
        invariant
            i <= n,
            n == part@.len(),
            len == s@.len(),
            from + n <= len,
            forall|k: int| 0 <= k < i ==> s@[from + k] == part@[k],
        decreases n - i,
    {
        if s.get_char(from + i) != part.get_char(i) {
            assert(s@.subrange(from as int, from + n)[i as int] != part@[i as int]);
            return false;
        }
        i += 1;
    }
    assert(s@.subrange(from as int, from + n) =~= part@);
    true
}

/// `s` without the copies of `prefix` that it begins with.
pub open spec fn stripped(s: Seq<char>, prefix: Seq<char>) -> Seq<char>
    decreases s.len(),
{
    if prefix.len() > 0 && occurs_at(s, 0, prefix) {
        stripped(s.skip(prefix.len() as int), prefix)
    } else {
        s
    }
}

/// `s` without the copies of `prefix` that it begins with.
pub fn strip_prefixes(s: &str, prefix: &str) -> (r: String)
    ensures
        r@ == stripped(s@, prefix@),
{
    let n = prefix.unicode_len();
    let len = s.unicode_len();
    if n == 0 {
        return String::from_str(s);
    }
    let mut from: usize = 0;
    proof {
        assert(s@.skip(0) =~= s@);
    }
    while has_at(s, from, prefix)
        invariant
            from <= len,
            len == s@.len(),
            n == prefix@.len(),
            n > 0,
            stripped(s@, prefix@) == stripped(s@.skip(from as int), prefix@),
        decreases len - from,
    {
        proof {
            let rest = s@.skip(from as int);
            assert(rest.subrange(0, n as int) =~= s@.subrange(from as int, from + n));
            assert(rest.skip(n as int) =~= s@.skip(from + n));
        }
        from += n;
    }
    proof {
        let rest = s@.skip(from as int);
        if from + n <= len {
            assert(rest.subrange(0, n as int) =~= s@.subrange(from as int, from + n));
        }
        assert(s@.subrange(from as int, len as int) =~= rest);
    }
    String::from_str(s.substring_char(from, len))
}

/// What `str::trim` makes of a text: the text without the white space at
/// its two ends.
pub uninterp spec fn trimmed(s: Seq<char>) -> Seq<char>;

/// `str::trim` of the standard library, which removes leading and trailing
/// white space as Unicode defines it; the result is named, not spelled out.
#[verifier::external_body]
pub(crate) fn trim(s: &str) -> (r: String)
    ensures
        r@ == trimmed(s@),
{
    s.trim().to_string()
}

} // verus!
