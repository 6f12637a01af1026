//! Small verified string helpers shared by the pipeline: decimal
//! rendering of counters and sizes, path joining, and trimming of
//! trailing path separators.

use vstd::prelude::*;

verus! {

/// The decimal digit character for a value between 0 and 9.
pub open spec fn spec_digit_char(d: int) -> char {
    if d == 0 {
        '0'
    } else if d == 1 {
        '1'
    } else if d == 2 {
        '2'
    } else if d == 3 {
        '3'
    } else if d == 4 {
        '4'
    } else if d == 5 {
        '5'
    } else if d == 6 {
        '6'
    } else if d == 7 {
        '7'
    } else if d == 8 {
        '8'
    } else {
        '9'
    }
}

/// The usual decimal rendering of a non-negative integer, without
/// leading zeros (a plain `0` for zero).
pub open spec fn spec_dec_string(n: int) -> Seq<char>
    decreases n,
{
    if n < 10 {
        seq![spec_digit_char(n)]
    } else {
        spec_dec_string(n / 10).push(spec_digit_char(n % 10))
    }
}

fn digit_char(d: u32) -> (c: char)
    requires
        d < 10,
    ensures
        c == spec_digit_char(d as int),
{
    if d == 0 {
        '0'
    } else if d == 1 {
        '1'
    } else if d == 2 {
        '2'
    } else if d == 3 {
        '3'
    } else if d == 4 {
        '4'
    } else if d == 5 {
        '5'
    } else if d == 6 {
        '6'
    } else if d == 7 {
        '7'
    } else if d == 8 {
        '8'
    } else {
        '9'
    }
}

/// Relies on std's `String::push`: appends the given character at the
/// end of the string.
#[verifier::external_body]
pub(crate) fn push_char(s: &mut String, c: char)
    ensures
        final(s)@ == old(s)@.push(c),
{
    s.push(c);
}

/// Renders a number in decimal, as `spec_dec_string` states it.
pub fn u32_to_string(n: u32) -> (s: String)
    ensures
        s@ == spec_dec_string(n as int),
{
    let mut digits: Vec<char> = Vec::new();
    let mut m: u32 = n;
    while m >= 10
        invariant
            spec_dec_string(n as int) == spec_dec_string(m as int) + digits@.reverse(),
        decreases m,
    {
        let d = digit_char(m % 10);
        proof {
            assert(spec_dec_string(m as int) == spec_dec_string(m as int / 10).push(
                spec_digit_char(m as int % 10),
            ));
            assert(digits@.push(d).reverse() =~= seq![d] + digits@.reverse());
            assert(spec_dec_string(m as int / 10).push(d) + digits@.reverse()
                =~= spec_dec_string(m as int / 10) + (seq![d] + digits@.reverse()));
        }
        digits.push(d);
        m = m / 10;
    }
    let d = digit_char(m);
    proof {
        assert(spec_dec_string(m as int) == seq![d]);
        assert(digits@.push(d).reverse() =~= seq![d] + digits@.reverse());
    }
    digits.push(d);
    let ghost all = digits@;
    proof {
        assert(spec_dec_string(n as int) == all.reverse());
    }
    let mut s = String::new();
    let mut i: usize = digits.len();
    while i > 0
        invariant
            i <= digits.len(),
            digits@ == all,
            s@.len() == all.len() - i,
            forall|k: int| 0 <= k < s@.len() ==> s@[k] == all[all.len() - 1 - k],
        decreases i,
    {
        i = i - 1;
        push_char(&mut s, digits[i]);
    }
    proof {
        assert(s@ =~= all.reverse());
    }
    s
}

/// The views of a sequence of strings.
pub open spec fn spec_views(v: Seq<String>) -> Seq<Seq<char>> {
    v.map_values(|s: String| s@)
}

/// Compares two pieces of text character by character.
pub fn str_eq(a: &str, b: &str) -> (r: bool)
    ensures
        r == (a@ == b@),
{
    let n = a.unicode_len();
    let m = b.unicode_len();
    if n != m {
        return false;
    }
    let mut i: usize = 0;
    while i < n
        invariant
            i <= n,
            n == a@.len(),
            n == b@.len(),
            forall|k: int| 0 <= k < i ==> a@[k] == b@[k],
        decreases n - i,
    {
        if a.get_char(i) != b.get_char(i) {
            return false;
        }
        i = i + 1;
    }
    proof {
        assert(a@ =~= b@);
    }
    true
}

/// Joins two path components with a single separator.
pub fn path_join(a: &str, b: &str) -> (r: String)
    ensures
        r@ == a@ + "/"@ + b@,
{
    let r = String::from_str(a).concat("/").concat(b);
    proof {
        assert(r@ =~= a@ + "/"@ + b@);
    }
    r
}

/// The given text with every trailing `/` removed.
pub open spec fn spec_trim_trailing_slashes(s: Seq<char>) -> Seq<char>
    decreases s.len(),
{
    if s.len() > 0 && s.last() == '/' {
        spec_trim_trailing_slashes(s.drop_last())
    } else {
        s
    }
}

/// Removes every trailing `/` from the text.
pub fn trim_trailing_slashes(s: &str) -> (r: &str)
    ensures
        r@ == spec_trim_trailing_slashes(s@),
{
    let n = s.unicode_len();
    let mut end: usize = n;
    proof {
        assert(s@.subrange(0, n as int) =~= s@);
    }
    while end > 0 && s.get_char(end - 1) == '/'
        invariant
            end <= n,
            n == s@.len(),
            spec_trim_trailing_slashes(s@) == spec_trim_trailing_slashes(s@.subrange(0, end as int)),
        decreases end,
    {
        proof {
            let t = s@.subrange(0, end as int);
            assert(t.last() == s@[end - 1]);
            assert(t.drop_last() =~= s@.subrange(0, end - 1));
        }
        end = end - 1;
    }
    let r = s.substring_char(0, end);
    proof {
        let t = s@.subrange(0, end as int);
        if end > 0 {
            assert(t.last() == s@[end - 1]);
        }
        assert(spec_trim_trailing_slashes(t) == t);
        assert(s@.subrange(0, n as int) =~= s@);
    }
    r
}

} // verus!
