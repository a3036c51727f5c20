//! Text helpers, stated over character sequences: comparison, decimal
//! numerals, and trimming.

use vstd::prelude::*;
use vstd::string::StringSliceAdditionalSpecFns;

verus! {

/// Whether `prefix` is an initial segment of `text`.
pub open spec fn is_prefix_of(prefix: Seq<char>, text: Seq<char>) -> bool {
    prefix.len() <= text.len() && text.subrange(0, prefix.len() as int) == prefix
}

/// Whether the first `upto` characters of `a` and `b` agree.
spec fn agree_upto(a: Seq<char>, b: Seq<char>, upto: int) -> bool {
    forall|j: int| 0 <= j < upto ==> a[j] == b[j]
}

/// Compares the first `count` characters of two slices.
fn leading_chars_equal(a: &str, b: &str, count: usize) -> (same: bool)
    requires
        count <= a@.len(),
        count <= b@.len(),
    ensures
        same == (a@.subrange(0, count as int) == b@.subrange(0, count as int)),
{
    let mut i: usize = 0;
    while i < count
        invariant
            i <= count,
            count <= a@.len(),
            count <= b@.len(),
            agree_upto(a@, b@, i as int),
        decreases count - i,
    {
        if a.get_char(i) != b.get_char(i) {
            proof {
                let x = a@.subrange(0, count as int);
                let y = b@.subrange(0, count as int);
                assert(x[i as int] != y[i as int]);
            }
            return false;
        }
        i += 1;
    }
    assert(a@.subrange(0, count as int) =~= b@.subrange(0, count as int));
    true
}

/// Equality of two string slices, decided on their bytes: two texts are
/// the same exactly if their encodings are.
pub fn text_eq(a: &str, b: &str) -> (same: bool)
    ensures
        same == (a@ == b@),
{
    let x = a.as_bytes();
    let y = b.as_bytes();
    proof {
        vstd::utf8::encode_utf8_decode_utf8(a@);
        vstd::utf8::encode_utf8_decode_utf8(b@);
    }
    if x.len() != y.len() {
        return false;
    }
    let mut i: usize = 0;
    while i < x.len()
        invariant
            i <= x.len(),
            x.len() == y.len(),
            x@ == a.spec_bytes(),
            y@ == b.spec_bytes(),
            forall|j: int| 0 <= j < i ==> x@[j] == y@[j],
        decreases x.len() - i,
    {
        if x[i] != y[i] {
            return false;
        }
        i += 1;
    }
    assert(x@ =~= y@);
    true
}

/// Whether `text` begins with `prefix`.
pub fn starts_with(text: &str, prefix: &str) -> (found: bool)
    ensures
        found == is_prefix_of(prefix@, text@),
{
    let n = prefix.unicode_len();
    if text.unicode_len() < n {
        return false;
    }
    let same = leading_chars_equal(text, prefix, n);
    proof {
        assert(prefix@.subrange(0, n as int) =~= prefix@);
    }
    same
}

/// The digit that stands for `digit`, which is below ten.
pub open spec fn digit_text(digit: nat) -> Seq<char> {
    if digit == 0 {
        "0"@
    } else if digit == 1 {
        "1"@
    } else if digit == 2 {
        "2"@
    } else if digit == 3 {
        "3"@
    } else if digit == 4 {
        "4"@
    } else if digit == 5 {
        "5"@
    } else if digit == 6 {
        "6"@
    } else if digit == 7 {
        "7"@
    } else if digit == 8 {
        "8"@
    } else {
        "9"@
    }
}

/// The decimal numeral of `value`, without leading zeros.
pub open spec fn decimal(value: nat) -> Seq<char>
    decreases value,
{
    if value < 10 {
        digit_text(value)
    } else {
        decimal(value / 10) + digit_text(value % 10)
    }
}

fn digit_str(digit: u8) -> (text: &'static str)
    requires
        digit < 10,
    ensures
        text@ == digit_text(digit as nat),
{
    if digit == 0 {
        "0"
    } else if digit == 1 {
        "1"
    } else if digit == 2 {
        "2"
    } else if digit == 3 {
        "3"
    } else if digit == 4 {
        "4"
    } else if digit == 5 {
        "5"
    } else if digit == 6 {
        "6"
    } else if digit == 7 {
        "7"
    } else if digit == 8 {
        "8"
    } else {
        "9"
    }
}

/// Appends the decimal numeral of `value` to `text`.
pub fn push_decimal(text: &mut String, value: u128)
    ensures
        final(text)@ == old(text)@ + decimal(value as nat),
    decreases value,
{
    if value >= 10 {
        push_decimal(text, value / 10);
    }
    text.append(digit_str((value % 10) as u8));
    proof {
        if value >= 10 {
            assert(old(text)@ + decimal(value as nat / 10) + digit_text(value as nat % 10)
                =~= old(text)@ + (decimal(value as nat / 10) + digit_text(value as nat % 10)));
        }
    }
}

/// Whether `c` is whitespace: one of the 25 characters with the Unicode
/// property White_Space.
pub open spec fn is_whitespace(c: char) -> bool {
    let code = c as u32;
    ||| 0x0009 <= code <= 0x000D
    ||| code == 0x0020
    ||| code == 0x0085
    ||| code == 0x00A0
    ||| code == 0x1680
    ||| 0x2000 <= code <= 0x200A
    ||| code == 0x2028
    ||| code == 0x2029
    ||| code == 0x202F
    ||| code == 0x205F
    ||| code == 0x3000
}

/// `text` without its leading whitespace.
pub open spec fn trimmed_start(text: Seq<char>) -> Seq<char>
    decreases text.len(),
{
    if text.len() > 0 && is_whitespace(text.first()) {
        trimmed_start(text.drop_first())
    } else {
        text
    }
}

/// `text` without its trailing whitespace.
pub open spec fn trimmed_end(text: Seq<char>) -> Seq<char>
    decreases text.len(),
{
    if text.len() > 0 && is_whitespace(text.last()) {
        trimmed_end(text.drop_last())
    } else {
        text
    }
}

/// `text` without its leading and trailing whitespace.
pub open spec fn trimmed(text: Seq<char>) -> Seq<char> {
    trimmed_end(trimmed_start(text))
}

/// Whether `c` is whitespace.
pub fn is_whitespace_char(c: char) -> (white: bool)
    ensures
        white == is_whitespace(c),
{
    let code = c as u32;
    (0x0009 <= code && code <= 0x000D) || code == 0x0020 || code == 0x0085 || code == 0x00A0
        || code == 0x1680 || (0x2000 <= code && code <= 0x200A) || code == 0x2028 || code
        == 0x2029 || code == 0x202F || code == 0x205F || code == 0x3000
}

/// The part of `text` between its leading and its trailing whitespace.
pub fn trim(text: &str) -> (inner: &str)
    ensures
        inner@ == trimmed(text@),
{
    let len = text.unicode_len();
    let mut start: usize = 0;
    proof {
        assert(text@.subrange(0, len as int) =~= text@);
    }
    loop
        invariant_except_break
            start <= len,
            len == text@.len(),
            trimmed_start(text@) == trimmed_start(text@.subrange(start as int, len as int)),
        ensures
            start <= len,
            len == text@.len(),
            trimmed_start(text@) == text@.subrange(start as int, len as int),
        decreases len - start,
    {
        if start == len || !is_whitespace_char(text.get_char(start)) {
            break ;
        }
        proof {
            let rest = text@.subrange(start as int, len as int);
            assert(rest.first() == text@[start as int]);
            assert(rest.drop_first() =~= text@.subrange(start + 1, len as int));
        }
        start += 1;
    }
    let mut end: usize = len;
    loop
        invariant_except_break
            start <= end <= len,
            len == text@.len(),
            trimmed(text@) == trimmed_end(text@.subrange(start as int, end as int)),
        ensures
            start <= end <= len,
            len == text@.len(),
            trimmed(text@) == text@.subrange(start as int, end as int),
        decreases end - start,
    {
        if end == start || !is_whitespace_char(text.get_char(end - 1)) {
            break ;
        }
        proof {
            let rest = text@.subrange(start as int, end as int);
            assert(rest.last() == text@[end - 1]);
            assert(rest.drop_last() =~= text@.subrange(start as int, end - 1));
        }
        end -= 1;
    }
    text.substring_char(start, end)
}

} // verus!
