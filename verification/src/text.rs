//! Text building blocks: appending characters to a `String`, decimal
//! rendering of integers, and byte-level search.

use vstd::prelude::*;

verus! {

/// `String::push`: the character is appended at the end.
#[verifier::external_body]
pub fn string_push(s: &mut String, c: char)
    ensures
        final(s)@ == old(s)@.push(c),
{
    s.push(c);
}

/// The digit character for a value below ten.
pub open spec fn digit_char(d: int) -> char {
    (('0' as int) + d) as char
}

/// Decimal digits of a natural number, most significant first, no leading zeros.
pub open spec fn digits_text(n: nat) -> Seq<char>
    decreases n,
{
    if n < 10 {
        seq![digit_char(n as int)]
    } else {
        digits_text(n / 10).push(digit_char((n % 10) as int))
    }
}

/// Decimal text of an integer, with a leading `-` when negative; the form
/// in which `{}` formats an integer.
pub open spec fn int_text(n: int) -> Seq<char> {
    if n < 0 {
        seq!['-'] + digits_text((-n) as nat)
    } else {
        digits_text(n as nat)
    }
}

fn push_digit(s: &mut String, d: u128)
    requires
        d < 10,
    ensures
        final(s)@ == old(s)@.push(digit_char(d as int)),
{
    let c: char = if d == 0 { '0' } else if d == 1 { '1' } else if d == 2 { '2' } else if d == 3 {
        '3'
    } else if d == 4 { '4' } else if d == 5 { '5' } else if d == 6 { '6' } else if d == 7 {
        '7'
    } else if d == 8 { '8' } else { '9' };
    string_push(s, c);
}

/// Appends the decimal digits of `n`.
pub fn push_digits(s: &mut String, n: u128)
    ensures
        final(s)@ == old(s)@ + digits_text(n as nat),
    decreases n,
{
    if n >= 10 {
        push_digits(s, n / 10);
        push_digit(s, n % 10);
    } else {
        push_digit(s, n);
    }
}

/// Appends the decimal text of `n`.
pub fn push_int(s: &mut String, n: i128)
    ensures
        final(s)@ == old(s)@ + int_text(n as int),
{
    if n < 0 {
        string_push(s, '-');
        let magnitude: u128 = if n == i128::MIN {
            170141183460469231731687303715884105728u128
        } else {
            (-n) as u128
        };
        push_digits(s, magnitude);
        assert(final(s)@ =~= old(s)@ + int_text(n as int)) by {
            assert(old(s)@.push('-') + digits_text(magnitude as nat) =~= old(s)@ + (seq!['-'] + digits_text(magnitude as nat)));
        }
    } else {
        push_digits(s, n as u128);
    }
}

/// Bytes that `text` holds at `start`, compared with `pattern`.
pub open spec fn occurs_at(text: Seq<u8>, pattern: Seq<u8>, start: int) -> bool {
    0 <= start && start + pattern.len() <= text.len() && text.subrange(start, start + pattern.len()) == pattern
}

/// `pattern` occurs somewhere in `text`.
pub open spec fn contains_bytes(text: Seq<u8>, pattern: Seq<u8>) -> bool {
    exists|i: int| occurs_at(text, pattern, i)
}

/// Whether `pattern` occurs as a contiguous run of bytes in `text`.
pub fn find_bytes(text: &[u8], pattern: &[u8]) -> (r: bool)
    ensures
        r == contains_bytes(text@, pattern@),
{
    if pattern.len() > text.len() {
        assert forall|i: int| !occurs_at(text@, pattern@, i) by {}
        return false;
    }
    let last = text.len() - pattern.len();
    let mut start: usize = 0;
    loop
        invariant
            last == text@.len() - pattern@.len(),
            pattern@.len() <= text@.len(),
            start <= last,
            forall|i: int| 0 <= i < start ==> !occurs_at(text@, pattern@, i),
        decreases last - start,
    {
        let mut k: usize = 0;
        let mut same = true;
        while k < pattern.len()
            invariant
                start <= last,
                last == text@.len() - pattern@.len(),
                pattern@.len() <= text@.len(),
                k <= pattern@.len(),
                text@.len() == text.len(),
                same == (forall|j: int| 0 <= j < k ==> text@[start + j] == pattern@[j]),
            decreases pattern@.len() - k,
        {
            if text[start + k] != pattern[k] {
                same = false;
            }
            k = k + 1;
        }
        if same {
            assert(text@.subrange(start as int, start + pattern@.len()) =~= pattern@);
            assert(occurs_at(text@, pattern@, start as int));
            return true;
        }
        assert(!occurs_at(text@, pattern@, start as int)) by {
            let j = choose|j: int| 0 <= j < pattern@.len() && text@[start + j] != pattern@[j];
            assert(text@.subrange(start as int, start + pattern@.len())[j] != pattern@[j]);
        }
        if start == last {
            assert forall|i: int| !occurs_at(text@, pattern@, i) by {
                if 0 <= i && i + pattern@.len() <= text@.len() {
                    assert(i <= start);
                }
            }
            return false;
        }
        start = start + 1;
    }
}

} // verus!
