//! UTF-8 well-formedness.
//!
//! The bytes of a `Text` cell must be well-formed UTF-8 before they may
//! become a string or be matched against enumeration variant names. The
//! well-formedness predicate below follows the encoding's grammar: a
//! sequence is well formed when it is a concatenation of scalar-value
//! encodings of one to four bytes, with overlong forms, surrogate code
//! points and values above U+10FFFF excluded.

use vstd::prelude::*;

verus! {

/// A UTF-8 continuation byte.
pub open spec fn is_cont_byte(b: u8) -> bool {
    0x80 <= b && b <= 0xBF
}

/// Length of the well-formed scalar encoding that starts at index `i` of
/// `s`, or 0 if no well-formed encoding starts there (a stray continuation
/// byte, an overlong or out-of-range form, or an encoding truncated by the
/// end of the sequence).
pub open spec fn utf8_step(s: Seq<u8>, i: int) -> int
    recommends
        0 <= i < s.len(),
{
    let b0 = s[i];
    if b0 <= 0x7F {
        1
    } else if 0xC2 <= b0 && b0 <= 0xDF {
        if i + 2 <= s.len() && is_cont_byte(s[i + 1]) {
            2
        } else {
            0
        }
    } else if b0 == 0xE0 {
        if i + 3 <= s.len() && 0xA0 <= s[i + 1] && s[i + 1] <= 0xBF && is_cont_byte(s[i + 2]) {
            3
        } else {
            0
        }
    } else if 0xE1 <= b0 && b0 <= 0xEC {
        if i + 3 <= s.len() && is_cont_byte(s[i + 1]) && is_cont_byte(s[i + 2]) {
            3
        } else {
            0
        }
    } else if b0 == 0xED {
        if i + 3 <= s.len() && 0x80 <= s[i + 1] && s[i + 1] <= 0x9F && is_cont_byte(s[i + 2]) {
            3
        } else {
            0
        }
    } else if 0xEE <= b0 && b0 <= 0xEF {
        if i + 3 <= s.len() && is_cont_byte(s[i + 1]) && is_cont_byte(s[i + 2]) {
            3
        } else {
            0
        }
    } else if b0 == 0xF0 {
        if i + 4 <= s.len() && 0x90 <= s[i + 1] && s[i + 1] <= 0xBF && is_cont_byte(s[i + 2])
            && is_cont_byte(s[i + 3]) {
            4
        } else {
            0
        }
    } else if 0xF1 <= b0 && b0 <= 0xF3 {
        if i + 4 <= s.len() && is_cont_byte(s[i + 1]) && is_cont_byte(s[i + 2])
            && is_cont_byte(s[i + 3]) {
            4
        } else {
            0
        }
    } else if b0 == 0xF4 {
        if i + 4 <= s.len() && 0x80 <= s[i + 1] && s[i + 1] <= 0x8F && is_cont_byte(s[i + 2])
            && is_cont_byte(s[i + 3]) {
            4
        } else {
            0
        }
    } else {
        0
    }
}

/// The position at which a greedy scan from `i` gets stuck: the scan takes
/// whole well-formed encodings while it can, and stops at the end of the
/// sequence or at the first position where no well-formed encoding starts.
pub open spec fn utf8_scan(s: Seq<u8>, i: int) -> int
    recommends
        0 <= i <= s.len(),
    decreases s.len() - i,
{
    if i < 0 || i >= s.len() {
        i
    } else {
        let k = utf8_step(s, i);
        if k <= 0 || i + k > s.len() {
            i
        } else {
            utf8_scan(s, i + k)
        }
    }
}

/// The whole sequence is well-formed UTF-8.
pub open spec fn is_utf8(s: Seq<u8>) -> bool {
    utf8_scan(s, 0) == s.len()
}

/// Whether `b` is a continuation byte.
fn is_cont(b: u8) -> (r: bool)
    ensures
        r == is_cont_byte(b),
{
    0x80 <= b && b <= 0xBF
}

/// Length of the well-formed encoding starting at `i`, or 0 if none does.
fn step_at(bytes: &Vec<u8>, i: usize) -> (k: usize)
    requires
        i < bytes@.len(),
    ensures
        k as int == utf8_step(bytes@, i as int),
{
    let n = bytes.len();
    let b0 = bytes[i];
    if b0 <= 0x7F {
        1
    } else if 0xC2 <= b0 && b0 <= 0xDF {
        if n - i >= 2 && is_cont(bytes[i + 1]) {
            2
        } else {
            0
        }
    } else if b0 == 0xE0 {
        if n - i >= 3 && 0xA0 <= bytes[i + 1] && bytes[i + 1] <= 0xBF && is_cont(bytes[i + 2]) {
            3
        } else {
            0
        }
    } else if 0xE1 <= b0 && b0 <= 0xEC {
        if n - i >= 3 && is_cont(bytes[i + 1]) && is_cont(bytes[i + 2]) {
            3
        } else {
            0
        }
    } else if b0 == 0xED {
        if n - i >= 3 && 0x80 <= bytes[i + 1] && bytes[i + 1] <= 0x9F && is_cont(bytes[i + 2]) {
            3
        } else {
            0
        }
    } else if 0xEE <= b0 && b0 <= 0xEF {
        if n - i >= 3 && is_cont(bytes[i + 1]) && is_cont(bytes[i + 2]) {
            3
        } else {
            0
        }
    } else if b0 == 0xF0 {
        if n - i >= 4 && 0x90 <= bytes[i + 1] && bytes[i + 1] <= 0xBF && is_cont(bytes[i + 2])
            && is_cont(bytes[i + 3]) {
            4
        } else {
            0
        }
    } else if 0xF1 <= b0 && b0 <= 0xF3 {
        if n - i >= 4 && is_cont(bytes[i + 1]) && is_cont(bytes[i + 2]) && is_cont(bytes[i + 3]) {
            4
        } else {
            0
        }
    } else if b0 == 0xF4 {
        if n - i >= 4 && 0x80 <= bytes[i + 1] && bytes[i + 1] <= 0x8F && is_cont(bytes[i + 2])
            && is_cont(bytes[i + 3]) {
            4
        } else {
            0
        }
    } else {
        0
    }
}

/// Check that `bytes` is well-formed UTF-8. On failure, return the length
/// of the longest well-formed prefix: the index of the byte at which the
/// scan got stuck.
pub fn validate_utf8(bytes: &Vec<u8>) -> (r: Result<(), usize>)
    ensures
        r is Ok <==> is_utf8(bytes@),
        r matches Err(p) ==> {
            &&& p as int == utf8_scan(bytes@, 0)
            &&& p < bytes@.len()
            &&& utf8_step(bytes@, p as int) == 0
        },
{
    let n = bytes.len();
    let mut i: usize = 0;
    while i < n
        invariant
            i <= n,
            n == bytes@.len(),
            utf8_scan(bytes@, 0) == utf8_scan(bytes@, i as int),
        decreases n - i,
    {
        let k = step_at(bytes, i);
        if k == 0 {
            proof {
                assert(utf8_scan(bytes@, i as int) == i);
            }
            return Err(i);
        }
        proof {
            assert(utf8_scan(bytes@, i as int) == utf8_scan(bytes@, i + k));
        }
        i = i + k;
    }
    proof {
        assert(utf8_scan(bytes@, n as int) == n);
    }
    Ok(())
}

} // verus!
