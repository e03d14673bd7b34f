//! Interpretation of the metadata probe's length header.
//!
//! The probe hands the raw bytes of the length header over; the resource
//! length is taken from them only when they spell a positive decimal
//! number that fits in `u64`. Anything else leaves the length unknown.

use vstd::prelude::*;

verus! {

/// `b` is an ASCII decimal digit.
pub open spec fn is_digit(b: u8) -> bool {
    48 <= b <= 57
}

/// Every byte of `s` is an ASCII decimal digit.
pub open spec fn all_digits(s: Seq<u8>) -> bool {
    forall|i: int| 0 <= i < s.len() ==> is_digit(s[i])
}

/// The number the digit string `s` spells in base ten.
pub open spec fn dec_value(s: Seq<u8>) -> int
    decreases s.len(),
{
    if s.len() == 0 {
        0
    } else {
        dec_value(s.drop_last()) * 10 + (s.last() - 48)
    }
}

/// The resource length encoded by a length header: present exactly when
/// the header is a nonempty digit string spelling a positive value that
/// fits in `u64`.
pub open spec fn spec_content_length(s: Seq<u8>) -> Option<u64> {
    if s.len() > 0 && all_digits(s) && 0 < dec_value(s) <= u64::MAX {
        Some(dec_value(s) as u64)
    } else {
        None
    }
}

proof fn lemma_dec_value_nonneg(s: Seq<u8>)
    requires
        all_digits(s),
    ensures
        dec_value(s) >= 0,
    decreases s.len(),
{
    if s.len() > 0 {
        assert(all_digits(s.drop_last()));
        lemma_dec_value_nonneg(s.drop_last());
    }
}

/// Appending digits never shrinks the spelled value.
proof fn lemma_dec_value_prefix_le(s: Seq<u8>, i: int)
    requires
        all_digits(s),
        0 <= i <= s.len(),
    ensures
        dec_value(s.subrange(0, i)) <= dec_value(s),
    decreases s.len() - i,
{
    if i == s.len() {
        assert(s.subrange(0, i) =~= s);
    } else {
        let p = s.subrange(0, i);
        let q = s.subrange(0, i + 1);
        assert(q.drop_last() =~= p);
        assert(all_digits(p));
        lemma_dec_value_nonneg(p);
        assert(dec_value(q) == dec_value(p) * 10 + (q.last() - 48));
        lemma_dec_value_prefix_le(s, i + 1);
    }
}

/// Parse a length header. Returns the length exactly when the header is a
/// nonempty string of decimal digits spelling a positive value that fits
/// in `u64`.
pub fn parse_content_length(s: &[u8]) -> (r: Option<u64>)
    ensures
        r == spec_content_length(s@),
{
    if s.len() == 0 {
        return None;
    }
    let mut acc: u64 = 0;
    let mut i: usize = 0;
    while i < s.len()
        invariant
            0 <= i <= s.len(),
            all_digits(s@.subrange(0, i as int)),
            acc == dec_value(s@.subrange(0, i as int)),
        decreases s@.len() - i,
    {
        let b = s[i];
        if b < 48 || b > 57 {
            assert(!is_digit(s@[i as int]));
            return None;
        }
        let d = (b - 48) as u64;
        let prefix = Ghost(s@.subrange(0, i as int));
        let extended = Ghost(s@.subrange(0, i as int + 1));
        proof {
            assert(extended@.drop_last() =~= prefix@);
            assert(dec_value(extended@) == acc * 10 + d);
        }
        if acc > u64::MAX / 10 || (acc == u64::MAX / 10 && d > u64::MAX % 10) {
            // The prefix already overflows, so the whole header does.
            proof {
                assert(dec_value(extended@) > u64::MAX);
                if all_digits(s@) {
                    lemma_dec_value_prefix_le(s@, i as int + 1);
                }
            }
            return None;
        }
        acc = acc * 10 + d;
        i = i + 1;
    }
    assert(s@.subrange(0, i as int) =~= s@);
    if acc == 0 {
        None
    } else {
        Some(acc)
    }
}

} // verus!
