use vstd::prelude::*;
use vstd::utf8::*;

verus! {

/// Decides whether `s` is a well-formed UTF-8 encoding, by walking the bytes
/// one encoded scalar at a time.
///
/// A scalar's width is fixed by its leading byte; the continuation bytes must
/// carry the continuation bit pattern, and the decoded codepoint must be
/// neither an overlong encoding, nor a surrogate, nor above the Unicode
/// maximum.
pub fn validate_utf8(s: &[u8]) -> (r: bool)
    ensures
        r == valid_utf8(s@),
{
    let n = s.len();
    let mut i: usize = 0;
    proof {
        assert(s@.subrange(0, n as int) =~= s@);
    }
    while i < n
        invariant
            i <= n,
            n == s@.len(),
            valid_utf8(s@) == valid_utf8(s@.subrange(i as int, n as int)),
        decreases n - i,
    {
        let ghost rest = s@.subrange(i as int, n as int);
        proof {
            assert(rest.len() == n - i);
            assert(valid_utf8(rest) == (valid_first_scalar(rest) && valid_utf8(
                pop_first_scalar(rest),
            )));
        }
        let b0 = s[i];
        if b0 < 0x80 {
            // A one-byte scalar; its codepoint is the byte itself.
            proof {
                assert(b0 & 0x7f == b0 && b0 & 0x7f < 0xd800) by (bit_vector)
                    requires
                        b0 < 0x80,
                ;
                assert(valid_first_scalar(rest));
                assert(pop_first_scalar(rest) =~= s@.subrange(i + 1, n as int));
            }
            i = i + 1;
        } else if b0 < 0xc0 {
            // A continuation byte cannot lead a scalar.
            proof {
                assert(!valid_leading_and_continuation_bytes_first_codepoint(rest));
            }
            return false;
        } else if b0 < 0xe0 {
            // A two-byte scalar: one continuation byte, codepoint at least 0x80.
            if n - i < 2 {
                return false;
            }
            let b1 = s[i + 1];
            if !(0x80 <= b1 && b1 <= 0xbf) {
                return false;
            }
            let cp: u32 = (((b0 & 0x1f) as u32) << 6u32) | ((b1 & 0x3f) as u32);
            if cp < 0x80 {
                proof {
                    assert(!not_overlong_encoding(decode_first_codepoint(rest), 2));
                }
                return false;
            }
            proof {
                assert((((b0 & 0x1f) as u32) << 6u32) | ((b1 & 0x3f) as u32) <= 0x7ff)
                    by (bit_vector);
                assert(valid_first_scalar(rest));
                assert(pop_first_scalar(rest) =~= s@.subrange(i + 2, n as int));
            }
            i = i + 2;
        } else if b0 < 0xf0 {
            // A three-byte scalar: two continuation bytes, codepoint at least
            // 0x800 and outside the surrogate range.
            if n - i < 3 {
                return false;
            }
            let b1 = s[i + 1];
            let b2 = s[i + 2];
            if !(0x80 <= b1 && b1 <= 0xbf) || !(0x80 <= b2 && b2 <= 0xbf) {
                return false;
            }
            let cp: u32 = (((b0 & 0x0f) as u32) << 12u32) | (((b1 & 0x3f) as u32) << 6u32) | ((b2
                & 0x3f) as u32);
            if cp < 0x800 {
                proof {
                    assert(!not_overlong_encoding(decode_first_codepoint(rest), 3));
                }
                return false;
            }
            if 0xd800 <= cp && cp <= 0xdfff {
                proof {
                    assert(!not_surrogate(decode_first_codepoint(rest)));
                }
                return false;
            }
            proof {
                assert(valid_first_scalar(rest));
                assert(pop_first_scalar(rest) =~= s@.subrange(i + 3, n as int));
            }
            i = i + 3;
        } else if b0 < 0xf8 {
            // A four-byte scalar: three continuation bytes, codepoint between
            // 0x10000 and the Unicode maximum 0x10ffff.
            if n - i < 4 {
                return false;
            }
            let b1 = s[i + 1];
            let b2 = s[i + 2];
            let b3 = s[i + 3];
            if !(0x80 <= b1 && b1 <= 0xbf) || !(0x80 <= b2 && b2 <= 0xbf) || !(0x80 <= b3 && b3
                <= 0xbf) {
                return false;
            }
            let cp: u32 = (((b0 & 0x07) as u32) << 18u32) | (((b1 & 0x3f) as u32) << 12u32) | (((b2
                & 0x3f) as u32) << 6u32) | ((b3 & 0x3f) as u32);
            if !(0x10000 <= cp && cp <= 0x10ffff) {
                proof {
                    assert(!not_overlong_encoding(decode_first_codepoint(rest), 4));
                }
                return false;
            }
            proof {
                assert(valid_first_scalar(rest));
                assert(pop_first_scalar(rest) =~= s@.subrange(i + 4, n as int));
            }
            i = i + 4;
        } else {
            // No scalar's encoding leads with 0xf8 or above.
            proof {
                assert(!valid_leading_and_continuation_bytes_first_codepoint(rest));
            }
            return false;
        }
    }
    proof {
        assert(valid_utf8(s@.subrange(n as int, n as int)));
    }
    true
}

} // verus!
