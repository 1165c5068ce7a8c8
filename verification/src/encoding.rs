//! A UTF-8 validity check for the WebSocket text path, proved against the
//! UTF-8 encoding specification in `vstd::utf8`. The engine reinterprets a
//! handler's text output as UTF-8 before framing it, so this check decides
//! whether a text exchange may be sent back or must close the connection.

use vstd::prelude::*;
use vstd::utf8::*;

verus! {

/// Decides whether `bytes` is a valid UTF-8 encoding, scanning one encoded
/// scalar at a time: a well-formed leading byte, the right number of
/// continuation bytes, no overlong encoding, and no surrogate value.
pub fn validate_utf8(bytes: &[u8]) -> (ok: bool)
    ensures
        ok == valid_utf8(bytes@),
{
    let n: usize = bytes.len();
    proof {
        assert(valid_utf8(bytes@.subrange(0, 0)));
    }
    let mut i: usize = 0;
    while i < n
        invariant
            n == bytes@.len(),
            i <= n,
            partial_valid_utf8(bytes@, i as int),
        decreases n - i,
    {
        let ghost suffix = bytes@.subrange(i as int, n as int);
        let b0: u8 = bytes[i];
        proof {
            assert(suffix[0] == bytes@[i as int]);
        }
        let width: usize;
        if b0 < 0x80 {
            // A one-byte scalar: the codepoint is the byte itself, never
            // overlong and far below the surrogate range.
            proof {
                assert(valid_first_scalar(suffix));
                assert(length_of_first_scalar(suffix) == 1);
            }
            width = 1;
        } else if 0xc0 <= b0 && b0 <= 0xdf {
            if n - i < 2 {
                proof {
                    conclude_invalid(bytes@, i as int);
                }
                return false;
            }
            let b1: u8 = bytes[i + 1];
            proof {
                assert(suffix[1] == bytes@[i + 1]);
            }
            if !(0x80 <= b1 && b1 <= 0xbf) {
                proof {
                    conclude_invalid(bytes@, i as int);
                }
                return false;
            }
            let cp: u32 = (((b0 & 0x1f) as u32) << 6u32) | ((b1 & 0x3f) as u32);
            if cp < 0x80 {
                // An overlong two-byte encoding of a one-byte value.
                proof {
                    conclude_invalid(bytes@, i as int);
                }
                return false;
            }
            proof {
                assert((((b0 & 0x1f) as u32) << 6u32) | ((b1 & 0x3f) as u32) <= 0x7ff)
                    by (bit_vector);
                assert(valid_first_scalar(suffix));
                assert(length_of_first_scalar(suffix) == 2);
            }
            width = 2;
        } else if 0xe0 <= b0 && b0 <= 0xef {
            if n - i < 3 {
                proof {
                    conclude_invalid(bytes@, i as int);
                }
                return false;
            }
            let b1: u8 = bytes[i + 1];
            let b2: u8 = bytes[i + 2];
            proof {
                assert(suffix[1] == bytes@[i + 1]);
                assert(suffix[2] == bytes@[i + 2]);
            }
            if !(0x80 <= b1 && b1 <= 0xbf) || !(0x80 <= b2 && b2 <= 0xbf) {
                proof {
                    conclude_invalid(bytes@, i as int);
                }
                return false;
            }
            let cp: u32 = (((b0 & 0x0f) as u32) << 12u32) | (((b1 & 0x3f) as u32) << 6u32) | ((b2
                & 0x3f) as u32);
            if cp < 0x800 {
                // An overlong three-byte encoding.
                proof {
                    conclude_invalid(bytes@, i as int);
                }
                return false;
            }
            if 0xd800 <= cp && cp <= 0xdfff {
                // A surrogate value: encodable but not a legal scalar.
                proof {
                    conclude_invalid(bytes@, i as int);
                }
                return false;
            }
            proof {
                assert(valid_first_scalar(suffix));
                assert(length_of_first_scalar(suffix) == 3);
            }
            width = 3;
        } else if 0xf0 <= b0 && b0 <= 0xf7 {
            if n - i < 4 {
                proof {
                    conclude_invalid(bytes@, i as int);
                }
                return false;
            }
            let b1: u8 = bytes[i + 1];
            let b2: u8 = bytes[i + 2];
            let b3: u8 = bytes[i + 3];
            proof {
                assert(suffix[1] == bytes@[i + 1]);
                assert(suffix[2] == bytes@[i + 2]);
                assert(suffix[3] == bytes@[i + 3]);
            }
            if !(0x80 <= b1 && b1 <= 0xbf) || !(0x80 <= b2 && b2 <= 0xbf) || !(0x80 <= b3 && b3
                <= 0xbf) {
                proof {
                    conclude_invalid(bytes@, i as int);
                }
                return false;
            }
            let cp: u32 = (((b0 & 0x07) as u32) << 18u32) | (((b1 & 0x3f) as u32) << 12u32) | (((b2
                & 0x3f) as u32) << 6u32) | ((b3 & 0x3f) as u32);
            if cp < 0x10000 || cp > 0x10ffff {
                // Overlong, or beyond the last Unicode scalar.
                proof {
                    conclude_invalid(bytes@, i as int);
                }
                return false;
            }
            proof {
                assert(valid_first_scalar(suffix));
                assert(length_of_first_scalar(suffix) == 4);
            }
            width = 4;
        } else {
            // A stray continuation byte, or a byte no encoding uses.
            proof {
                conclude_invalid(bytes@, i as int);
            }
            return false;
        }
        proof {
            partial_valid_utf8_extend(bytes@, i as int);
        }
        i += width;
    }
    proof {
        assert(bytes@.subrange(0, n as int) =~= bytes@);
    }
    true
}

/// From a valid prefix and a suffix that does not start with a well-formed
/// scalar encoding, the whole sequence is invalid.
proof fn conclude_invalid(bytes: Seq<u8>, i: int)
    requires
        0 <= i < bytes.len(),
        partial_valid_utf8(bytes, i),
        !valid_first_scalar(bytes.subrange(i, bytes.len() as int)),
    ensures
        !valid_utf8(bytes),
{
    let suffix = bytes.subrange(i, bytes.len() as int);
    assert(suffix.len() > 0);
    assert(!valid_utf8(suffix));
    partial_valid_partial_invalid_utf8(bytes, i);
}

} // verus!
