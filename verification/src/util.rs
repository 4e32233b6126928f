//! Small verified utilities the runtime is assembled from: compile-time
//! table patching, integer parsing for version strings, and validation of
//! foreign-supplied UTF-8.

use vstd::prelude::*;
use vstd::string::StringSliceAdditionalSpecFns;

use vstd::utf8::{
    is_continuation_byte, is_leading_byte_width_1, is_leading_byte_width_2,
    is_leading_byte_width_3, is_leading_byte_width_4, length_of_first_codepoint, pop_first_scalar,
    valid_first_scalar, valid_utf8,
};

verus! {

/// The array after the first `k` updates are applied in order.
pub open spec fn spec_apply_updates<T>(base: Seq<T>, ups: Seq<(usize, T)>, k: int) -> Seq<T>
    decreases k,
{
    if k <= 0 {
        base
    } else {
        spec_apply_updates(base, ups, k - 1).update(ups[k - 1].0 as int, ups[k - 1].1)
    }
}

/// Returns `base` with each `(index, value)` update applied in order —
/// how a subsystem builds its syscall table from a default one.
pub fn insert_elems<T: Copy, const N: usize, const R: usize>(
    base: [T; N],
    updates: [(usize, T); R],
) -> (r: [T; N])
    requires
        R <= N,
        forall|k: int| 0 <= k < R ==> (#[trigger] updates@[k]).0 < N,
    ensures
        r@ == spec_apply_updates(base@, updates@, R as int),
{
    let mut cur = base;
    let mut i: usize = 0;
    while i < R
        invariant
            i <= R,
            R <= N,
            forall|k: int| 0 <= k < R ==> (#[trigger] updates@[k]).0 < N,
            cur@ == spec_apply_updates(base@, updates@, i as int),
        decreases R - i,
    {
        let (idx, val) = updates[i];
        cur[idx] = val;
        i += 1;
    }
    cur
}

/// The numeric value of an ASCII digit in some radix, or none.
pub open spec fn spec_digit_val(b: u8) -> Option<int> {
    if 0x30 <= b <= 0x39 {
        Some((b - 0x30) as int)
    } else if 0x41 <= b <= 0x5A {
        Some((b - 0x41 + 10) as int)
    } else if 0x61 <= b <= 0x7A {
        Some((b - 0x61 + 10) as int)
    } else {
        None
    }
}

/// The value of the first `k` digits read most-significant first.
pub open spec fn spec_parse_radix(s: Seq<u8>, radix: int, k: int) -> int
    decreases k,
{
    if k <= 0 {
        0
    } else {
        spec_parse_radix(s, radix, k - 1) * radix + spec_digit_val(s[k - 1])->Some_0
    }
}

/// Every digit of `s` is valid and below the radix.
pub open spec fn spec_digits_ok(s: Seq<u8>, radix: int) -> bool {
    forall|i: int|
        0 <= i < s.len() ==> ((#[trigger] spec_digit_val(s[i])) matches Some(d) && d < radix)
}

proof fn lemma_parse_nonneg(s: Seq<u8>, radix: int, k: int)
    requires
        2 <= radix,
        0 <= k <= s.len(),
        spec_digits_ok(s, radix),
    ensures
        spec_parse_radix(s, radix, k) >= 0,
    decreases k,
{
    if k > 0 {
        lemma_parse_nonneg(s, radix, k - 1);
        let p = spec_parse_radix(s, radix, k - 1);
        assert(p * radix >= 0) by (nonlinear_arith)
            requires
                p >= 0,
                radix >= 2,
        ;
    }
}

proof fn lemma_parse_mono(s: Seq<u8>, radix: int, k: int, m: int)
    requires
        2 <= radix,
        0 <= k <= m <= s.len(),
        spec_digits_ok(s, radix),
    ensures
        spec_parse_radix(s, radix, k) <= spec_parse_radix(s, radix, m),
    decreases m - k,
{
    if k < m {
        lemma_parse_mono(s, radix, k, m - 1);
        lemma_parse_nonneg(s, radix, m - 1);
        let p = spec_parse_radix(s, radix, m - 1);
        assert(p * radix >= p) by (nonlinear_arith)
            requires
                p >= 0,
                radix >= 2,
        ;
    }
}

/// Parses a non-negative integer written in `radix` (2 to 36) from ASCII
/// digits, most significant first; the digits and the value's range are
/// the caller's obligation, as they are for the version constants this
/// parses.
pub fn const_parse_u32(v: &str, radix: u32) -> (r: u32)
    requires
        2 <= radix <= 36,
        spec_digits_ok(v.spec_bytes(), radix as int),
        spec_parse_radix(v.spec_bytes(), radix as int, v.spec_bytes().len() as int) <= u32::MAX,
    ensures
        r == spec_parse_radix(v.spec_bytes(), radix as int, v.spec_bytes().len() as int),
{
    let b = v.as_bytes();
    let ghost s = v.spec_bytes();
    let mut val: u32 = 0;
    let mut i: usize = 0;
    while i < b.len()
        invariant
            b@ == s,
            2 <= radix <= 36,
            spec_digits_ok(s, radix as int),
            spec_parse_radix(s, radix as int, s.len() as int) <= u32::MAX,
            i <= s.len(),
            val == spec_parse_radix(s, radix as int, i as int),
        decreases s.len() - i,
    {
        let c = b[i];
        let d: u32 = if 0x30 <= c && c <= 0x39 {
            (c - 0x30) as u32
        } else if 0x41 <= c && c <= 0x5A {
            (c - 0x41) as u32 + 10
        } else if 0x61 <= c && c <= 0x7A {
            (c - 0x61) as u32 + 10
        } else {
            proof {
                assert(spec_digit_val(s[i as int]) is Some);
            }
            vstd::pervasive::unreached()
        };
        proof {
            lemma_parse_mono(s, radix as int, i as int + 1, s.len() as int);
            lemma_parse_nonneg(s, radix as int, i as int);
        }
        val = val * radix + d;
        i += 1;
    }
    val
}

/// Validates a foreign-supplied byte string as UTF-8: true exactly when
/// the bytes are a well-formed encoding (no truncated or overlong
/// sequences, no surrogates, no out-of-range scalars).
pub fn check_utf8(bytes: &[u8]) -> (r: bool)
    ensures
        r <==> valid_utf8(bytes@),
{
    let n = bytes.len();
    let mut pos: usize = 0;
    proof {
        assert(bytes@.skip(0) =~= bytes@);
    }
    while pos < n
        invariant
            pos <= n,
            n == bytes@.len(),
            valid_utf8(bytes@) <==> valid_utf8(bytes@.skip(pos as int)),
        decreases n - pos,
    {
        let ghost rem = bytes@.skip(pos as int);
        proof {
            assert(rem.len() == n - pos);
            assert forall|j: int| 0 <= j < rem.len() implies rem[j] == bytes@[pos + j] by {}
        }
        let b0 = bytes[pos];
        if b0 < 0x80 {
            proof {
                assert(valid_first_scalar(rem));
                assert(length_of_first_codepoint(rem) == 1);
                assert(pop_first_scalar(rem) =~= bytes@.skip(pos as int + 1));
            }
            pos += 1;
        } else if 0xc0 <= b0 && b0 <= 0xdf {
            if n - pos < 2 || !(0x80 <= bytes[pos + 1] && bytes[pos + 1] <= 0xbf) {
                proof {
                    assert(!valid_first_scalar(rem));
                }
                return false;
            }
            let b1 = bytes[pos + 1];
            let cp: u32 = (((b0 & 0x1F) as u32) << 6u32) | ((b1 & 0x3F) as u32);
            if cp < 0x80 {
                proof {
                    assert(!valid_first_scalar(rem));
                }
                return false;
            }
            proof {
                assert(cp <= 0x7FF) by (bit_vector)
                    requires
                        cp == (((b0 & 0x1F) as u32) << 6u32) | ((b1 & 0x3F) as u32),
                ;
                assert(valid_first_scalar(rem));
                assert(length_of_first_codepoint(rem) == 2);
                assert(pop_first_scalar(rem) =~= bytes@.skip(pos as int + 2));
            }
            pos += 2;
        } else if 0xe0 <= b0 && b0 <= 0xef {
            if n - pos < 3 || !(0x80 <= bytes[pos + 1] && bytes[pos + 1] <= 0xbf) || !(0x80
                <= bytes[pos + 2] && bytes[pos + 2] <= 0xbf) {
                proof {
                    assert(!valid_first_scalar(rem));
                }
                return false;
            }
            let b1 = bytes[pos + 1];
            let b2 = bytes[pos + 2];
            let cp: u32 = (((b0 & 0x0F) as u32) << 12u32) | (((b1 & 0x3F) as u32) << 6u32) | ((b2
                & 0x3F) as u32);
            if cp < 0x800 || (0xD800 <= cp && cp <= 0xDFFF) {
                proof {
                    assert(!valid_first_scalar(rem));
                }
                return false;
            }
            proof {
                assert(valid_first_scalar(rem));
                assert(length_of_first_codepoint(rem) == 3);
                assert(pop_first_scalar(rem) =~= bytes@.skip(pos as int + 3));
            }
            pos += 3;
        } else if 0xf0 <= b0 && b0 <= 0xf7 {
            if n - pos < 4 || !(0x80 <= bytes[pos + 1] && bytes[pos + 1] <= 0xbf) || !(0x80
                <= bytes[pos + 2] && bytes[pos + 2] <= 0xbf) || !(0x80 <= bytes[pos + 3]
                && bytes[pos + 3] <= 0xbf) {
                proof {
                    assert(!valid_first_scalar(rem));
                }
                return false;
            }
            let b1 = bytes[pos + 1];
            let b2 = bytes[pos + 2];
            let b3 = bytes[pos + 3];
            let cp: u32 = (((b0 & 0x07) as u32) << 18u32) | (((b1 & 0x3F) as u32) << 12u32) | (((b2
                & 0x3F) as u32) << 6u32) | ((b3 & 0x3F) as u32);
            if cp < 0x10000 || cp > 0x10FFFF {
                proof {
                    assert(!valid_first_scalar(rem));
                }
                return false;
            }
            proof {
                assert(valid_first_scalar(rem));
                assert(length_of_first_codepoint(rem) == 4);
                assert(pop_first_scalar(rem) =~= bytes@.skip(pos as int + 4));
            }
            pos += 4;
        } else {
            proof {
                assert(!is_leading_byte_width_1(rem[0]));
                assert(!is_leading_byte_width_2(rem[0]));
                assert(!is_leading_byte_width_3(rem[0]));
                assert(!is_leading_byte_width_4(rem[0]));
                assert(!valid_first_scalar(rem));
            }
            return false;
        }
    }
    proof {
        assert(bytes@.skip(pos as int) =~= Seq::<u8>::empty());
    }
    true
}

/// How a rejected memory access was being used.
#[derive(Clone, Copy, Debug, Hash, PartialEq, Eq, Structural)]
pub enum AccessType {
    /// The range was being read.
    Read,
    /// The range was being written.
    Write,
    /// The source and destination ranges overlap.
    Overlap,
}

/// Why a checked memory transfer was refused: the offending address and
/// how it was being accessed.
#[derive(Clone, Copy, Debug, PartialEq, Eq, Structural)]
pub struct CheckedAccessError {
    /// The address the check rejected.
    pub ptr: usize,
    /// How that address was being accessed.
    pub access_ty: AccessType,
}

/// Pre-flight for a checked copy of `elems` elements of `size` bytes:
/// the two ranges must not overlap (each start checked against the other
/// range), reporting the offending address; the page-probing transfer
/// itself is the host's.
pub fn check_copy_ranges(src: usize, dest: usize, elems: usize, size: usize) -> (r: Result<
    (),
    CheckedAccessError,
>)
    requires
        src + elems * size <= usize::MAX,
        dest + elems * size <= usize::MAX,
    ensures
        src <= dest < src + elems * size ==> r == Err::<(), CheckedAccessError>(
            CheckedAccessError { ptr: dest, access_ty: AccessType::Overlap },
        ),
        !(src <= dest < src + elems * size) && dest <= src < dest + elems * size ==> r == Err::<
            (),
            CheckedAccessError,
        >(CheckedAccessError { ptr: src, access_ty: AccessType::Overlap }),
        !(src <= dest < src + elems * size) && !(dest <= src < dest + elems * size) ==> r is Ok,
{
    proof {
        assert(elems * size >= 0) by (nonlinear_arith);
    }
    let span = elems * size;
    if src <= dest && dest < src + span {
        Err(CheckedAccessError { ptr: dest, access_ty: AccessType::Overlap })
    } else if dest <= src && src < dest + span {
        Err(CheckedAccessError { ptr: src, access_ty: AccessType::Overlap })
    } else {
        Ok(())
    }
}

} // verus!
