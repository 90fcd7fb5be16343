//! Parsing of the drag-region payload. The payload is any well-formed JSON
//! text: an object's `drag` and `noDrag` keys name arrays of rectangles,
//! and each element that carries all four numeric fields `x`, `y`, `width`,
//! `height` becomes one rectangle. Extraction is lenient — unknown keys and
//! incomplete or non-object elements are skipped, a missing or non-array
//! region key reads as an empty list, a repeated key's last occurrence
//! wins — while the text itself is validated whole: only a text that is not
//! JSON drops the operation.
//!
//! Coordinates are read at whole-device-pixel precision: a fractional part
//! is truncated toward zero, and an element whose number does not fit the
//! pixel range is skipped. A number past the serializer's finite range
//! (a positive exponent above 999) makes the text malformed, and nesting is
//! limited to the serializer's depth.
//!
//! The `sp_*` functions state the grammar mathematically; the parsers are
//! proved to compute them.

use vstd::prelude::*;
use vstd::string::StringSliceAdditionalSpecFns;
use vstd::utf8::encode_utf8;
use crate::geometry::Rect;

verus! {

/// Nesting depth accepted, matching the serializer's recursion limit.
pub const JSON_DEPTH_LIMIT: u32 = 128;

/// JSON insignificant whitespace.
pub open spec fn is_ws(c: u8) -> bool {
    c == 32 || c == 9 || c == 10 || c == 13
}

pub open spec fn is_digit(c: u8) -> bool {
    48 <= c <= 57
}

/// The first position at or after `i` holding no whitespace.
pub open spec fn sp_ws_end(s: Seq<u8>, i: int) -> int
    decreases s.len() - i,
{
    if 0 <= i < s.len() && is_ws(s[i]) {
        sp_ws_end(s, i + 1)
    } else {
        i
    }
}

/// The end of the digit run starting at `i`.
pub open spec fn sp_digits_end(s: Seq<u8>, i: int) -> int
    decreases s.len() - i,
{
    if 0 <= i < s.len() && is_digit(s[i]) {
        sp_digits_end(s, i + 1)
    } else {
        i
    }
}

/// The value of the digit run `s[i..j)`.
pub open spec fn sp_digits_val(s: Seq<u8>, i: int, j: int) -> int
    decreases j - i,
{
    if i < j {
        sp_digits_val(s, i, j - 1) * 10 + (s[j - 1] - 48)
    } else {
        0
    }
}

/// Whether the bytes of the literal `lit` stand at position `i`.
pub open spec fn lit_at(s: Seq<u8>, i: int, lit: Seq<char>) -> bool {
    &&& 0 <= i
    &&& i + encode_utf8(lit).len() <= s.len()
    &&& s.subrange(i, i + encode_utf8(lit).len() as int) == encode_utf8(lit)
}

/// Whether the span `[a, b)` holds exactly the literal `lit`.
pub open spec fn span_is(s: Seq<u8>, a: int, b: int, lit: Seq<char>) -> bool {
    lit_at(s, a, lit) && b - a == encode_utf8(lit).len()
}

fn skip_ws(s: &Vec<u8>, i: usize) -> (r: usize)
    requires
        i <= s@.len(),
    ensures
        r == sp_ws_end(s@, i as int),
        i <= r <= s@.len(),
{
    let n = s.len();
    let mut j = i;
    while j < n && (s[j] == 32 || s[j] == 9 || s[j] == 10 || s[j] == 13)
        invariant
            i <= j <= n,
            n == s@.len(),
            sp_ws_end(s@, i as int) == sp_ws_end(s@, j as int),
        decreases n - j,
    {
        j = j + 1;
    }
    j
}

fn digits_end(s: &Vec<u8>, i: usize) -> (r: usize)
    requires
        i <= s@.len(),
    ensures
        r == sp_digits_end(s@, i as int),
        i <= r <= s@.len(),
{
    let n = s.len();
    let mut j = i;
    while j < n && 48 <= s[j] && s[j] <= 57
        invariant
            i <= j <= n,
            n == s@.len(),
            sp_digits_end(s@, i as int) == sp_digits_end(s@, j as int),
        decreases n - j,
    {
        j = j + 1;
    }
    j
}

/// Tests whether `lit`'s bytes stand at `i`.
pub(crate) fn match_lit(s: &Vec<u8>, i: usize, lit: &str) -> (r: bool)
    requires
        i <= s@.len(),
    ensures
        r == lit_at(s@, i as int, lit@),
{
    let b = lit.as_bytes();
    let m = b.len();
    let n = s.len();
    if m > n - i {
        return false;
    }
    let mut k: usize = 0;
    while k < m
        invariant
            k <= m,
            m == lit.spec_bytes().len(),
            n == s@.len(),
            i + m <= n,
            forall|t: int| 0 <= t < k ==> s@[i + t] == lit.spec_bytes()[t],
            b@ == lit.spec_bytes(),
        decreases m - k,
    {
        if s[i + k] != b[k] {
            proof {
                assert(s@.subrange(i as int, i + m as int)[k as int] != encode_utf8(lit@)[
                    k as int
                ]);
            }
            return false;
        }
        k = k + 1;
    }
    proof {
        assert(s@.subrange(i as int, i + m as int) =~= encode_utf8(lit@));
    }
    true
}

pub open spec fn pow10(n: nat) -> nat
    decreases n,
{
    if n == 0 {
        1
    } else {
        10 * pow10((n - 1) as nat)
    }
}

pub proof fn lemma_digits_end_digits(s: Seq<u8>, i: int)
    requires
        0 <= i,
    ensures
        forall|t: int| i <= t < sp_digits_end(s, i) ==> is_digit(s[t]),
    decreases s.len() - i,
{
    if i < s.len() && is_digit(s[i]) {
        lemma_digits_end_digits(s, i + 1);
    }
}

pub proof fn lemma_digits_end_lower(s: Seq<u8>, i: int)
    ensures
        sp_digits_end(s, i) >= i,
    decreases s.len() - i,
{
    if 0 <= i < s.len() && is_digit(s[i]) {
        lemma_digits_end_lower(s, i + 1);
    }
}

pub proof fn lemma_pow10_monotone(a: nat, b: nat)
    requires
        a <= b,
    ensures
        pow10(a) <= pow10(b),
    decreases b,
{
    if a < b {
        lemma_pow10_monotone(a, (b - 1) as nat);
        assert(pow10(b) == 10 * pow10((b - 1) as nat));
    }
}

/// A hexadecimal digit's value, for string escapes.
pub open spec fn sp_hex(c: u8) -> Option<int> {
    if 48 <= c <= 57 {
        Some((c - 48) as int)
    } else if 65 <= c <= 70 {
        Some((c - 55) as int)
    } else if 97 <= c <= 102 {
        Some((c - 87) as int)
    } else {
        None
    }
}

/// The value of four hexadecimal digits at `i`.
pub open spec fn sp_hex4(s: Seq<u8>, i: int) -> Option<int> {
    if 0 <= i && i + 4 <= s.len() && sp_hex(s[i]) is Some && sp_hex(s[i + 1]) is Some && sp_hex(
        s[i + 2],
    ) is Some && sp_hex(s[i + 3]) is Some {
        Some(
            4096 * sp_hex(s[i])->Some_0 + 256 * sp_hex(s[i + 1])->Some_0 + 16 * sp_hex(
                s[i + 2],
            )->Some_0 + sp_hex(s[i + 3])->Some_0,
        )
    } else {
        None
    }
}

/// The rest of a string, from the first byte after the opening quote:
/// escapes validated, a leading surrogate escape paired with a trailing
/// one, raw control bytes refused. Yields the position after the closing
/// quote.
pub open spec fn sp_string_rest(s: Seq<u8>, i: int) -> Option<int>
    decreases s.len() - i,
{
    if !(0 <= i < s.len()) {
        None
    } else {
        let c = s[i];
        if c == 34 {
            Some(i + 1)
        } else if c == 92 {
            if i + 1 >= s.len() {
                None
            } else {
                let e = s[i + 1];
                if e == 34 || e == 92 || e == 47 || e == 98 || e == 102 || e == 110 || e == 114
                    || e == 116 {
                    sp_string_rest(s, i + 2)
                } else if e == 117 {
                    match sp_hex4(s, i + 2) {
                        None => None,
                        Some(u) => {
                            if 0xd800 <= u <= 0xdbff {
                                if i + 8 <= s.len() && s[i + 6] == 92 && s[i + 7] == 117 {
                                    match sp_hex4(s, i + 8) {
                                        Some(u2) => {
                                            if 0xdc00 <= u2 <= 0xdfff {
                                                sp_string_rest(s, i + 12)
                                            } else {
                                                None
                                            }
                                        },
                                        None => None,
                                    }
                                } else {
                                    None
                                }
                            } else if 0xdc00 <= u <= 0xdfff {
                                None
                            } else {
                                sp_string_rest(s, i + 6)
                            }
                        },
                    }
                } else {
                    None
                }
            }
        } else if c < 32 {
            None
        } else {
            sp_string_rest(s, i + 1)
        }
    }
}

fn hex_digit(c: u8) -> (r: Option<u8>)
    ensures
        match r {
            Some(v) => sp_hex(c) == Some(v as int),
            None => sp_hex(c) is None,
        },
{
    if 48 <= c && c <= 57 {
        Some(c - 48)
    } else if 65 <= c && c <= 70 {
        Some(c - 55)
    } else if 97 <= c && c <= 102 {
        Some(c - 87)
    } else {
        None
    }
}

fn hex4(s: &Vec<u8>, i: usize) -> (r: Option<u32>)
    requires
        i <= s@.len(),
    ensures
        match r {
            Some(v) => sp_hex4(s@, i as int) == Some(v as int) && i + 4 <= s@.len(),
            None => sp_hex4(s@, i as int) is None,
        },
{
    let n = s.len();
    if n - i < 4 {
        return None;
    }
    match (hex_digit(s[i]), hex_digit(s[i + 1]), hex_digit(s[i + 2]), hex_digit(s[i + 3])) {
        (Some(a), Some(b), Some(c), Some(d)) => Some(
            4096 * (a as u32) + 256 * (b as u32) + 16 * (c as u32) + (d as u32),
        ),
        _ => None,
    }
}

fn string_rest(s: &Vec<u8>, i0: usize) -> (r: Option<usize>)
    requires
        i0 <= s@.len(),
    ensures
        match r {
            Some(j) => sp_string_rest(s@, i0 as int) == Some(j as int) && i0 < j <= s@.len(),
            None => sp_string_rest(s@, i0 as int) is None,
        },
{
    let n = s.len();
    let mut i = i0;
    loop
        invariant
            i0 <= i <= n,
            n == s@.len(),
            sp_string_rest(s@, i0 as int) == sp_string_rest(s@, i as int),
        decreases n - i,
    {
        if i >= n {
            return None;
        }
        let c = s[i];
        if c == 34 {
            return Some(i + 1);
        }
        if c == 92 {
            if i + 1 >= n {
                return None;
            }
            let e = s[i + 1];
            if e == 34 || e == 92 || e == 47 || e == 98 || e == 102 || e == 110 || e == 114 || e
                == 116 {
                i = i + 2;
            } else if e == 117 {
                match hex4(s, i + 2) {
                    None => {
                        return None;
                    },
                    Some(u) => {
                        if 0xd800 <= u && u <= 0xdbff {
                            if n - i >= 8 && s[i + 6] == 92 && s[i + 7] == 117 {
                                match hex4(s, i + 8) {
                                    Some(u2) => {
                                        if 0xdc00 <= u2 && u2 <= 0xdfff {
                                            i = i + 12;
                                        } else {
                                            return None;
                                        }
                                    },
                                    None => {
                                        return None;
                                    },
                                }
                            } else {
                                return None;
                            }
                        } else if 0xdc00 <= u && u <= 0xdfff {
                            return None;
                        } else {
                            i = i + 6;
                        }
                    },
                }
            } else {
                return None;
            }
        } else if c < 32 {
            return None;
        } else {
            i = i + 1;
        }
    }
}

/// The end of the integer part at `i`: a single `0`, or a run led by a
/// nonzero digit.
pub open spec fn sp_int_end(s: Seq<u8>, i: int) -> Option<int> {
    if 0 <= i < s.len() && s[i] == 48 {
        if i + 1 < s.len() && is_digit(s[i + 1]) {
            None
        } else {
            Some(i + 1)
        }
    } else if 0 <= i < s.len() && is_digit(s[i]) {
        Some(sp_digits_end(s, i))
    } else {
        None
    }
}

/// Leading `0` digits of the run `[i, j)`.
pub open spec fn sp_zeros_run(s: Seq<u8>, i: int, j: int) -> int
    decreases j - i,
{
    if i < j && s[i] == 48 {
        1 + sp_zeros_run(s, i + 1, j)
    } else {
        0
    }
}

/// The digit at position `p` of the integer digits `[ds, ie)` followed by
/// the fraction digits starting at `fs`.
pub open spec fn sp_comb_digit(s: Seq<u8>, ds: int, ie: int, fs: int, p: int) -> u8 {
    if p < ie - ds {
        s[ds + p]
    } else {
        s[fs + (p - (ie - ds))]
    }
}

/// The value of the combined digits `[from, to)`.
pub open spec fn sp_comb_val(s: Seq<u8>, ds: int, ie: int, fs: int, from: int, to: int) -> int
    decreases to - from,
{
    if from < to {
        sp_comb_val(s, ds, ie, fs, from, to - 1) * 10 + (sp_comb_digit(s, ds, ie, fs, to - 1)
            - 48)
    } else {
        0
    }
}

/// The number's value truncated toward zero — `Some` exactly when it fits
/// the pixel range. `e` is the decimal exponent.
pub open spec fn sp_trunc(s: Seq<u8>, neg: bool, ds: int, ie: int, fs: int, fe: int, e: int) -> Option<
    int,
> {
    let ilen = ie - ds;
    let ll = ilen + (fe - fs);
    let izr = sp_zeros_run(s, ds, ie);
    let lz = if izr < ilen {
        izr
    } else {
        ilen + sp_zeros_run(s, fs, fe)
    };
    if lz == ll {
        Some(0)
    } else {
        let q = ilen + e;
        let k = q - lz;
        if k <= 0 {
            Some(0)
        } else if k > 10 {
            None
        } else {
            let stop = if q < ll {
                q
            } else {
                ll
            };
            let mag = sp_comb_val(s, ds, ie, fs, lz, stop) * pow10(
                if q > ll {
                    (q - ll) as nat
                } else {
                    0 as nat
                },
            );
            let v = if neg {
                -mag
            } else {
                mag
            };
            if in_i32(v) {
                Some(v)
            } else {
                None
            }
        }
    }
}

pub open spec fn in_i32(v: int) -> bool {
    -0x80000000 <= v <= 0x7fffffff
}

/// A JSON number at `i`, in the strict grammar (no leading zeros, a dot
/// and an exponent each need digits). The first component is the truncated
/// value when it names a device pixel; a number past the serializer's
/// finite range (positive exponent above 999) is refused outright.
pub open spec fn sp_number(s: Seq<u8>, i: int) -> Option<(Option<int>, int)> {
    let neg = 0 <= i < s.len() && s[i] == 45;
    let ds = if neg {
        i + 1
    } else {
        i
    };
    match sp_int_end(s, ds) {
        None => None,
        Some(ie) => {
            let hasf = ie < s.len() && s[ie] == 46;
            let fs = if hasf {
                ie + 1
            } else {
                ie
            };
            let fe = if hasf {
                sp_digits_end(s, fs)
            } else {
                ie
            };
            if hasf && fe == fs {
                None
            } else {
                let hase = fe < s.len() && (s[fe] == 101 || s[fe] == 69);
                if !hase {
                    Some((sp_trunc(s, neg, ds, ie, fs, fe, 0), fe))
                } else {
                    let eneg = fe + 1 < s.len() && s[fe + 1] == 45;
                    let esigned = fe + 1 < s.len() && (s[fe + 1] == 45 || s[fe + 1] == 43);
                    let es = if esigned {
                        fe + 2
                    } else {
                        fe + 1
                    };
                    let ee = sp_digits_end(s, es);
                    if ee == es {
                        None
                    } else if !eneg && sp_digits_val(s, es, ee) > 999 {
                        None
                    } else {
                        let e = if eneg {
                            -sp_digits_val(s, es, ee)
                        } else {
                            sp_digits_val(s, es, ee)
                        };
                        Some((sp_trunc(s, neg, ds, ie, fs, fe, e), ee))
                    }
                }
            }
        },
    }
}

fn zeros_run(s: &Vec<u8>, i: usize, j: usize) -> (r: usize)
    requires
        i <= j <= s@.len(),
    ensures
        r == sp_zeros_run(s@, i as int, j as int),
        i + r <= j,
{
    let mut k = i;
    while k < j && s[k] == 48
        invariant
            i <= k <= j,
            j <= s@.len(),
            sp_zeros_run(s@, i as int, j as int) == (k - i) + sp_zeros_run(s@, k as int, j as int),
        decreases j - k,
    {
        k = k + 1;
    }
    k - i
}

proof fn lemma_comb_digits(s: Seq<u8>, ds: int, ie: int, fs: int, fe: int, from: int, to: int)
    requires
        0 <= ds <= ie <= s.len(),
        0 <= fs <= fe <= s.len(),
        0 <= from,
        to <= (ie - ds) + (fe - fs),
        forall|t: int| ds <= t < ie ==> is_digit(s[t]),
        forall|t: int| fs <= t < fe ==> is_digit(s[t]),
    ensures
        forall|p: int| from <= p < to ==> is_digit(#[trigger] sp_comb_digit(s, ds, ie, fs, p)),
{
}

/// Truncates the spanned number toward zero, deciding whether it names a
/// device pixel. `e_signed` is the exponent as accumulated (possibly
/// saturated far below every text length); `e_exact` the unbounded one.
#[verifier::rlimit(100)]
fn trunc_fit(
    s: &Vec<u8>,
    neg: bool,
    ds: usize,
    ie: usize,
    fs: usize,
    fe: usize,
    e_signed: i128,
    Ghost(e_exact): Ghost<int>,
) -> (r: Option<i32>)
    requires
        -1000000000000000000000i128 <= e_signed,
        ds < ie <= s@.len(),
        ie <= fs <= fe <= s@.len(),
        forall|t: int| ds <= t < ie ==> is_digit(s@[t]),
        forall|t: int| fs <= t < fe ==> is_digit(s@[t]),
        e_signed as int == e_exact || (e_signed == -1000000000000000000000i128 && e_exact
            <= -1000000000000000000000),
        e_signed <= 999,
        e_exact <= 999,
    ensures
        sp_trunc(s@, neg, ds as int, ie as int, fs as int, fe as int, e_exact) == (match r {
            Some(v) => Some(v as int),
            None => None::<int>,
        }),
{
    proof {
        assert(pow10(10) == 10000000000) by {
            reveal_with_fuel(pow10, 11);
        }
    }
    let n = s.len();
    let ilen = ie - ds;
    let flen = fe - fs;
    let ll = ilen + flen;
    let izr = zeros_run(s, ds, ie);
    let lz = if izr < ilen {
        izr
    } else {
        ilen + zeros_run(s, fs, fe)
    };
    if lz == ll {
        return Some(0);
    }
    let q: i128 = ilen as i128 + e_signed;
    let k: i128 = q - lz as i128;
    if k <= 0 {
        proof {
            // A saturated exponent sinks the point below every digit just
            // as the unbounded one does.
            assert(ilen + e_exact - lz <= 0);
        }
        return Some(0);
    }
    proof {
        assert(e_signed as int == e_exact);
    }
    if k > 10 {
        return None;
    }
    let stop: usize = if q < ll as i128 {
        proof {
            assert(0 < q <= lz + 10);
        }
        q as usize
    } else {
        ll
    };
    proof {
        assert(lz <= stop <= ll);
        assert(stop - lz <= 10);
        lemma_comb_digits(s@, ds as int, ie as int, fs as int, fe as int, lz as int, stop as int);
    }
    let mut mag: i64 = 0;
    let mut p = lz;
    while p < stop
        invariant
            lz <= p <= stop,
            stop <= ll,
            stop - lz <= 10,
            ll == ilen + flen,
            ilen == ie - ds,
            flen == fe - fs,
            ds <= ie <= n,
            fs <= fe <= n,
            n == s@.len(),
            pow10(10) == 10000000000,
            forall|t: int|
                lz <= t < stop ==> is_digit(#[trigger] sp_comb_digit(
                    s@,
                    ds as int,
                    ie as int,
                    fs as int,
                    t,
                )),
            mag == sp_comb_val(s@, ds as int, ie as int, fs as int, lz as int, p as int),
            0 <= mag < pow10((p - lz) as nat),
        decreases stop - p,
    {
        proof {
            assert(pow10((p + 1 - lz) as nat) == 10 * pow10((p - lz) as nat));
            lemma_pow10_monotone((p + 1 - lz) as nat, 10);
        }
        let d = if p < ilen {
            s[ds + p]
        } else {
            s[fs + (p - ilen)]
        };
        proof {
            assert(d == sp_comb_digit(s@, ds as int, ie as int, fs as int, p as int));
            assert(is_digit(d));
        }
        mag = mag * 10 + (d - 48) as i64;
        p = p + 1;
    }
    let pad: usize = if q > ll as i128 {
        proof {
            assert(q - ll <= 10);
        }
        (q - ll as i128) as usize
    } else {
        0
    };
    proof {
        assert(pad + (stop - lz) <= 10);
    }
    let ghost base = sp_comb_val(s@, ds as int, ie as int, fs as int, lz as int, stop as int);
    proof {
        assert(pow10(0) == 1);
    }
    let mut z: usize = 0;
    while z < pad
        invariant
            z <= pad,
            pad + (stop - lz) <= 10,
            lz <= stop,
            pow10(10) == 10000000000,
            0 <= base < pow10((stop - lz) as nat),
            mag == base * pow10(z as nat),
            0 <= mag < pow10((stop - lz + z) as nat),
        decreases pad - z,
    {
        proof {
            assert(pow10((z + 1) as nat) == 10 * pow10(z as nat));
            assert(pow10((stop - lz + z + 1) as nat) == 10 * pow10((stop - lz + z) as nat));
            lemma_pow10_monotone((stop - lz + z + 1) as nat, 10);
            assert(mag * 10 == base * (10 * pow10(z as nat))) by (nonlinear_arith)
                requires
                    mag == base * pow10(z as nat),
            ;
        }
        mag = mag * 10;
        z = z + 1;
    }
    proof {
        if q > ll as i128 {
            assert(pad as int == q - ll);
        } else {
            assert(pow10(0) == 1);
        }
    }
    let v: i64 = if neg {
        -mag
    } else {
        mag
    };
    if -2147483648 <= v && v <= 2147483647 {
        Some(v as i32)
    } else {
        None
    }
}

#[verifier::rlimit(100)]
fn parse_number(s: &Vec<u8>, i: usize) -> (r: Option<(Option<i32>, usize)>)
    requires
        i <= s@.len(),
    ensures
        match r {
            Some(p) => ({
                &&& sp_number(s@, i as int) == Some(
                    (
                        match p.0 {
                            Some(v) => Some(v as int),
                            None => None::<int>,
                        },
                        p.1 as int,
                    ),
                )
                &&& i < p.1 <= s@.len()
            }),
            None => sp_number(s@, i as int) is None,
        },
{
    let n = s.len();
    let neg = i < n && s[i] == 45;
    let ds = if neg {
        i + 1
    } else {
        i
    };
    // Integer part, with the leading-zero rule.
    let ie: usize = if ds < n && s[ds] == 48 {
        if ds + 1 < n && 48 <= s[ds + 1] && s[ds + 1] <= 57 {
            return None;
        }
        ds + 1
    } else if ds < n && 48 <= s[ds] && s[ds] <= 57 {
        digits_end(s, ds)
    } else {
        return None;
    };
    proof {
        lemma_digits_end_digits(s@, ds as int);
        lemma_digits_end_lower(s@, ds + 1 as int);
        assert(forall|t: int| ds <= t < ie ==> is_digit(s@[t]));
        assert(ds < ie);
    }
    // Fraction part.
    let hasf = ie < n && s[ie] == 46;
    let fs = if hasf {
        ie + 1
    } else {
        ie
    };
    let fe = if hasf {
        digits_end(s, fs)
    } else {
        ie
    };
    if hasf && fe == fs {
        return None;
    }
    proof {
        lemma_digits_end_digits(s@, fs as int);
    }
    // Exponent part, saturating far below every text length.
    let hase = fe < n && (s[fe] == 101 || s[fe] == 69);
    let (eneg, e_sat, end, e_abs_g): (bool, u128, usize, Ghost<int>) = if hase {
        let eneg = fe + 1 < n && s[fe + 1] == 45;
        let esigned = fe + 1 < n && (s[fe + 1] == 45 || s[fe + 1] == 43);
        let es = if esigned {
            fe + 2
        } else {
            fe + 1
        };
        if es > n {
            return None;
        }
        let ee = digits_end(s, es);
        if ee == es {
            return None;
        }
        proof {
            lemma_digits_end_digits(s@, es as int);
        }
        let mut e: u128 = 0;
        let mut k = es;
        while k < ee
            invariant
                es <= k <= ee,
                ee <= n,
                n == s@.len(),
                forall|t: int| es <= t < ee ==> is_digit(s@[t]),
                e <= 1000000000000000000000u128,
                e as int == sp_digits_val(s@, es as int, k as int) || (e
                    == 1000000000000000000000u128 && sp_digits_val(s@, es as int, k as int)
                    >= 1000000000000000000000),
            decreases ee - k,
        {
            proof {
                assert(sp_digits_val(s@, es as int, k + 1 as int) == sp_digits_val(
                    s@,
                    es as int,
                    k as int,
                ) * 10 + (s@[k as int] - 48));
            }
            let d = (s[k] - 48) as u128;
            if e >= 100000000000000000000u128 {
                e = 1000000000000000000000u128;
            } else {
                e = e * 10 + d;
            }
            k = k + 1;
        }
        if !eneg && e > 999 {
            return None;
        }
        (eneg, e, ee, Ghost(sp_digits_val(s@, es as int, ee as int)))
    } else {
        (false, 0, fe, Ghost(0))
    };
    let e_signed: i128 = if eneg {
        -(e_sat as i128)
    } else {
        e_sat as i128
    };
    let ghost e_exact: int = if eneg {
        -e_abs_g@
    } else {
        e_abs_g@
    };
    let fit = trunc_fit(s, neg, ds, ie, fs, fe, e_signed, Ghost(e_exact));
    Some((fit, end))
}


/// Validates and passes over any JSON value at `i`, inside `depth` levels
/// of enclosing containers.
pub open spec fn sp_skip_value(s: Seq<u8>, i: int, depth: int) -> Option<int>
    decreases depth, s.len() - i, 0int,
{
    if !(0 <= i < s.len()) {
        None
    } else {
        let c = s[i];
        if c == 34 {
            sp_string_rest(s, i + 1)
        } else if c == 123 {
            if depth <= 0 {
                None
            } else {
                let j = sp_ws_end(s, i + 1);
                if 0 <= j < s.len() && s[j] == 125 {
                    Some(j + 1)
                } else if i < j <= s.len() {
                    sp_obj_rest(s, j, depth - 1)
                } else {
                    None
                }
            }
        } else if c == 91 {
            if depth <= 0 {
                None
            } else {
                let j = sp_ws_end(s, i + 1);
                if 0 <= j < s.len() && s[j] == 93 {
                    Some(j + 1)
                } else if i < j <= s.len() {
                    sp_arr_rest(s, j, depth - 1)
                } else {
                    None
                }
            }
        } else if c == 116 {
            if lit_at(s, i, "true"@) {
                Some(i + encode_utf8("true"@).len() as int)
            } else {
                None
            }
        } else if c == 102 {
            if lit_at(s, i, "false"@) {
                Some(i + encode_utf8("false"@).len() as int)
            } else {
                None
            }
        } else if c == 110 {
            if lit_at(s, i, "null"@) {
                Some(i + encode_utf8("null"@).len() as int)
            } else {
                None
            }
        } else if c == 45 || is_digit(c) {
            match sp_number(s, i) {
                Some(p) => Some(p.1),
                None => None,
            }
        } else {
            None
        }
    }
}

/// The rest of an object being passed over, from a key position.
pub open spec fn sp_obj_rest(s: Seq<u8>, i: int, depth: int) -> Option<int>
    decreases depth, s.len() - i, 1int,
{
    if !(0 <= i < s.len() && s[i] == 34) {
        None
    } else {
        match sp_string_rest(s, i + 1) {
            None => None,
            Some(k) => {
                let j1 = sp_ws_end(s, k);
                if 0 <= j1 < s.len() && s[j1] == 58 {
                    let j2 = sp_ws_end(s, j1 + 1);
                    if i < j2 <= s.len() {
                        match sp_skip_value(s, j2, depth) {
                            None => None,
                            Some(v) => {
                                let j3 = sp_ws_end(s, v);
                                if 0 <= j3 < s.len() && s[j3] == 44 {
                                    let j4 = sp_ws_end(s, j3 + 1);
                                    if i < j4 <= s.len() {
                                        sp_obj_rest(s, j4, depth)
                                    } else {
                                        None
                                    }
                                } else if 0 <= j3 < s.len() && s[j3] == 125 {
                                    Some(j3 + 1)
                                } else {
                                    None
                                }
                            },
                        }
                    } else {
                        None
                    }
                } else {
                    None
                }
            },
        }
    }
}

/// The rest of an array being passed over, from an element position.
pub open spec fn sp_arr_rest(s: Seq<u8>, i: int, depth: int) -> Option<int>
    decreases depth, s.len() - i, 1int,
{
    match sp_skip_value(s, i, depth) {
        None => None,
        Some(v) => {
            let j = sp_ws_end(s, v);
            if 0 <= j < s.len() && s[j] == 44 {
                let j2 = sp_ws_end(s, j + 1);
                if i < j2 <= s.len() {
                    sp_arr_rest(s, j2, depth)
                } else {
                    None
                }
            } else if 0 <= j < s.len() && s[j] == 93 {
                Some(j + 1)
            } else {
                None
            }
        },
    }
}

proof fn lemma_json_lits()
    ensures
        encode_utf8(("true")@).len() == 4,
        encode_utf8(("false")@).len() == 5,
        encode_utf8(("null")@).len() == 4,
        encode_utf8(("x")@).len() == 1,
        encode_utf8(("y")@).len() == 1,
        encode_utf8(("width")@).len() == 5,
        encode_utf8(("height")@).len() == 6,
        encode_utf8(("drag")@).len() == 4,
        encode_utf8(("noDrag")@).len() == 6,
{
    reveal_strlit("true");
    reveal_strlit("false");
    reveal_strlit("null");
    reveal_strlit("x");
    reveal_strlit("y");
    reveal_strlit("width");
    reveal_strlit("height");
    reveal_strlit("drag");
    reveal_strlit("noDrag");
    assert(vstd::string::is_ascii("true"));
    assert(vstd::string::is_ascii("false"));
    assert(vstd::string::is_ascii("null"));
    assert(vstd::string::is_ascii("x"));
    assert(vstd::string::is_ascii("y"));
    assert(vstd::string::is_ascii("width"));
    assert(vstd::string::is_ascii("height"));
    assert(vstd::string::is_ascii("drag"));
    assert(vstd::string::is_ascii("noDrag"));
    vstd::string::is_ascii_spec_bytes("true");
    vstd::string::is_ascii_spec_bytes("false");
    vstd::string::is_ascii_spec_bytes("null");
    vstd::string::is_ascii_spec_bytes("x");
    vstd::string::is_ascii_spec_bytes("y");
    vstd::string::is_ascii_spec_bytes("width");
    vstd::string::is_ascii_spec_bytes("height");
    vstd::string::is_ascii_spec_bytes("drag");
    vstd::string::is_ascii_spec_bytes("noDrag");
}

fn skip_value(s: &Vec<u8>, i: usize, depth: u32) -> (r: Option<usize>)
    requires
        i <= s@.len(),
    ensures
        match r {
            Some(j) => sp_skip_value(s@, i as int, depth as int) == Some(j as int) && i < j
                <= s@.len(),
            None => sp_skip_value(s@, i as int, depth as int) is None,
        },
    decreases depth,
{
    proof {
        lemma_json_lits();
    }
    let n = s.len();
    if i >= n {
        return None;
    }
    let c = s[i];
    if c == 34 {
        return string_rest(s, i + 1);
    }
    if c == 123 {
        if depth == 0 {
            return None;
        }
        let j0 = skip_ws(s, i + 1);
        if j0 < n && s[j0] == 125 {
            return Some(j0 + 1);
        }
        let mut pos = j0;
        loop
            invariant
                i < pos <= n,
                n == s@.len(),
                depth >= 1,
                sp_obj_rest(s@, j0 as int, depth - 1) == sp_obj_rest(s@, pos as int, depth - 1),
                sp_skip_value(s@, i as int, depth as int) == sp_obj_rest(
                    s@,
                    j0 as int,
                    depth - 1,
                ),
            decreases n - pos,
        {
            if !(pos < n && s[pos] == 34) {
                return None;
            }
            let k = match string_rest(s, pos + 1) {
                Some(k) => k,
                None => {
                    return None;
                },
            };
            let j1 = skip_ws(s, k);
            if !(j1 < n && s[j1] == 58) {
                return None;
            }
            let j2 = skip_ws(s, j1 + 1);
            if !(pos < j2 && j2 <= n) {
                return None;
            }
            let v = match skip_value(s, j2, depth - 1) {
                Some(v) => v,
                None => {
                    return None;
                },
            };
            let j3 = skip_ws(s, v);
            if j3 < n && s[j3] == 44 {
                let j4 = skip_ws(s, j3 + 1);
                if pos < j4 && j4 <= n {
                    pos = j4;
                } else {
                    return None;
                }
            } else if j3 < n && s[j3] == 125 {
                return Some(j3 + 1);
            } else {
                return None;
            }
        }
    }
    if c == 91 {
        if depth == 0 {
            return None;
        }
        let j0 = skip_ws(s, i + 1);
        if j0 < n && s[j0] == 93 {
            return Some(j0 + 1);
        }
        let mut pos = j0;
        loop
            invariant
                i < pos <= n,
                n == s@.len(),
                depth >= 1,
                sp_arr_rest(s@, j0 as int, depth - 1) == sp_arr_rest(s@, pos as int, depth - 1),
                sp_skip_value(s@, i as int, depth as int) == sp_arr_rest(
                    s@,
                    j0 as int,
                    depth - 1,
                ),
            decreases n - pos,
        {
            let v = match skip_value(s, pos, depth - 1) {
                Some(v) => v,
                None => {
                    return None;
                },
            };
            let j = skip_ws(s, v);
            if j < n && s[j] == 44 {
                let j2 = skip_ws(s, j + 1);
                if pos < j2 && j2 <= n {
                    pos = j2;
                } else {
                    return None;
                }
            } else if j < n && s[j] == 93 {
                return Some(j + 1);
            } else {
                return None;
            }
        }
    }
    if c == 116 {
        if match_lit(s, i, "true") {
            return Some(i + 4);
        }
        return None;
    }
    if c == 102 {
        if match_lit(s, i, "false") {
            return Some(i + 5);
        }
        return None;
    }
    if c == 110 {
        if match_lit(s, i, "null") {
            return Some(i + 4);
        }
        return None;
    }
    if c == 45 || (48 <= c && c <= 57) {
        return match parse_number(s, i) {
            Some(p) => Some(p.1),
            None => None,
        };
    }
    None
}

/// A rectangle field name.
#[derive(Clone, Copy, PartialEq, Eq, Structural, Debug)]
pub enum RectKey {
    X,
    Y,
    W,
    H,
}

/// The rest of a rectangle object, from a key position. Each accumulator
/// is the state of one field: unseen, present but naming no pixel, or a
/// pixel value; a repeated field's last occurrence wins. The object yields
/// a rectangle exactly when all four fields hold pixel values.
pub open spec fn sp_rect_pairs(
    s: Seq<u8>,
    i: int,
    xo: Option<Option<int>>,
    yo: Option<Option<int>>,
    wo: Option<Option<int>>,
    ho: Option<Option<int>>,
) -> Option<(Option<Rect>, int)>
    decreases s.len() - i,
{
    if !(0 <= i < s.len() && s[i] == 34) {
        None
    } else {
        match sp_string_rest(s, i + 1) {
            None => None,
            Some(k) => {
                let a = i + 1;
                let b = k - 1;
                let fkey: Option<RectKey> = if span_is(s, a, b, "x"@) {
                    Some(RectKey::X)
                } else if span_is(s, a, b, "y"@) {
                    Some(RectKey::Y)
                } else if span_is(s, a, b, "width"@) {
                    Some(RectKey::W)
                } else if span_is(s, a, b, "height"@) {
                    Some(RectKey::H)
                } else {
                    None
                };
                let j1 = sp_ws_end(s, k);
                if 0 <= j1 < s.len() && s[j1] == 58 {
                    let j2 = sp_ws_end(s, j1 + 1);
                    let isnum = 0 <= j2 < s.len() && (s[j2] == 45 || is_digit(s[j2]));
                    let val: Option<(Option<int>, int)> = if isnum {
                        sp_number(s, j2)
                    } else {
                        match sp_skip_value(s, j2, JSON_DEPTH_LIMIT as int - 3) {
                            Some(end) => Some((None, end)),
                            None => None,
                        }
                    };
                    match val {
                        None => None,
                        Some((fit, vend)) => {
                            let xo2 = if fkey == Some(RectKey::X) {
                                Some(fit)
                            } else {
                                xo
                            };
                            let yo2 = if fkey == Some(RectKey::Y) {
                                Some(fit)
                            } else {
                                yo
                            };
                            let wo2 = if fkey == Some(RectKey::W) {
                                Some(fit)
                            } else {
                                wo
                            };
                            let ho2 = if fkey == Some(RectKey::H) {
                                Some(fit)
                            } else {
                                ho
                            };
                            let j3 = sp_ws_end(s, vend);
                            if 0 <= j3 < s.len() && s[j3] == 44 {
                                let j4 = sp_ws_end(s, j3 + 1);
                                if i < j4 <= s.len() {
                                    sp_rect_pairs(s, j4, xo2, yo2, wo2, ho2)
                                } else {
                                    None
                                }
                            } else if 0 <= j3 < s.len() && s[j3] == 125 {
                                if (xo2 matches Some(Some(_))) && (yo2 matches Some(Some(_)))
                                    && (wo2 matches Some(Some(_))) && (ho2 matches Some(
                                    Some(_),
                                )) {
                                    Some(
                                        (
                                            Some(
                                                Rect {
                                                    x: (xo2->Some_0->Some_0) as i32,
                                                    y: (yo2->Some_0->Some_0) as i32,
                                                    width: (wo2->Some_0->Some_0) as i32,
                                                    height: (ho2->Some_0->Some_0) as i32,
                                                },
                                            ),
                                            j3 + 1,
                                        ),
                                    )
                                } else {
                                    Some((None, j3 + 1))
                                }
                            } else {
                                None
                            }
                        },
                    }
                } else {
                    None
                }
            },
        }
    }
}

/// One array element: a rectangle when it is an object with all four
/// fields; any other valid value is passed over.
pub open spec fn sp_rect_elem(s: Seq<u8>, i: int) -> Option<(Option<Rect>, int)> {
    if 0 <= i < s.len() && s[i] == 123 {
        let j = sp_ws_end(s, i + 1);
        if 0 <= j < s.len() && s[j] == 125 {
            Some((None, j + 1))
        } else if i < j <= s.len() {
            sp_rect_pairs(s, j, None, None, None, None)
        } else {
            None
        }
    } else {
        match sp_skip_value(s, i, JSON_DEPTH_LIMIT as int - 2) {
            Some(end) => Some((None, end)),
            None => None,
        }
    }
}

/// The rest of a region array, from an element position, collecting the
/// extracted rectangles in array order.
pub open spec fn sp_rects_items(s: Seq<u8>, i: int, acc: Seq<Rect>) -> Option<(Seq<Rect>, int)>
    decreases s.len() - i,
{
    match sp_rect_elem(s, i) {
        None => None,
        Some((ro, v)) => {
            let acc2 = match ro {
                Some(r0) => acc.push(r0),
                None => acc,
            };
            let j = sp_ws_end(s, v);
            if 0 <= j < s.len() && s[j] == 44 {
                let j2 = sp_ws_end(s, j + 1);
                if i < j2 <= s.len() {
                    sp_rects_items(s, j2, acc2)
                } else {
                    None
                }
            } else if 0 <= j < s.len() && s[j] == 93 {
                Some((acc2, j + 1))
            } else {
                None
            }
        },
    }
}

/// The value under a region key: an array yields its extracted rectangles;
/// any other valid value reads as an empty list.
pub open spec fn sp_region_value(s: Seq<u8>, i: int) -> Option<(Seq<Rect>, int)> {
    if 0 <= i < s.len() && s[i] == 91 {
        let j = sp_ws_end(s, i + 1);
        if 0 <= j < s.len() && s[j] == 93 {
            Some((Seq::empty(), j + 1))
        } else if i < j <= s.len() {
            sp_rects_items(s, j, Seq::empty())
        } else {
            None
        }
    } else {
        match sp_skip_value(s, i, JSON_DEPTH_LIMIT as int - 1) {
            Some(end) => Some((Seq::empty(), end)),
            None => None,
        }
    }
}

/// The rest of the payload object, from a key position: `drag` and
/// `noDrag` values are extracted (a repeated key's last occurrence wins),
/// every other member is passed over.
pub open spec fn sp_regions_pairs(
    s: Seq<u8>,
    i: int,
    dro: Option<Seq<Rect>>,
    ndo: Option<Seq<Rect>>,
) -> Option<(Seq<Rect>, Seq<Rect>, int)>
    decreases s.len() - i,
{
    if !(0 <= i < s.len() && s[i] == 34) {
        None
    } else {
        match sp_string_rest(s, i + 1) {
            None => None,
            Some(k) => {
                let a = i + 1;
                let b = k - 1;
                let j1 = sp_ws_end(s, k);
                if 0 <= j1 < s.len() && s[j1] == 58 {
                    let j2 = sp_ws_end(s, j1 + 1);
                    if !(i < j2 <= s.len()) {
                        None
                    } else {
                        let is_drag = span_is(s, a, b, "drag"@);
                        let is_no_drag = span_is(s, a, b, "noDrag"@);
                        let val: Option<(Option<Seq<Rect>>, int)> = if is_drag || is_no_drag {
                            match sp_region_value(s, j2) {
                                Some((list, end)) => Some((Some(list), end)),
                                None => None,
                            }
                        } else {
                            match sp_skip_value(s, j2, JSON_DEPTH_LIMIT as int - 1) {
                                Some(end) => Some((None, end)),
                                None => None,
                            }
                        };
                        match val {
                            None => None,
                            Some((lo, vend)) => {
                                let dro2 = if is_drag {
                                    Some(lo->Some_0)
                                } else {
                                    dro
                                };
                                let ndo2 = if !is_drag && is_no_drag {
                                    Some(lo->Some_0)
                                } else {
                                    ndo
                                };
                                let j3 = sp_ws_end(s, vend);
                                if 0 <= j3 < s.len() && s[j3] == 44 {
                                    let j4 = sp_ws_end(s, j3 + 1);
                                    if i < j4 <= s.len() {
                                        sp_regions_pairs(s, j4, dro2, ndo2)
                                    } else {
                                        None
                                    }
                                } else if 0 <= j3 < s.len() && s[j3] == 125 {
                                    Some(
                                        (
                                            match dro2 {
                                                Some(d) => d,
                                                None => Seq::empty(),
                                            },
                                            match ndo2 {
                                                Some(nd) => nd,
                                                None => Seq::empty(),
                                            },
                                            j3 + 1,
                                        ),
                                    )
                                } else {
                                    None
                                }
                            },
                        }
                    }
                } else {
                    None
                }
            },
        }
    }
}

/// The whole payload: any well-formed JSON text yields its region lists
/// (empty when the text is not an object or lacks the keys); `None` exactly
/// when the text is not JSON.
pub open spec fn spec_parse_regions(s: Seq<u8>) -> Option<(Seq<Rect>, Seq<Rect>)> {
    let i = sp_ws_end(s, 0);
    if 0 <= i < s.len() && s[i] == 123 {
        let j = sp_ws_end(s, i + 1);
        if 0 <= j < s.len() && s[j] == 125 {
            if 0 <= j + 1 <= s.len() && sp_ws_end(s, j + 1) == s.len() {
                Some((Seq::empty(), Seq::empty()))
            } else {
                None
            }
        } else if i < j <= s.len() {
            match sp_regions_pairs(s, j, None, None) {
                Some((d, nd, end)) => {
                    if 0 <= end <= s.len() && sp_ws_end(s, end) == s.len() {
                        Some((d, nd))
                    } else {
                        None
                    }
                },
                None => None,
            }
        } else {
            None
        }
    } else {
        match sp_skip_value(s, i, JSON_DEPTH_LIMIT as int) {
            Some(end) => {
                if 0 <= end <= s.len() && sp_ws_end(s, end) == s.len() {
                    Some((Seq::empty(), Seq::empty()))
                } else {
                    None
                }
            },
            None => None,
        }
    }
}

spec fn o22(o: Option<Option<i32>>) -> Option<Option<int>> {
    match o {
        Some(Some(v)) => Some(Some(v as int)),
        Some(None) => Some(None),
        None => None,
    }
}

fn parse_rect_pairs(s: &Vec<u8>, i0: usize) -> (r: Option<(Option<Rect>, usize)>)
    requires
        i0 <= s@.len(),
    ensures
        match r {
            Some(p) => ({
                &&& sp_rect_pairs(s@, i0 as int, None, None, None, None) matches Some(q)
                &&& q.0 == p.0
                &&& q.1 == p.1 as int
                &&& i0 < p.1 <= s@.len()
            }),
            None => sp_rect_pairs(s@, i0 as int, None, None, None, None) is None,
        },
{
    proof {
        lemma_json_lits();
    }
    let n = s.len();
    let mut pos = i0;
    let mut xo: Option<Option<i32>> = None;
    let mut yo: Option<Option<i32>> = None;
    let mut wo: Option<Option<i32>> = None;
    let mut ho: Option<Option<i32>> = None;
    loop
        invariant
            i0 <= pos <= n,
            n == s@.len(),
            pos > i0 ==> i0 < pos,
            sp_rect_pairs(s@, i0 as int, None, None, None, None) == sp_rect_pairs(
                s@,
                pos as int,
                o22(xo),
                o22(yo),
                o22(wo),
                o22(ho),
            ),
        decreases n - pos,
    {
        proof {
            lemma_json_lits();
        }
        if !(pos < n && s[pos] == 34) {
            return None;
        }
        let k = match string_rest(s, pos + 1) {
            Some(k) => k,
            None => {
                return None;
            },
        };
        let a = pos + 1;
        let b = k - 1;
        let fkey: Option<RectKey> = if b - a == 1 && match_lit(s, a, "x") {
            Some(RectKey::X)
        } else if b - a == 1 && match_lit(s, a, "y") {
            Some(RectKey::Y)
        } else if b - a == 5 && match_lit(s, a, "width") {
            Some(RectKey::W)
        } else if b - a == 6 && match_lit(s, a, "height") {
            Some(RectKey::H)
        } else {
            None
        };
        let j1 = skip_ws(s, k);
        if !(j1 < n && s[j1] == 58) {
            return None;
        }
        let j2 = skip_ws(s, j1 + 1);
        let isnum = j2 < n && (s[j2] == 45 || (48 <= s[j2] && s[j2] <= 57));
        let val: Option<(Option<i32>, usize)> = if isnum {
            parse_number(s, j2)
        } else {
            match skip_value(s, j2, JSON_DEPTH_LIMIT - 3) {
                Some(end) => Some((None, end)),
                None => None,
            }
        };
        let (fit, vend) = match val {
            Some(p) => p,
            None => {
                return None;
            },
        };
        match fkey {
            Some(RectKey::X) => {
                xo = Some(fit);
            },
            Some(RectKey::Y) => {
                yo = Some(fit);
            },
            Some(RectKey::W) => {
                wo = Some(fit);
            },
            Some(RectKey::H) => {
                ho = Some(fit);
            },
            None => {},
        }
        let j3 = skip_ws(s, vend);
        if j3 < n && s[j3] == 44 {
            let j4 = skip_ws(s, j3 + 1);
            if pos < j4 && j4 <= n {
                pos = j4;
            } else {
                return None;
            }
        } else if j3 < n && s[j3] == 125 {
            match (xo, yo, wo, ho) {
                (Some(Some(x)), Some(Some(y)), Some(Some(w)), Some(Some(h))) => {
                    return Some((Some(Rect { x, y, width: w, height: h }), j3 + 1));
                },
                _ => {
                    return Some((None, j3 + 1));
                },
            }
        } else {
            return None;
        }
    }
}

fn parse_rect_elem(s: &Vec<u8>, i: usize) -> (r: Option<(Option<Rect>, usize)>)
    requires
        i <= s@.len(),
    ensures
        match r {
            Some(p) => ({
                &&& sp_rect_elem(s@, i as int) matches Some(q)
                &&& q.0 == p.0
                &&& q.1 == p.1 as int
                &&& i < p.1 <= s@.len()
            }),
            None => sp_rect_elem(s@, i as int) is None,
        },
{
    let n = s.len();
    if i < n && s[i] == 123 {
        let j = skip_ws(s, i + 1);
        if j < n && s[j] == 125 {
            return Some((None, j + 1));
        }
        if i < j && j <= n {
            return parse_rect_pairs(s, j);
        }
        return None;
    }
    match skip_value(s, i, JSON_DEPTH_LIMIT - 2) {
        Some(end) => Some((None, end)),
        None => None,
    }
}

fn parse_rects_items(s: &Vec<u8>, i0: usize) -> (r: Option<(Vec<Rect>, usize)>)
    requires
        i0 <= s@.len(),
    ensures
        match r {
            Some(p) => ({
                &&& sp_rects_items(s@, i0 as int, Seq::empty()) matches Some(q)
                &&& q.0 == p.0@
                &&& q.1 == p.1 as int
                &&& i0 < p.1 <= s@.len()
            }),
            None => sp_rects_items(s@, i0 as int, Seq::empty()) is None,
        },
{
    let n = s.len();
    let mut pos = i0;
    let mut acc: Vec<Rect> = Vec::new();
    loop
        invariant
            i0 <= pos <= n,
            n == s@.len(),
            sp_rects_items(s@, i0 as int, Seq::empty()) == sp_rects_items(
                s@,
                pos as int,
                acc@,
            ),
        decreases n - pos,
    {
        let (ro, v) = match parse_rect_elem(s, pos) {
            Some(p) => p,
            None => {
                return None;
            },
        };
        match ro {
            Some(r0) => {
                acc.push(r0);
            },
            None => {},
        }
        let j = skip_ws(s, v);
        if j < n && s[j] == 44 {
            let j2 = skip_ws(s, j + 1);
            if pos < j2 && j2 <= n {
                pos = j2;
            } else {
                return None;
            }
        } else if j < n && s[j] == 93 {
            return Some((acc, j + 1));
        } else {
            return None;
        }
    }
}

fn parse_region_value(s: &Vec<u8>, i: usize) -> (r: Option<(Vec<Rect>, usize)>)
    requires
        i <= s@.len(),
    ensures
        match r {
            Some(p) => ({
                &&& sp_region_value(s@, i as int) matches Some(q)
                &&& q.0 == p.0@
                &&& q.1 == p.1 as int
                &&& i < p.1 <= s@.len()
            }),
            None => sp_region_value(s@, i as int) is None,
        },
{
    let n = s.len();
    if i < n && s[i] == 91 {
        let j = skip_ws(s, i + 1);
        if j < n && s[j] == 93 {
            let empty: Vec<Rect> = Vec::new();
            return Some((empty, j + 1));
        }
        if i < j && j <= n {
            return parse_rects_items(s, j);
        }
        return None;
    }
    match skip_value(s, i, JSON_DEPTH_LIMIT - 1) {
        Some(end) => {
            let empty: Vec<Rect> = Vec::new();
            Some((empty, end))
        },
        None => None,
    }
}

spec fn ov(o: Option<Vec<Rect>>) -> Option<Seq<Rect>> {
    match o {
        Some(v) => Some(v@),
        None => None,
    }
}

/// Parses a drag-region payload; `None` exactly when the text is not
/// well-formed JSON.
#[verifier::rlimit(100)]
pub fn parse_regions(s: &Vec<u8>) -> (r: Option<(Vec<Rect>, Vec<Rect>)>)
    ensures
        match r {
            Some(p) => spec_parse_regions(s@) == Some((p.0@, p.1@)),
            None => spec_parse_regions(s@) is None,
        },
{
    proof {
        lemma_json_lits();
    }
    let n = s.len();
    let i = skip_ws(s, 0);
    if !(i < n && s[i] == 123) {
        // Not an object: the text still has to be one JSON value.
        match skip_value(s, i, JSON_DEPTH_LIMIT) {
            Some(end) => {
                if skip_ws(s, end) == n {
                    let d: Vec<Rect> = Vec::new();
                    let nd: Vec<Rect> = Vec::new();
                    return Some((d, nd));
                }
                return None;
            },
            None => {
                return None;
            },
        }
    }
    let j0 = skip_ws(s, i + 1);
    if j0 < n && s[j0] == 125 {
        if skip_ws(s, j0 + 1) == n {
            let d: Vec<Rect> = Vec::new();
            let nd: Vec<Rect> = Vec::new();
            return Some((d, nd));
        }
        return None;
    }
    if !(i < j0 && j0 <= n) {
        return None;
    }
    let mut pos = j0;
    let mut dro: Option<Vec<Rect>> = None;
    let mut ndo: Option<Vec<Rect>> = None;
    loop
        invariant
            i < pos <= n,
            i < j0 <= n,
            n == s@.len(),
            0 <= i < s@.len() && s@[i as int] == 123,
            i as int == sp_ws_end(s@, 0),
            j0 as int == sp_ws_end(s@, i + 1),
            !(j0 < n && s@[j0 as int] == 125),
            sp_regions_pairs(s@, j0 as int, None, None) == sp_regions_pairs(
                s@,
                pos as int,
                ov(dro),
                ov(ndo),
            ),
        decreases n - pos,
    {
        proof {
            lemma_json_lits();
        }
        if !(pos < n && s[pos] == 34) {
            return None;
        }
        let k = match string_rest(s, pos + 1) {
            Some(k) => k,
            None => {
                return None;
            },
        };
        let a = pos + 1;
        let b = k - 1;
        let j1 = skip_ws(s, k);
        if !(j1 < n && s[j1] == 58) {
            return None;
        }
        let j2 = skip_ws(s, j1 + 1);
        if !(pos < j2 && j2 <= n) {
            return None;
        }
        let is_drag = b - a == 4 && match_lit(s, a, "drag");
        let is_no_drag = b - a == 6 && match_lit(s, a, "noDrag");
        let vend: usize;
        if is_drag || is_no_drag {
            let (list, end) = match parse_region_value(s, j2) {
                Some(p) => p,
                None => {
                    return None;
                },
            };
            if is_drag {
                dro = Some(list);
            } else {
                ndo = Some(list);
            }
            vend = end;
        } else {
            vend = match skip_value(s, j2, JSON_DEPTH_LIMIT - 1) {
                Some(end) => end,
                None => {
                    return None;
                },
            };
        }
        let j3 = skip_ws(s, vend);
        if j3 < n && s[j3] == 44 {
            let j4 = skip_ws(s, j3 + 1);
            if pos < j4 && j4 <= n {
                pos = j4;
            } else {
                return None;
            }
        } else if j3 < n && s[j3] == 125 {
            if skip_ws(s, j3 + 1) == n {
                let d: Vec<Rect> = match dro {
                    Some(v) => v,
                    None => Vec::new(),
                };
                let nd: Vec<Rect> = match ndo {
                    Some(v) => v,
                    None => Vec::new(),
                };
                return Some((d, nd));
            }
            return None;
        } else {
            return None;
        }
    }
}

} // verus!
