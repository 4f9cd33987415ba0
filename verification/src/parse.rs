//! Parsing of environment-supplied configuration values.
//!
//! The process hands each environment value over as raw bytes (or
//! nothing, when the variable is absent); everything after that —
//! decimal numbers, hexadecimal addresses, boolean words, defaults,
//! and the errors naming the offending key — is decided here. Each
//! accepted grammar is written out as a spec function, and each parser
//! succeeds on exactly the strings of its grammar.

use crate::error::AppError;
use crate::ids::Address;
use crate::uint256::Uint256;
use vstd::prelude::*;

verus! {

/// An ASCII decimal digit.
pub open spec fn is_dec_digit(b: u8) -> bool {
    48 <= b <= 57
}

pub open spec fn all_dec_digits(s: Seq<u8>) -> bool {
    forall|i: int| 0 <= i < s.len() ==> is_dec_digit(#[trigger] s[i])
}

/// The number a string of decimal digits denotes.
pub open spec fn dec_val(s: Seq<u8>) -> nat
    decreases s.len(),
{
    if s.len() == 0 {
        0
    } else {
        10 * dec_val(s.drop_last()) + (s.last() - 48) as nat
    }
}

/// A decimal number token may carry one leading plus sign, which
/// denotes nothing.
pub open spec fn strip_plus(s: Seq<u8>) -> Seq<u8> {
    if s.len() > 0 && s[0] == 43 {
        s.subrange(1, s.len() as int)
    } else {
        s
    }
}

/// The strings accepted as a 64-bit decimal number: an optional plus
/// sign, then at least one digit, denoting a value that fits.
pub open spec fn u64_token_ok(s: Seq<u8>) -> bool {
    &&& strip_plus(s).len() > 0
    &&& all_dec_digits(strip_plus(s))
    &&& dec_val(strip_plus(s)) <= u64::MAX
}

/// The strings accepted as a 256-bit decimal amount: at least one
/// digit (no sign), denoting a value below 2^256.
pub open spec fn u256_token_ok(s: Seq<u8>) -> bool {
    &&& s.len() > 0
    &&& all_dec_digits(s)
    &&& dec_val(s)
        < 0x1_0000_0000_0000_0000_0000_0000_0000_0000_0000_0000_0000_0000_0000_0000_0000_0000
}

/// A digit string denotes at least what any of its prefixes denotes.
proof fn lemma_dec_prefix_le(s: Seq<u8>, j: int)
    requires
        0 <= j <= s.len(),
    ensures
        dec_val(s.subrange(0, j)) <= dec_val(s),
    decreases s.len() - j,
{
    if j == s.len() {
        assert(s.subrange(0, j) =~= s);
    } else {
        lemma_dec_prefix_le(s, j + 1);
        assert(s.subrange(0, j + 1).drop_last() =~= s.subrange(0, j));
        assert(dec_val(s.subrange(0, j + 1)) == 10 * dec_val(s.subrange(0, j)) + (s[j] - 48) as nat);
    }
}

/// Reads a 64-bit decimal number, sign included, exactly when the
/// bytes form one.
pub fn parse_u64_dec(s: &[u8]) -> (r: Option<u64>)
    ensures
        match r {
            Some(v) => u64_token_ok(s@) && v == dec_val(strip_plus(s@)),
            None => !u64_token_ok(s@),
        },
{
    let len = s.len();
    let start: usize = if len > 0 && s[0] == 43 {
        1
    } else {
        0
    };
    if start >= len {
        return None;
    }
    let ghost digits = strip_plus(s@);
    assert(digits =~= s@.subrange(start as int, len as int));
    let mut acc: u64 = 0;
    let mut i: usize = start;
    while i < len
        invariant
            start <= i <= len,
            len == s@.len(),
            digits == strip_plus(s@),
            digits =~= s@.subrange(start as int, len as int),
            all_dec_digits(s@.subrange(start as int, i as int)),
            acc == dec_val(s@.subrange(start as int, i as int)),
        decreases len - i,
    {
        let b = s[i];
        if b < 48 || b > 57 {
            assert(!all_dec_digits(digits)) by {
                assert(digits[i - start] == s@[i as int]);
            }
            return None;
        }
        let d = (b - 48) as u64;
        let ghost prefix = s@.subrange(start as int, i as int);
        let ghost next_prefix = s@.subrange(start as int, i + 1);
        assert(next_prefix.drop_last() =~= prefix);
        assert(dec_val(next_prefix) == 10 * dec_val(prefix) + d);
        let stepped = match acc.checked_mul(10) {
            Some(t) => t.checked_add(d),
            None => None,
        };
        match stepped {
            Some(v) => {
                acc = v;
            },
            None => {
                assert(dec_val(next_prefix) > u64::MAX);
                assert(dec_val(digits) > u64::MAX) by {
                    lemma_dec_prefix_le(digits, i + 1 - start);
                    assert(digits.subrange(0, i + 1 - start) =~= next_prefix);
                }
                return None;
            },
        }
        i = i + 1;
    }
    assert(s@.subrange(start as int, i as int) =~= digits);
    Some(acc)
}

/// Reads a 256-bit decimal amount exactly when the bytes form one.
pub fn parse_u256_dec(s: &[u8]) -> (r: Option<Uint256>)
    ensures
        match r {
            Some(v) => u256_token_ok(s@) && v.as_nat() == dec_val(s@),
            None => !u256_token_ok(s@),
        },
{
    let len = s.len();
    if len == 0 {
        return None;
    }
    let mut acc = Uint256::zero();
    let mut i: usize = 0;
    while i < len
        invariant
            0 <= i <= len,
            len == s@.len(),
            all_dec_digits(s@.subrange(0, i as int)),
            acc.as_nat() == dec_val(s@.subrange(0, i as int)),
        decreases len - i,
    {
        let b = s[i];
        if b < 48 || b > 57 {
            assert(!all_dec_digits(s@)) by {
                assert(s@.subrange(0, s@.len() as int) =~= s@);
            }
            return None;
        }
        let d = (b - 48) as u64;
        let ghost prefix = s@.subrange(0, i as int);
        let ghost next_prefix = s@.subrange(0, i + 1);
        assert(next_prefix.drop_last() =~= prefix);
        assert(dec_val(next_prefix) == 10 * dec_val(prefix) + d);
        match acc.times10_plus(d) {
            Some(v) => {
                acc = v;
            },
            None => {
                assert(dec_val(s@)
                    >= 0x1_0000_0000_0000_0000_0000_0000_0000_0000_0000_0000_0000_0000_0000_0000_0000_0000)
                    by {
                    lemma_dec_prefix_le(s@, i + 1);
                }
                return None;
            },
        }
        i = i + 1;
    }
    assert(s@.subrange(0, i as int) =~= s@);
    Some(acc)
}

/// An ASCII hexadecimal digit, either case.
pub open spec fn is_hex_digit(b: u8) -> bool {
    ||| 48 <= b <= 57
    ||| 97 <= b <= 102
    ||| 65 <= b <= 70
}

pub open spec fn all_hex_digits(s: Seq<u8>) -> bool {
    forall|i: int| 0 <= i < s.len() ==> is_hex_digit(#[trigger] s[i])
}

pub open spec fn hex_digit_val(b: u8) -> nat {
    if 48 <= b <= 57 {
        (b - 48) as nat
    } else if 97 <= b <= 102 {
        (b - 87) as nat
    } else if 65 <= b <= 70 {
        (b - 55) as nat
    } else {
        0
    }
}

/// The number a string of hexadecimal digits denotes.
pub open spec fn hex_val(s: Seq<u8>) -> nat
    decreases s.len(),
{
    if s.len() == 0 {
        0
    } else {
        16 * hex_val(s.drop_last()) + hex_digit_val(s.last())
    }
}

/// An address token may carry one leading `0x` or `0X`, which denotes
/// nothing.
pub open spec fn strip_0x(s: Seq<u8>) -> Seq<u8> {
    if s.len() >= 2 && s[0] == 48 && (s[1] == 120 || s[1] == 88) {
        s.subrange(2, s.len() as int)
    } else {
        s
    }
}

/// The strings accepted as an account address: an optional `0x`, then
/// exactly forty hexadecimal digits.
pub open spec fn addr_token_ok(s: Seq<u8>) -> bool {
    &&& strip_0x(s).len() == 40
    &&& all_hex_digits(strip_0x(s))
}

pub open spec fn pow16(n: nat) -> nat
    decreases n,
{
    if n == 0 {
        1
    } else {
        16 * pow16((n - 1) as nat)
    }
}

proof fn lemma_pow16_mono(a: nat, b: nat)
    requires
        a <= b,
    ensures
        pow16(a) <= pow16(b),
    decreases b - a,
{
    if a < b {
        lemma_pow16_mono(a, (b - 1) as nat);
    }
}

proof fn lemma_pow16_values()
    ensures
        pow16(7) == 0x1000_0000,
        pow16(8) == 0x1_0000_0000,
        pow16(31) == 0x1000_0000_0000_0000_0000_0000_0000_0000,
        pow16(32) == 0x1_0000_0000_0000_0000_0000_0000_0000_0000,
{
    reveal_with_fuel(pow16, 33);
}

/// A digit string of length `n` denotes a number below `16^n`.
proof fn lemma_hex_val_bound(s: Seq<u8>)
    ensures
        hex_val(s) < pow16(s.len()),
    decreases s.len(),
{
    if s.len() > 0 {
        lemma_hex_val_bound(s.drop_last());
    }
}

/// A concatenation denotes its front part shifted past its back part.
proof fn lemma_hex_val_concat(a: Seq<u8>, b: Seq<u8>)
    ensures
        hex_val(a + b) == (hex_val(a) as int) * (pow16(b.len()) as int) + hex_val(b),
    decreases b.len(),
{
    if b.len() == 0 {
        assert(a + b =~= a);
        assert(hex_val(a + b) == (hex_val(a) as int) * (pow16(b.len()) as int) + hex_val(b))
            by (nonlinear_arith)
            requires
                hex_val(a + b) == hex_val(a),
                pow16(b.len()) == 1,
                hex_val(b) == 0,
        ;
    } else {
        let bl = b.drop_last();
        lemma_hex_val_concat(a, bl);
        assert((a + b).drop_last() =~= a + bl);
        assert((a + b).last() == b.last());
        assert(hex_val(a + b) == (hex_val(a) as int) * (pow16(b.len()) as int) + hex_val(b))
            by (nonlinear_arith)
            requires
                hex_val(a + b) == 16 * hex_val(a + bl) + hex_digit_val(b.last()),
                hex_val(a + bl) == (hex_val(a) as int) * (pow16(bl.len()) as int) + hex_val(bl),
                pow16(b.len()) == 16 * pow16(bl.len()),
                hex_val(b) == 16 * hex_val(bl) + hex_digit_val(b.last()),
        ;
    }
}

/// Reads a 160-bit account address, `0x` prefix included, exactly
/// when the bytes form one.
pub fn parse_addr_hex(s: &[u8]) -> (r: Option<Address>)
    ensures
        match r {
            Some(a) => addr_token_ok(s@) && a.as_nat() == hex_val(strip_0x(s@)),
            None => !addr_token_ok(s@),
        },
{
    let len = s.len();
    let start: usize = if len >= 2 && s[0] == 48 && (s[1] == 120 || s[1] == 88) {
        2
    } else {
        0
    };
    let ghost t = strip_0x(s@);
    assert(t =~= s@.subrange(start as int, len as int));
    if len - start != 40 {
        return None;
    }
    let mut hi: u32 = 0;
    let mut i: usize = 0;
    while i < 8
        invariant
            0 <= i <= 8,
            len == s@.len(),
            start + 40 == len,
            t == strip_0x(s@),
            t =~= s@.subrange(start as int, len as int),
            all_hex_digits(t.subrange(0, i as int)),
            hi == hex_val(t.subrange(0, i as int)),
            hi < pow16(i as nat),
        decreases 8 - i,
    {
        let b = s[start + i];
        assert(t[i as int] == s@[start + i]);
        let d: u32 = if 48 <= b && b <= 57 {
            (b - 48) as u32
        } else if 97 <= b && b <= 102 {
            (b - 87) as u32
        } else if 65 <= b && b <= 70 {
            (b - 55) as u32
        } else {
            return None;
        };
        assert(d == hex_digit_val(t[i as int]) && is_hex_digit(t[i as int]));
        let ghost next_prefix = t.subrange(0, i + 1);
        assert(next_prefix.drop_last() =~= t.subrange(0, i as int));
        proof {
            lemma_pow16_mono(i as nat, 7);
            lemma_pow16_values();
            lemma_hex_val_bound(next_prefix);
        }
        hi = hi * 16 + d;
        i = i + 1;
    }
    let mut lo: u128 = 0;
    let mut j: usize = 0;
    while j < 32
        invariant
            0 <= j <= 32,
            len == s@.len(),
            start + 40 == len,
            t == strip_0x(s@),
            t =~= s@.subrange(start as int, len as int),
            all_hex_digits(t.subrange(0, 8)),
            all_hex_digits(t.subrange(8, 8 + j)),
            hi == hex_val(t.subrange(0, 8)),
            hi < 0x1_0000_0000,
            lo == hex_val(t.subrange(8, 8 + j)),
            lo < pow16(j as nat),
        decreases 32 - j,
    {
        let b = s[start + 8 + j];
        assert(t[8 + j] == s@[start + 8 + j]);
        let d: u128 = if 48 <= b && b <= 57 {
            (b - 48) as u128
        } else if 97 <= b && b <= 102 {
            (b - 87) as u128
        } else if 65 <= b && b <= 70 {
            (b - 55) as u128
        } else {
            return None;
        };
        assert(d == hex_digit_val(t[8 + j]) && is_hex_digit(t[8 + j]));
        let ghost next_prefix = t.subrange(8, 8 + j + 1);
        assert(next_prefix.drop_last() =~= t.subrange(8, 8 + j));
        proof {
            lemma_pow16_mono(j as nat, 31);
            lemma_pow16_values();
            lemma_hex_val_bound(next_prefix);
        }
        lo = lo * 16 + d;
        j = j + 1;
    }
    proof {
        assert(t =~= t.subrange(0, 8) + t.subrange(8, 40));
        lemma_hex_val_concat(t.subrange(0, 8), t.subrange(8, 40));
        lemma_pow16_values();
        assert forall|i2: int| 0 <= i2 < t.len() implies is_hex_digit(#[trigger] t[i2]) by {
            if i2 < 8 {
                assert(t.subrange(0, 8)[i2] == t[i2]);
            } else {
                assert(t.subrange(8, 40)[i2 - 8] == t[i2]);
            }
        }
    }
    Some(Address { hi, lo })
}

/// An ASCII whitespace byte, as stripped from around a boolean word.
pub open spec fn is_ascii_ws(b: u8) -> bool {
    b == 32 || 9 <= b <= 13
}

pub open spec fn trim_front(s: Seq<u8>) -> Seq<u8>
    decreases s.len(),
{
    if s.len() > 0 && is_ascii_ws(s[0]) {
        trim_front(s.drop_first())
    } else {
        s
    }
}

pub open spec fn trim_back(s: Seq<u8>) -> Seq<u8>
    decreases s.len(),
{
    if s.len() > 0 && is_ascii_ws(s.last()) {
        trim_back(s.drop_last())
    } else {
        s
    }
}

/// The bytes with ASCII whitespace stripped from both ends.
pub open spec fn trimmed(s: Seq<u8>) -> Seq<u8> {
    trim_back(trim_front(s))
}

/// An ASCII upper-case letter folded to lower case.
pub open spec fn lower_byte(b: u8) -> u8 {
    if 65 <= b <= 90 {
        (b + 32) as u8
    } else {
        b
    }
}

pub open spec fn lower_seq(s: Seq<u8>) -> Seq<u8> {
    Seq::new(s.len(), |i: int| lower_byte(s[i]))
}

/// The words meaning `true`: `1`, `true`, `yes`, `y`, `on`.
pub open spec fn is_true_word(t: Seq<u8>) -> bool {
    ||| t == seq![49u8]
    ||| t == seq![116u8, 114u8, 117u8, 101u8]
    ||| t == seq![121u8, 101u8, 115u8]
    ||| t == seq![121u8]
    ||| t == seq![111u8, 110u8]
}

/// The words meaning `false`: `0`, `false`, `no`, `n`, `off`.
pub open spec fn is_false_word(t: Seq<u8>) -> bool {
    ||| t == seq![48u8]
    ||| t == seq![102u8, 97u8, 108u8, 115u8, 101u8]
    ||| t == seq![110u8, 111u8]
    ||| t == seq![110u8]
    ||| t == seq![111u8, 102u8, 102u8]
}

/// What a boolean value denotes after trimming and case-folding, or
/// nothing when it is not one of the accepted words.
pub open spec fn bool_token(s: Seq<u8>) -> Option<bool> {
    let t = lower_seq(trimmed(s));
    if is_true_word(t) {
        Some(true)
    } else if is_false_word(t) {
        Some(false)
    } else {
        None
    }
}

fn lower_u8(b: u8) -> (r: u8)
    ensures
        r == lower_byte(b),
{
    if 65 <= b && b <= 90 {
        b + 32
    } else {
        b
    }
}

/// Reads a boolean word, whitespace and letter case ignored, exactly
/// when the bytes form one.
pub fn parse_bool_token(s: &[u8]) -> (r: Option<bool>)
    ensures
        r == bool_token(s@),
{
    let len = s.len();
    let mut lo: usize = 0;
    assert(s@.subrange(0, len as int) =~= s@);
    loop
        invariant
            0 <= lo <= len,
            len == s@.len(),
            trim_front(s@) == trim_front(s@.subrange(lo as int, len as int)),
        ensures
            0 <= lo <= len,
            len == s@.len(),
            trim_front(s@) == trim_front(s@.subrange(lo as int, len as int)),
            lo == len || !is_ascii_ws(s@[lo as int]),
        decreases len - lo,
    {
        if lo >= len {
            break ;
        }
        let b = s[lo];
        if !(b == 32 || (9 <= b && b <= 13)) {
            break ;
        }
        assert(s@.subrange(lo as int, len as int).drop_first() =~= s@.subrange(
            lo + 1,
            len as int,
        ));
        lo = lo + 1;
    }
    assert(trim_front(s@) =~= s@.subrange(lo as int, len as int));
    let mut hi: usize = len;
    loop
        invariant
            lo <= hi <= len,
            len == s@.len(),
            trim_front(s@) =~= s@.subrange(lo as int, len as int),
            trimmed(s@) == trim_back(s@.subrange(lo as int, hi as int)),
        ensures
            lo <= hi <= len,
            len == s@.len(),
            trimmed(s@) == trim_back(s@.subrange(lo as int, hi as int)),
            hi == lo || !is_ascii_ws(s@[hi - 1]),
        decreases hi,
    {
        if hi <= lo {
            break ;
        }
        let b = s[hi - 1];
        if !(b == 32 || (9 <= b && b <= 13)) {
            break ;
        }
        assert(s@.subrange(lo as int, hi as int).drop_last() =~= s@.subrange(lo as int, hi - 1));
        hi = hi - 1;
    }
    assert(trimmed(s@) =~= s@.subrange(lo as int, hi as int));
    let ghost t = lower_seq(trimmed(s@));
    let n = hi - lo;
    assert(t.len() == n);
    if n == 1 {
        let c0 = lower_u8(s[lo]);
        assert(t[0] == c0);
        if c0 == 49 || c0 == 121 {
            assert(c0 == 49 ==> t =~= seq![49u8]);
            assert(c0 == 121 ==> t =~= seq![121u8]);
            Some(true)
        } else if c0 == 48 || c0 == 110 {
            assert(c0 == 48 ==> t =~= seq![48u8]);
            assert(c0 == 110 ==> t =~= seq![110u8]);
            Some(false)
        } else {
            None
        }
    } else if n == 2 {
        let c0 = lower_u8(s[lo]);
        let c1 = lower_u8(s[lo + 1]);
        assert(t[0] == c0 && t[1] == c1);
        if c0 == 111 && c1 == 110 {
            assert(t =~= seq![111u8, 110u8]);
            Some(true)
        } else if c0 == 110 && c1 == 111 {
            assert(t =~= seq![110u8, 111u8]);
            Some(false)
        } else {
            None
        }
    } else if n == 3 {
        let c0 = lower_u8(s[lo]);
        let c1 = lower_u8(s[lo + 1]);
        let c2 = lower_u8(s[lo + 2]);
        assert(t[0] == c0 && t[1] == c1 && t[2] == c2);
        if c0 == 121 && c1 == 101 && c2 == 115 {
            assert(t =~= seq![121u8, 101u8, 115u8]);
            Some(true)
        } else if c0 == 111 && c1 == 102 && c2 == 102 {
            assert(t =~= seq![111u8, 102u8, 102u8]);
            Some(false)
        } else {
            None
        }
    } else if n == 4 {
        let c0 = lower_u8(s[lo]);
        let c1 = lower_u8(s[lo + 1]);
        let c2 = lower_u8(s[lo + 2]);
        let c3 = lower_u8(s[lo + 3]);
        assert(t[0] == c0 && t[1] == c1 && t[2] == c2 && t[3] == c3);
        if c0 == 116 && c1 == 114 && c2 == 117 && c3 == 101 {
            assert(t =~= seq![116u8, 114u8, 117u8, 101u8]);
            Some(true)
        } else {
            None
        }
    } else if n == 5 {
        let c0 = lower_u8(s[lo]);
        let c1 = lower_u8(s[lo + 1]);
        let c2 = lower_u8(s[lo + 2]);
        let c3 = lower_u8(s[lo + 3]);
        let c4 = lower_u8(s[lo + 4]);
        assert(t[0] == c0 && t[1] == c1 && t[2] == c2 && t[3] == c3 && t[4] == c4);
        if c0 == 102 && c1 == 97 && c2 == 108 && c3 == 115 && c4 == 101 {
            assert(t =~= seq![102u8, 97u8, 108u8, 115u8, 101u8]);
            Some(false)
        } else {
            None
        }
    } else {
        None
    }
}

/// Borrows the bytes of an optional environment value.
pub fn opt_bytes<'a>(o: &'a Option<Vec<u8>>) -> (r: Option<&'a [u8]>)
    ensures
        match *o {
            Some(v) => r matches Some(s) && s@ == v@,
            None => r is None,
        },
{
    match o {
        Some(v) => Some(v.as_slice()),
        None => None,
    }
}

/// Reads an optional 64-bit decimal value: absence is not an error,
/// a present but malformed value is, blamed on `key`.
pub fn parse_env_u64_opt(key: &'static str, raw: Option<&[u8]>) -> (r: Result<
    Option<u64>,
    AppError,
>)
    ensures
        match raw {
            None => r matches Ok(o) && o is None,
            Some(s) => if u64_token_ok(s@) {
                ({
                    &&& r matches Ok(o)
                    &&& o matches Some(v)
                    &&& v == dec_val(strip_plus(s@))
                })
            } else {
                ({
                    &&& r matches Err(AppError::BadEnv(k, _))
                    &&& k@ == key@
                })
            },
        },
{
    match raw {
        None => Ok(None),
        Some(s) => match parse_u64_dec(s) {
            Some(v) => Ok(Some(v)),
            None => Err(AppError::BadEnv(key, "expected a decimal integer".to_owned())),
        },
    }
}

/// Reads a required 64-bit decimal value: absence and malformedness
/// are both errors, blamed on `key`.
pub fn must_parse_env_u64(key: &'static str, raw: Option<&[u8]>) -> (r: Result<u64, AppError>)
    ensures
        match raw {
            None => ({
                &&& r matches Err(AppError::MissingEnv(k))
                &&& k@ == key@
            }),
            Some(s) => if u64_token_ok(s@) {
                r matches Ok(v) && v == dec_val(strip_plus(s@))
            } else {
                ({
                    &&& r matches Err(AppError::BadEnv(k, _))
                    &&& k@ == key@
                })
            },
        },
{
    match raw {
        None => Err(AppError::MissingEnv(key)),
        Some(s) => match parse_u64_dec(s) {
            Some(v) => Ok(v),
            None => Err(AppError::BadEnv(key, "expected a decimal integer".to_owned())),
        },
    }
}

/// Reads a required 256-bit decimal amount.
pub fn must_parse_env_u256(key: &'static str, raw: Option<&[u8]>) -> (r: Result<Uint256, AppError>)
    ensures
        match raw {
            None => ({
                &&& r matches Err(AppError::MissingEnv(k))
                &&& k@ == key@
            }),
            Some(s) => if u256_token_ok(s@) {
                r matches Ok(v) && v.as_nat() == dec_val(s@)
            } else {
                ({
                    &&& r matches Err(AppError::BadEnv(k, _))
                    &&& k@ == key@
                })
            },
        },
{
    match raw {
        None => Err(AppError::MissingEnv(key)),
        Some(s) => match parse_u256_dec(s) {
            Some(v) => Ok(v),
            None => Err(AppError::BadEnv(key, "expected a decimal amount".to_owned())),
        },
    }
}

/// Reads an optional account address.
pub fn parse_env_addr_opt(key: &'static str, raw: Option<&[u8]>) -> (r: Result<
    Option<Address>,
    AppError,
>)
    ensures
        match raw {
            None => r matches Ok(o) && o is None,
            Some(s) => if addr_token_ok(s@) {
                ({
                    &&& r matches Ok(o)
                    &&& o matches Some(a)
                    &&& a.as_nat() == hex_val(strip_0x(s@))
                })
            } else {
                ({
                    &&& r matches Err(AppError::BadEnv(k, _))
                    &&& k@ == key@
                })
            },
        },
{
    match raw {
        None => Ok(None),
        Some(s) => match parse_addr_hex(s) {
            Some(a) => Ok(Some(a)),
            None => Err(AppError::BadEnv(key, "expected a hex address".to_owned())),
        },
    }
}

/// Reads a required account address.
pub fn must_parse_env_addr(key: &'static str, raw: Option<&[u8]>) -> (r: Result<Address, AppError>)
    ensures
        match raw {
            None => ({
                &&& r matches Err(AppError::MissingEnv(k))
                &&& k@ == key@
            }),
            Some(s) => if addr_token_ok(s@) {
                r matches Ok(a) && a.as_nat() == hex_val(strip_0x(s@))
            } else {
                ({
                    &&& r matches Err(AppError::BadEnv(k, _))
                    &&& k@ == key@
                })
            },
        },
{
    match raw {
        None => Err(AppError::MissingEnv(key)),
        Some(s) => match parse_addr_hex(s) {
            Some(a) => Ok(a),
            None => Err(AppError::BadEnv(key, "expected a hex address".to_owned())),
        },
    }
}

/// Reads an optional boolean flag: absence is not an error, a present
/// value that is no boolean word is.
pub fn parse_env_bool_opt(key: &'static str, raw: Option<&[u8]>) -> (r: Result<
    Option<bool>,
    AppError,
>)
    ensures
        match raw {
            None => r matches Ok(o) && o is None,
            Some(s) => match bool_token(s@) {
                Some(b) => r matches Ok(o) && o == Some(b),
                None => ({
                    &&& r matches Err(AppError::BadEnv(k, _))
                    &&& k@ == key@
                }),
            },
        },
{
    match raw {
        None => Ok(None),
        Some(s) => match parse_bool_token(s) {
            Some(b) => Ok(Some(b)),
            None => Err(AppError::BadEnv(key, "expected boolean (true/false)".to_owned())),
        },
    }
}

} // verus!
