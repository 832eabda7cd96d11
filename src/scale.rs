//! SCALE compact integers.
//!
//! The two low bits of the first byte select the mode:
//! `0b00` one byte, `0b01` two bytes, `0b10` four bytes (the value sits in the
//! upper bits, little endian), `0b11` "big integer": the upper six bits of the
//! first byte give `N`, and `N + 4` little-endian value bytes follow.
use vstd::arithmetic::power::pow;
use vstd::prelude::*;

verus! {

/// Why a SCALE value could not be read.
#[derive(Debug, Clone, Copy, PartialEq, Eq, Structural)]
pub enum DecodeError {
    /// The input ends before the encoding does.
    NotEnoughBytes,
    /// A big-integer encoding whose most significant value byte is zero.
    NonCanonical,
    /// The value does not fit a `usize`.
    Overflow,
    /// A tag byte (of a boolean or an option) that is neither 0 nor 1.
    InvalidTag,
    /// A string whose bytes are not UTF-8.
    InvalidUtf8,
}

/// Little-endian value of a byte sequence.
pub open spec fn le_value(s: Seq<u8>) -> nat
    decreases s.len(),
{
    if s.len() == 0 {
        0
    } else {
        s[0] as nat + 256 * le_value(s.subrange(1, s.len() as int))
    }
}

/// Number of value bytes announced by a big-integer first byte.
pub open spec fn big_len(first: u8) -> int {
    first as int / 4 + 4
}

/// What decoding a compact integer at the start of `b` gives: the value and
/// the number of bytes it takes.
pub open spec fn compact_decode(b: Seq<u8>) -> Result<(int, int), DecodeError> {
    if b.len() == 0 {
        Err(DecodeError::NotEnoughBytes)
    } else if b[0] % 4 == 0 {
        Ok((b[0] as int / 4, 1))
    } else if b[0] % 4 == 1 {
        if b.len() < 2 {
            Err(DecodeError::NotEnoughBytes)
        } else {
            Ok((b[0] as int / 4 + 64 * b[1], 2))
        }
    } else if b[0] % 4 == 2 {
        if b.len() < 4 {
            Err(DecodeError::NotEnoughBytes)
        } else {
            Ok((b[0] as int / 4 + 64 * b[1] + 16384 * b[2] + 4194304 * b[3], 4))
        }
    } else {
        let n = big_len(b[0]);
        if b.len() < n + 1 {
            Err(DecodeError::NotEnoughBytes)
        } else if b[n] == 0 {
            Err(DecodeError::NonCanonical)
        } else if le_value(b.subrange(1, n + 1)) > usize::MAX {
            Err(DecodeError::Overflow)
        } else {
            Ok((le_value(b.subrange(1, n + 1)) as int, n + 1))
        }
    }
}

/// Minimal little-endian bytes of `n` (empty for zero).
pub open spec fn le_bytes(n: nat) -> Seq<u8>
    decreases n,
{
    if n == 0 {
        Seq::empty()
    } else {
        seq![(n % 256) as u8] + le_bytes(n / 256)
    }
}

/// The compact encoding of `n`.
pub open spec fn compact_encode(n: nat) -> Seq<u8> {
    if n < 64 {
        seq![(n * 4) as u8]
    } else if n < 16384 {
        seq![((n % 64) * 4 + 1) as u8, (n / 64) as u8]
    } else if n < 1073741824 {
        seq![
            ((n % 64) * 4 + 2) as u8,
            ((n / 64) % 256) as u8,
            ((n / 16384) % 256) as u8,
            (n / 4194304) as u8,
        ]
    } else {
        seq![((le_bytes(n).len() - 4) * 4 + 3) as u8] + le_bytes(n)
    }
}

pub proof fn lemma_le_value_step(s: Seq<u8>, i: int)
    requires
        0 <= i < s.len(),
    ensures
        le_value(s.subrange(i, s.len() as int)) == s[i] as nat + 256 * le_value(
            s.subrange(i + 1, s.len() as int),
        ),
{
    let t = s.subrange(i, s.len() as int);
    assert(t.subrange(1, t.len() as int) =~= s.subrange(i + 1, s.len() as int));
}

proof fn lemma_le_value_grows(s: Seq<u8>, i: int, j: int)
    requires
        0 <= i <= j <= s.len(),
    ensures
        le_value(s.subrange(i, s.len() as int)) >= le_value(s.subrange(j, s.len() as int)),
    decreases j - i,
{
    if i < j {
        lemma_le_value_step(s, i);
        lemma_le_value_grows(s, i + 1, j);
    }
}

/// Decodes the compact integer at the start of `bytes`, returning the value
/// and the number of bytes it takes.
pub fn decode_scale_compact_usize(bytes: &[u8]) -> (r: Result<(usize, usize), DecodeError>)
    ensures
        match r {
            Ok((v, used)) => compact_decode(bytes@) == Ok::<(int, int), DecodeError>(
                (v as int, used as int),
            ),
            Err(e) => compact_decode(bytes@) == Err::<(int, int), DecodeError>(e),
        },
{
    if bytes.len() == 0 {
        return Err(DecodeError::NotEnoughBytes);
    }
    let first = bytes[0];
    if first % 4 == 0 {
        Ok(((first / 4) as usize, 1))
    } else if first % 4 == 1 {
        if bytes.len() < 2 {
            return Err(DecodeError::NotEnoughBytes);
        }
        let v: usize = (first / 4) as usize + 64 * (bytes[1] as usize);
        Ok((v, 2))
    } else if first % 4 == 2 {
        if bytes.len() < 4 {
            return Err(DecodeError::NotEnoughBytes);
        }
        let v: u32 = (first / 4) as u32 + 64 * (bytes[1] as u32) + 16384 * (bytes[2] as u32)
            + 4194304 * (bytes[3] as u32);
        Ok((v as usize, 4))
    } else {
        let n: usize = (first / 4) as usize + 4;
        if bytes.len() < n + 1 {
            return Err(DecodeError::NotEnoughBytes);
        }
        if bytes[n] == 0 {
            return Err(DecodeError::NonCanonical);
        }
        let ghost s = bytes@.subrange(1, n + 1);
        let mut value: usize = 0;
        let mut i: usize = n;
        while i > 0
            invariant
                0 <= i <= n,
                n + 1 <= bytes.len(),
                first == bytes[0],
                first % 4 == 3,
                n == big_len(first),
                bytes[n as int] != 0,
                s == bytes@.subrange(1, n + 1),
                value as nat == le_value(s.subrange(i as int, n as int)),
            decreases i,
        {
            let b = bytes[i];
            proof {
                assert(b == s[i - 1]);
                lemma_le_value_step(s, i - 1);
            }
            if value > (usize::MAX - b as usize) / 256 {
                proof {
                    lemma_le_value_grows(s, 0, i - 1);
                    assert(s.subrange(0, n as int) =~= s);
                    assert(le_value(s.subrange(i - 1, n as int)) > usize::MAX) by (nonlinear_arith)
                        requires
                            value > (usize::MAX - b as usize) / 256,
                            le_value(s.subrange(i - 1, n as int)) == b as nat + 256 * value,
                    ;
                }
                return Err(DecodeError::Overflow);
            }
            proof {
                assert(256 * value + b <= usize::MAX) by (nonlinear_arith)
                    requires
                        value <= (usize::MAX - b as usize) / 256,
                ;
            }
            value = 256 * value + b as usize;
            i = i - 1;
        }
        assert(s.subrange(0, n as int) =~= s);
        Ok((value, n + 1))
    }
}


/// `arrayvec::ArrayVec`, a vector of fixed capacity stored inline.
#[verifier::external_type_specification]
#[verifier::external_body]
#[verifier::reject_recursive_types(T)]
pub struct ExArrayVec<T, const CAP: usize>(arrayvec::ArrayVec<T, CAP>);

/// The bytes an `ArrayVec<u8, 9>` holds, in order.
pub uninterp spec fn array_bytes(a: arrayvec::ArrayVec<u8, 9>) -> Seq<u8>;

/// Relies on `arrayvec::ArrayVec::new`: the new vector holds nothing.
#[verifier::external_body]
fn byte_array_new() -> (r: arrayvec::ArrayVec<u8, 9>)
    ensures
        array_bytes(r) == Seq::<u8>::empty(),
{
    arrayvec::ArrayVec::new()
}

/// Relies on `arrayvec::ArrayVec::push`: appends the byte; it panics only
/// when the vector is full.
#[verifier::external_body]
fn byte_array_push(a: &mut arrayvec::ArrayVec<u8, 9>, b: u8)
    requires
        array_bytes(*old(a)).len() < 9,
    ensures
        array_bytes(*final(a)) == array_bytes(*old(a)).push(b),
{
    a.push(b)
}

proof fn lemma_le_bytes_step(n: nat)
    requires
        n > 0,
    ensures
        le_bytes(n) == seq![(n % 256) as u8] + le_bytes(n / 256),
        le_bytes(n).len() == 1 + le_bytes(n / 256).len(),
{
}

proof fn lemma_le_bytes_len_upper(n: nat, k: nat)
    requires
        n < pow(256, k),
    ensures
        le_bytes(n).len() <= k,
    decreases k,
{
    if n > 0 {
        if k == 0 {
            vstd::arithmetic::power::lemma_pow0(256);
        } else {
            vstd::arithmetic::power::lemma_pow_adds(256, 1, (k - 1) as nat);
            vstd::arithmetic::power::lemma_pow1(256);
            let p = pow(256, (k - 1) as nat);
            assert(n / 256 < p) by (nonlinear_arith)
                requires
                    n < 256 * p,
            ;
            lemma_le_bytes_len_upper(n / 256, (k - 1) as nat);
        }
    }
}

proof fn lemma_le_bytes_len_lower(n: nat, k: nat)
    requires
        n >= pow(256, k),
    ensures
        le_bytes(n).len() >= k + 1,
    decreases k,
{
    vstd::arithmetic::power::lemma_pow_positive(256, k);
    if k > 0 {
        vstd::arithmetic::power::lemma_pow_adds(256, 1, (k - 1) as nat);
        vstd::arithmetic::power::lemma_pow1(256);
        let p = pow(256, (k - 1) as nat);
        assert(n / 256 >= p) by (nonlinear_arith)
            requires
                n >= 256 * p,
        ;
        lemma_le_bytes_len_lower(n / 256, (k - 1) as nat);
    }
}

proof fn lemma_le_value_of_bytes(n: nat)
    ensures
        le_value(le_bytes(n)) == n,
        n > 0 ==> le_bytes(n).last() != 0,
    decreases n,
{
    if n > 0 {
        let s = le_bytes(n);
        lemma_le_value_of_bytes(n / 256);
        assert(s.subrange(1, s.len() as int) =~= le_bytes(n / 256));
        if n / 256 == 0 {
            assert(n % 256 == n);
        }
    }
}

proof fn lemma_pow256_values()
    ensures
        pow(256, 3) == 16777216,
        pow(256, 8) == 18446744073709551616,
{
    reveal_with_fuel(pow, 9);
}

/// A value of `usize` takes between four and eight bytes in big-integer mode.
proof fn lemma_big_len_bounds(n: nat)
    requires
        1073741824 <= n <= usize::MAX,
    ensures
        4 <= le_bytes(n).len() <= 8,
{
    lemma_pow256_values();
    lemma_le_bytes_len_upper(n, 8);
    lemma_le_bytes_len_lower(n, 3);
}

/// Encodes `value` as a SCALE compact integer.
pub fn encode_scale_compact_usize(value: usize) -> (r: arrayvec::ArrayVec<u8, 9>)
    ensures
        array_bytes(r) == compact_encode(value as nat),
{
    let mut out = byte_array_new();
    if value < 64 {
        byte_array_push(&mut out, (value * 4) as u8);
    } else if value < 16384 {
        byte_array_push(&mut out, ((value % 64) * 4 + 1) as u8);
        byte_array_push(&mut out, (value / 64) as u8);
    } else if value < 1073741824 {
        byte_array_push(&mut out, ((value % 64) * 4 + 2) as u8);
        byte_array_push(&mut out, ((value / 64) % 256) as u8);
        byte_array_push(&mut out, ((value / 16384) % 256) as u8);
        byte_array_push(&mut out, (value / 4194304) as u8);
        assert(array_bytes(out) =~= compact_encode(value as nat));
    } else {
        proof {
            lemma_big_len_bounds(value as nat);
        }
        let mut count: usize = 0;
        let mut v: usize = value;
        while v != 0
            invariant
                count + le_bytes(v as nat).len() == le_bytes(value as nat).len(),
                le_bytes(value as nat).len() <= 8,
            decreases v,
        {
            proof {
                lemma_le_bytes_step(v as nat);
            }
            v = v / 256;
            count = count + 1;
        }
        let ghost head = seq![((count - 4) * 4 + 3) as u8];
        byte_array_push(&mut out, ((count - 4) * 4 + 3) as u8);
        v = value;
        while v != 0
            invariant
                array_bytes(out) + le_bytes(v as nat) == head + le_bytes(value as nat),
                array_bytes(out).len() + le_bytes(v as nat).len() == 1 + count,
                count <= 8,
            decreases v,
        {
            proof {
                lemma_le_bytes_step(v as nat);
                assert(array_bytes(out).push((v % 256) as u8) + le_bytes((v / 256) as nat)
                    =~= array_bytes(out) + le_bytes(v as nat));
            }
            byte_array_push(&mut out, (v % 256) as u8);
            v = v / 256;
        }
        assert(array_bytes(out) =~= head + le_bytes(value as nat));
    }
    out
}

/// Decoding an encoded value gives the value back and takes every byte that
/// the encoding produced.
pub proof fn lemma_compact_round_trip(n: usize)
    ensures
        compact_decode(compact_encode(n as nat)) == Ok::<(int, int), DecodeError>(
            (n as int, compact_encode(n as nat).len() as int),
        ),
{
    let b = compact_encode(n as nat);
    if n < 64 {
        assert(b[0] % 4 == 0 && b[0] / 4 == n) by (nonlinear_arith)
            requires
                n < 64,
                b[0] == n * 4,
        ;
    } else if n < 16384 {
        assert(b[0] % 4 == 1 && b[0] / 4 + 64 * b[1] == n) by (nonlinear_arith)
            requires
                64 <= n < 16384,
                b[0] == (n % 64) * 4 + 1,
                b[1] == n / 64,
        ;
    } else if n < 1073741824 {
        assert(b[0] % 4 == 2 && b[0] / 4 + 64 * b[1] + 16384 * b[2] + 4194304 * b[3] == n)
            by (nonlinear_arith)
            requires
                16384 <= n < 1073741824,
                b[0] == (n % 64) * 4 + 2,
                b[1] == (n / 64) % 256,
                b[2] == (n / 16384) % 256,
                b[3] == n / 4194304,
        ;
    } else {
        let s = le_bytes(n as nat);
        lemma_big_len_bounds(n as nat);
        lemma_le_value_of_bytes(n as nat);
        assert(b[0] == (s.len() - 4) * 4 + 3);
        assert(b[0] % 4 == 3 && big_len(b[0]) == s.len());
        assert(b.subrange(1, s.len() as int + 1) =~= s);
        assert(b[s.len() as int] == s.last());
    }
}

/// A big-integer encoding whose most significant value byte is zero is
/// refused.
pub proof fn lemma_big_integer_trailing_zero_rejected(b: Seq<u8>)
    requires
        b.len() > 0,
        b[0] % 4 == 3,
        b.len() >= big_len(b[0]) + 1,
        b[big_len(b[0])] == 0,
    ensures
        compact_decode(b) == Err::<(int, int), DecodeError>(
            DecodeError::NonCanonical,
        ),
{
}


/// What a one-byte tag (of a boolean or an option) says: `Some(false)` for 0,
/// `Some(true)` for 1.
pub open spec fn tag_value(b: Seq<u8>) -> Result<bool, DecodeError> {
    if b.len() == 0 {
        Err(DecodeError::NotEnoughBytes)
    } else if b[0] == 0 {
        Ok(false)
    } else if b[0] == 1 {
        Ok(true)
    } else {
        Err(DecodeError::InvalidTag)
    }
}

/// Decodes a SCALE boolean, which takes one byte.
pub fn decode_bool(bytes: &[u8]) -> (r: Result<(bool, usize), DecodeError>)
    ensures
        match r {
            Ok((v, used)) => tag_value(bytes@) == Ok::<bool, DecodeError>(v) && used == 1,
            Err(e) => tag_value(bytes@) == Err::<bool, DecodeError>(e),
        },
{
    if bytes.len() == 0 {
        Err(DecodeError::NotEnoughBytes)
    } else if bytes[0] == 0 {
        Ok((false, 1))
    } else if bytes[0] == 1 {
        Ok((true, 1))
    } else {
        Err(DecodeError::InvalidTag)
    }
}

/// What decoding a length-prefixed byte string at the start of `b` gives:
/// the bytes and the number of input bytes taken.
pub open spec fn bytes_decode(b: Seq<u8>) -> Result<(Seq<u8>, int), DecodeError> {
    match compact_decode(b) {
        Err(e) => Err(e),
        Ok((len, used)) => if b.len() - used < len {
            Err(DecodeError::NotEnoughBytes)
        } else {
            Ok((b.subrange(used, used + len), used + len))
        },
    }
}

/// Decodes a SCALE byte string: a compact length, then that many bytes.
pub fn decode_bytes<'a>(bytes: &'a [u8]) -> (r: Result<(&'a [u8], usize), DecodeError>)
    ensures
        match r {
            Ok((v, used)) => bytes_decode(bytes@) == Ok::<(Seq<u8>, int), DecodeError>(
                (v@, used as int),
            ),
            Err(e) => bytes_decode(bytes@) == Err::<(Seq<u8>, int), DecodeError>(e),
        },
{
    match decode_scale_compact_usize(bytes) {
        Err(e) => Err(e),
        Ok((len, used)) => {
            if bytes.len() - used < len {
                Err(DecodeError::NotEnoughBytes)
            } else {
                Ok((vstd::slice::slice_subrange(bytes, used, used + len), used + len))
            }
        },
    }
}

/// The text that UTF-8 bytes stand for, or `None` if they are not UTF-8.
pub uninterp spec fn utf8_text(b: Seq<u8>) -> Option<Seq<char>>;

/// Relies on `std::str::from_utf8`: it accepts exactly the UTF-8 byte
/// sequences, and the empty one gives the empty string.
#[verifier::external_body]
fn str_from_utf8<'a>(b: &'a [u8]) -> (r: Option<&'a str>)
    ensures
        match r {
            Some(s) => utf8_text(b@) == Some(s@),
            None => utf8_text(b@).is_none(),
        },
        b@.len() == 0 ==> r.is_some(),
{
    std::str::from_utf8(b).ok()
}

/// What decoding a SCALE string at the start of `b` gives: the text and the
/// number of input bytes taken.
pub open spec fn string_decode(b: Seq<u8>) -> Result<(Seq<char>, int), DecodeError> {
    match bytes_decode(b) {
        Err(e) => Err(e),
        Ok((data, used)) => match utf8_text(data) {
            None => Err(DecodeError::InvalidUtf8),
            Some(s) => Ok((s, used)),
        },
    }
}

/// Decodes a SCALE string: a byte string that must be UTF-8.
pub fn decode_string<'a>(bytes: &'a [u8]) -> (r: Result<(&'a str, usize), DecodeError>)
    ensures
        match r {
            Ok((v, used)) => string_decode(bytes@) == Ok::<(Seq<char>, int), DecodeError>(
                (v@, used as int),
            ),
            Err(e) => string_decode(bytes@) == Err::<(Seq<char>, int), DecodeError>(e),
        },
{
    match decode_bytes(bytes) {
        Err(e) => Err(e),
        Ok((data, used)) => match str_from_utf8(data) {
            None => Err(DecodeError::InvalidUtf8),
            Some(s) => Ok((s, used)),
        },
    }
}

/// Decodes a SCALE option: a tag byte, 0 for `None`, or 1 followed by the
/// value that `inner` decodes.
pub fn decode_option<'a, O, F: Fn(&'a [u8]) -> Result<(O, usize), DecodeError>>(
    inner: F,
    bytes: &'a [u8],
) -> (r: Result<(Option<O>, usize), DecodeError>)
    requires
        forall|b: &'a [u8]| #[trigger] inner.requires((b,)),
        forall|b: &'a [u8], x: Result<(O, usize), DecodeError>|
            #[trigger] inner.ensures((b,), x) ==> (x matches Ok((_, n)) ==> n <= b@.len()),
    ensures
        bytes@.len() == 0 ==> r == Err::<(Option<O>, usize), DecodeError>(
            DecodeError::NotEnoughBytes,
        ),
        bytes@.len() > 0 && bytes[0] == 0 ==> r == Ok::<(Option<O>, usize), DecodeError>(
            (None, 1),
        ),
        bytes@.len() > 0 && bytes[0] > 1 ==> r == Err::<(Option<O>, usize), DecodeError>(
            DecodeError::InvalidTag,
        ),
        bytes@.len() > 0 && bytes[0] == 1 ==> exists|b: &'a [u8], x: Result<(O, usize), DecodeError>|
            {
                &&& b@ == bytes@.subrange(1, bytes@.len() as int)
                &&& #[trigger] inner.ensures((b,), x)
                &&& match x {
                    Ok((v, n)) => r == Ok::<(Option<O>, usize), DecodeError>(
                        (Some(v), (n + 1) as usize),
                    ),
                    Err(e) => r == Err::<(Option<O>, usize), DecodeError>(e),
                }
            },
{
    if bytes.len() == 0 {
        Err(DecodeError::NotEnoughBytes)
    } else if bytes[0] == 0 {
        Ok((None, 1))
    } else if bytes[0] == 1 {
        let rest = vstd::slice::slice_subrange(bytes, 1, bytes.len());
        match inner(rest) {
            Ok((v, n)) => Ok((Some(v), n + 1)),
            Err(e) => Err(e),
        }
    } else {
        Err(DecodeError::InvalidTag)
    }
}

} // verus!
