//! Little-endian encoding of machine words.

use vstd::arithmetic::power::pow;
use vstd::prelude::*;

verus! {

/// The number of bytes in a machine word.
pub open spec fn word_len() -> nat {
    vstd::layout::size_of::<usize>()
}

/// The number that `bytes` denotes when its first byte is the least significant one.
pub open spec fn le_value(bytes: Seq<u8>) -> nat
    decreases bytes.len(),
{
    if bytes.len() == 0 {
        0
    } else {
        bytes[0] as nat + 256 * le_value(bytes.drop_first())
    }
}

/// The `len` least significant bytes of `n`, the least significant one first.
pub open spec fn le_bytes(n: nat, len: nat) -> Seq<u8>
    decreases len,
{
    if len == 0 {
        Seq::empty()
    } else {
        seq![(n % 256) as u8] + le_bytes(n / 256, (len - 1) as nat)
    }
}

/// How many numbers `len` bytes can tell apart.
pub open spec fn byte_range(len: nat) -> nat
    decreases len,
{
    if len == 0 {
        1
    } else {
        256 * byte_range((len - 1) as nat)
    }
}

/// A machine word has as many values as `word_len()` bytes can tell apart.
pub proof fn lemma_word_range()
    ensures
        word_len() == 4 || word_len() == 8,
        byte_range(word_len()) == usize::MAX + 1,
{
    broadcast use vstd::layout::layout_of_primitives;

    assert(word_len() * 8 == usize::BITS);
    reveal_with_fuel(byte_range, 9);
}

/// Encoding yields exactly as many bytes as asked for.
pub proof fn lemma_le_bytes_len(n: nat, len: nat)
    ensures
        le_bytes(n, len).len() == len,
    decreases len,
{
    if len > 0 {
        lemma_le_bytes_len(n / 256, (len - 1) as nat);
    }
}

/// A number made of `bytes.len()` bytes stays below the range of that many bytes.
pub proof fn lemma_le_value_bound(bytes: Seq<u8>)
    ensures
        le_value(bytes) < byte_range(bytes.len()),
    decreases bytes.len(),
{
    if bytes.len() > 0 {
        lemma_le_value_bound(bytes.drop_first());
    }
}

/// Decoding gives back the number that was encoded, when the bytes can hold it.
pub proof fn law_decode_encoded_word(n: nat, len: nat)
    requires
        n < byte_range(len),
    ensures
        le_value(le_bytes(n, len)) == n,
    decreases len,
{
    if len > 0 {
        law_decode_encoded_word(n / 256, (len - 1) as nat);
        assert(le_bytes(n, len).drop_first() =~= le_bytes(n / 256, (len - 1) as nat));
    }
}

/// Encoding gives back the bytes that were decoded.
pub proof fn law_encode_decoded_word(bytes: Seq<u8>)
    ensures
        le_bytes(le_value(bytes), bytes.len()) == bytes,
    decreases bytes.len(),
{
    if bytes.len() > 0 {
        law_encode_decoded_word(bytes.drop_first());
        assert(le_value(bytes) / 256 == le_value(bytes.drop_first()));
        assert(seq![bytes[0]] + bytes.drop_first() =~= bytes);
    }
}

/// A machine word has one byte for every eight of its bits.
pub proof fn law_word_is_whole_bytes()
    ensures
        word_len() * 8 == usize::BITS,
        pow(256, word_len()) == usize::MAX + 1,
{
    broadcast use vstd::layout::layout_of_primitives;

    lemma_word_range();
    lemma_byte_range_is_power(word_len());
}

/// `len` bytes can tell 256 to the power of `len` numbers apart.
proof fn lemma_byte_range_is_power(len: nat)
    ensures
        byte_range(len) == pow(256, len),
        0 < pow(256, len),
    decreases len,
{
    reveal(pow);
    if len > 0 {
        lemma_byte_range_is_power((len - 1) as nat);
    }
}

/// The digit of `n` at the place `i + 1` is the digit of `n / 256` at the place `i`.
proof fn lemma_next_place(n: nat, i: nat)
    ensures
        n as int / pow(256, i + 1) == (n / 256) as int / pow(256, i),
        0 < pow(256, i),
{
    reveal_with_fuel(pow, 2);
    lemma_byte_range_is_power(i);
    vstd::arithmetic::div_mod::lemma_div_denominator(n as int, 256, pow(256, i));
}

/// The byte at the place `i` of an encoded number is the number's digit at that place in base 256,
/// and there are as many bytes as asked for.
pub proof fn law_encoded_digit(n: nat, len: nat, i: nat)
    requires
        i < len,
    ensures
        le_bytes(n, len).len() == len,
        le_bytes(n, len)[i as int] == (n as int / pow(256, i)) % 256,
    decreases len,
{
    lemma_le_bytes_len(n, len);
    reveal(pow);
    if i > 0 {
        law_encoded_digit(n / 256, (len - 1) as nat, (i - 1) as nat);
        lemma_next_place(n, (i - 1) as nat);
        lemma_le_bytes_len(n / 256, (len - 1) as nat);
        assert(le_bytes(n, len)[i as int] == le_bytes(n / 256, (len - 1) as nat)[i - 1]);
    }
}

/// The digit of a decoded number at the place `i` in base 256 is the byte at that place, and the
/// number has no further digits.
pub proof fn law_decoded_digit(bytes: Seq<u8>, i: nat)
    requires
        i < bytes.len(),
    ensures
        (le_value(bytes) as int / pow(256, i)) % 256 == bytes[i as int],
        le_value(bytes) < pow(256, bytes.len()),
{
    law_encode_decoded_word(bytes);
    law_encoded_digit(le_value(bytes), bytes.len(), i);
    lemma_le_value_bound(bytes);
    lemma_byte_range_is_power(bytes.len());
}

/// A decoded number is the sum of its bytes, each one times 256 to the power of its place: no bytes
/// make 0, and one more byte adds its part.
pub proof fn law_decoded_sum(bytes: Seq<u8>, last: u8)
    ensures
        le_value(Seq::empty()) == 0,
        le_value(bytes.push(last)) == le_value(bytes) + last * pow(256, bytes.len()),
    decreases bytes.len(),
{
    reveal_with_fuel(pow, 2);
    if bytes.len() == 0 {
        reveal_with_fuel(le_value, 2);
        assert(bytes.push(last).drop_first() =~= Seq::empty());
    } else {
        let tail = bytes.drop_first();
        law_decoded_sum(tail, last);
        assert(bytes.push(last).drop_first() =~= tail.push(last));
        assert(pow(256, bytes.len()) == 256 * pow(256, tail.len()));
        assert(256 * (last * pow(256, tail.len())) == last * (256 * pow(256, tail.len())))
            by (nonlinear_arith);
    }
}

/// The bytes of `n`, the least significant one first.
pub fn word_to_le_bytes(n: usize) -> (bytes: Vec<u8>)
    ensures
        bytes@ == le_bytes(n as nat, word_len()),
{
    let len: usize = core::mem::size_of::<usize>();
    let mut bytes: Vec<u8> = Vec::new();
    let mut rest: usize = n;
    let mut done: usize = 0;
    assert(bytes@ + le_bytes(rest as nat, word_len()) =~= le_bytes(n as nat, word_len()));
    while done < len
        invariant
            done <= len,
            len == word_len(),
            bytes@ + le_bytes(rest as nat, (len - done) as nat) == le_bytes(n as nat, word_len()),
        decreases len - done,
    {
        let byte: u8 = (rest % 256) as u8;
        proof {
            let tail = le_bytes(rest as nat / 256, (len - done - 1) as nat);
            assert(bytes@ + (seq![byte] + tail) =~= bytes@.push(byte) + tail);
        }
        bytes.push(byte);
        rest = rest / 256;
        done = done + 1;
    }
    assert(bytes@ + le_bytes(rest as nat, 0) =~= bytes@);
    bytes
}

/// The number whose bytes are `bytes`, the least significant one first.
pub fn word_from_le_bytes(bytes: &[u8]) -> (n: usize)
    requires
        bytes@.len() == word_len(),
    ensures
        n == le_value(bytes@),
{
    let mut n: usize = 0;
    let mut left: usize = bytes.len();
    while left > 0
        invariant
            left <= bytes@.len(),
            bytes@.len() == word_len(),
            n == le_value(bytes@.skip(left as int)),
        decreases left,
    {
        left = left - 1;
        proof {
            let tail = bytes@.skip(left as int);
            assert(tail.drop_first() =~= bytes@.skip(left + 1));
            lemma_le_value_bound(tail);
            lemma_byte_range_monotone(tail.len(), word_len());
            lemma_word_range();
        }
        n = n * 256 + bytes[left] as usize;
    }
    assert(bytes@.skip(0) =~= bytes@);
    n
}

proof fn lemma_byte_range_monotone(a: nat, b: nat)
    requires
        a <= b,
    ensures
        byte_range(a) <= byte_range(b),
        0 < byte_range(a),
    decreases b,
{
    if b > 0 {
        if a < b {
            lemma_byte_range_monotone(a, (b - 1) as nat);
        } else {
            lemma_byte_range_monotone((a - 1) as nat, (b - 1) as nat);
        }
    }
}

} // verus!
