//! Identifiers: the tag that ties the journal lines of one request together,
//! and the key of a stored subscriber.
//!
//! Both are random 128-bit identifiers. They are kept as two types, because
//! the two roles are never served by one draw: each identifier comes from a
//! draw of its own.

use vstd::prelude::*;

verus! {

/// Tags the journal lines written while one request is handled.
#[derive(Clone, Copy, Debug, PartialEq, Eq, Structural)]
pub struct CorrelationId(pub u128);

/// The key under which one subscriber is stored.
#[derive(Clone, Copy, Debug, PartialEq, Eq, Structural)]
pub struct SubscriberId(pub u128);

/// The four version bits of an identifier.
pub open spec fn version_bits(id: u128) -> u128 {
    (id >> 76) & 0xf
}

/// The two leading variant bits of an identifier.
pub open spec fn variant_bits(id: u128) -> u128 {
    (id >> 62) & 0x3
}

/// An identifier of the random kind: version 4, and the variant whose two
/// leading bits are `10`.
pub open spec fn is_random_id(id: u128) -> bool {
    version_bits(id) == 4 && variant_bits(id) == 2
}

/// The sixteen lower-case hexadecimal digits, by value.
pub open spec fn hex_digits() -> Seq<char> {
    seq!['0', '1', '2', '3', '4', '5', '6', '7', '8', '9', 'a', 'b', 'c', 'd', 'e', 'f']
}

/// The `k`-th group of four bits of `id`, counted from the most significant
/// one; `k` runs from 0 to 31.
pub open spec fn nibble(id: u128, k: int) -> u128 {
    (id >> ((4 * (31 - k)) as u128)) & 0xf
}

/// How many hyphens stand before position `i` of the hyphenated form.
pub open spec fn hyphens_before(i: int) -> int {
    if i < 8 {
        0
    } else if i < 13 {
        1
    } else if i < 18 {
        2
    } else if i < 23 {
        3
    } else {
        4
    }
}

/// The hyphenated form of an identifier: its 32 lower-case hexadecimal
/// digits, most significant first, in groups of 8, 4, 4, 4 and 12 with a
/// hyphen between neighbours.
pub open spec fn hyphenated_text(id: u128) -> Seq<char> {
    Seq::new(
        36,
        |i: int|
            if i == 8 || i == 13 || i == 18 || i == 23 {
                '-'
            } else {
                hex_digits()[nibble(id, i - hyphens_before(i)) as int]
            },
    )
}

/// Draws a fresh identifier with `uuid::Uuid::new_v4` and hands it out as
/// the 128-bit number that `Uuid::as_u128` gives for it.
///
/// Trusted: the value is random, so nothing is said of it but what `new_v4`
/// fixes in every identifier it makes, the version and the variant bits.
#[verifier::external_body]
pub(crate) fn random_id() -> (id: u128)
    ensures
        is_random_id(id),
{
    uuid::Uuid::new_v4().as_u128()
}

/// Writes an identifier as `uuid::Uuid` displays it: `Uuid::from_u128`
/// followed by `to_string`.
///
/// Trusted: the text is the hyphenated lower-case form of the number.
#[verifier::external_body]
pub(crate) fn hyphenated(id: u128) -> (text: String)
    ensures
        text@ == hyphenated_text(id),
{
    uuid::Uuid::from_u128(id).to_string()
}

/// Two values below sixteen with the same hexadecimal digit are equal.
proof fn lemma_digit_fixes_its_value(m: u128, n: u128)
    requires
        m < 16,
        n < 16,
        hex_digits()[m as int] == hex_digits()[n as int],
    ensures
        m == n,
{
}

/// A number is fixed by its 32 groups of four bits.
proof fn lemma_nibbles_fix_the_number(a: u128, b: u128)
    by (bit_vector)
    requires
        (a >> 124) & 0xf == (b >> 124) & 0xf,
        (a >> 120) & 0xf == (b >> 120) & 0xf,
        (a >> 116) & 0xf == (b >> 116) & 0xf,
        (a >> 112) & 0xf == (b >> 112) & 0xf,
        (a >> 108) & 0xf == (b >> 108) & 0xf,
        (a >> 104) & 0xf == (b >> 104) & 0xf,
        (a >> 100) & 0xf == (b >> 100) & 0xf,
        (a >> 96) & 0xf == (b >> 96) & 0xf,
        (a >> 92) & 0xf == (b >> 92) & 0xf,
        (a >> 88) & 0xf == (b >> 88) & 0xf,
        (a >> 84) & 0xf == (b >> 84) & 0xf,
        (a >> 80) & 0xf == (b >> 80) & 0xf,
        (a >> 76) & 0xf == (b >> 76) & 0xf,
        (a >> 72) & 0xf == (b >> 72) & 0xf,
        (a >> 68) & 0xf == (b >> 68) & 0xf,
        (a >> 64) & 0xf == (b >> 64) & 0xf,
        (a >> 60) & 0xf == (b >> 60) & 0xf,
        (a >> 56) & 0xf == (b >> 56) & 0xf,
        (a >> 52) & 0xf == (b >> 52) & 0xf,
        (a >> 48) & 0xf == (b >> 48) & 0xf,
        (a >> 44) & 0xf == (b >> 44) & 0xf,
        (a >> 40) & 0xf == (b >> 40) & 0xf,
        (a >> 36) & 0xf == (b >> 36) & 0xf,
        (a >> 32) & 0xf == (b >> 32) & 0xf,
        (a >> 28) & 0xf == (b >> 28) & 0xf,
        (a >> 24) & 0xf == (b >> 24) & 0xf,
        (a >> 20) & 0xf == (b >> 20) & 0xf,
        (a >> 16) & 0xf == (b >> 16) & 0xf,
        (a >> 12) & 0xf == (b >> 12) & 0xf,
        (a >> 8) & 0xf == (b >> 8) & 0xf,
        (a >> 4) & 0xf == (b >> 4) & 0xf,
        (a >> 0) & 0xf == (b >> 0) & 0xf,
    ensures
        a == b,
{
}

/// Where two hyphenated forms agree at the place of the `k`-th digit, the
/// two numbers agree in their `k`-th group of four bits.
proof fn lemma_digit_at(a: u128, b: u128, k: int, place: int)
    requires
        0 <= k < 32,
        0 <= place < 36,
        place != 8 && place != 13 && place != 18 && place != 23,
        k == place - hyphens_before(place),
        hyphenated_text(a)[place] == hyphenated_text(b)[place],
    ensures
        nibble(a, k) == nibble(b, k),
{
    let shift = (4 * (31 - k)) as u128;
    assert((a >> shift) & 0xf < 16) by (bit_vector);
    assert((b >> shift) & 0xf < 16) by (bit_vector);
    lemma_digit_fixes_its_value(nibble(a, k), nibble(b, k));
}

/// The hyphenated form tells identifiers apart: two numbers with the same
/// form are the same number.
pub proof fn lemma_hyphenated_text_is_injective(a: u128, b: u128)
    requires
        hyphenated_text(a) == hyphenated_text(b),
    ensures
        a == b,
{
    lemma_digit_at(a, b, 0, 0);
    lemma_digit_at(a, b, 1, 1);
    lemma_digit_at(a, b, 2, 2);
    lemma_digit_at(a, b, 3, 3);
    lemma_digit_at(a, b, 4, 4);
    lemma_digit_at(a, b, 5, 5);
    lemma_digit_at(a, b, 6, 6);
    lemma_digit_at(a, b, 7, 7);
    lemma_digit_at(a, b, 8, 9);
    lemma_digit_at(a, b, 9, 10);
    lemma_digit_at(a, b, 10, 11);
    lemma_digit_at(a, b, 11, 12);
    lemma_digit_at(a, b, 12, 14);
    lemma_digit_at(a, b, 13, 15);
    lemma_digit_at(a, b, 14, 16);
    lemma_digit_at(a, b, 15, 17);
    lemma_digit_at(a, b, 16, 19);
    lemma_digit_at(a, b, 17, 20);
    lemma_digit_at(a, b, 18, 21);
    lemma_digit_at(a, b, 19, 22);
    lemma_digit_at(a, b, 20, 24);
    lemma_digit_at(a, b, 21, 25);
    lemma_digit_at(a, b, 22, 26);
    lemma_digit_at(a, b, 23, 27);
    lemma_digit_at(a, b, 24, 28);
    lemma_digit_at(a, b, 25, 29);
    lemma_digit_at(a, b, 26, 30);
    lemma_digit_at(a, b, 27, 31);
    lemma_digit_at(a, b, 28, 32);
    lemma_digit_at(a, b, 29, 33);
    lemma_digit_at(a, b, 30, 34);
    lemma_digit_at(a, b, 31, 35);
    lemma_nibbles_fix_the_number(a, b);
}


} // verus!
