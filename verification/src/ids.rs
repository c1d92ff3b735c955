//! Identifiers and timestamps.
//!
//! Identifiers are UUIDs held as their 128-bit value; their text is the
//! hyphenated lower-case form that the `uuid` crate prints.

use vstd::prelude::*;
use vstd::set_lib::{lemma_int_range, lemma_len_subset, lemma_map_size, set_int_range};
use vstd::relations::injective_on;

verus! {

/// The lower-case hexadecimal digit of `d` (for `d < 16`).
pub open spec fn hex_digit(d: u128) -> char {
    seq!['0', '1', '2', '3', '4', '5', '6', '7', '8', '9', 'a', 'b', 'c', 'd', 'e', 'f'][d as int]
}

/// The `k`-th hexadecimal digit (0 is the most significant) of a 128-bit value.
pub open spec fn nibble(v: u128, k: int) -> u128 {
    (v >> ((124 - 4 * k) as u128)) & 15u128
}

/// Which of the 32 digits stands at position `j` of the hyphenated text.
pub open spec fn digit_at(j: int) -> int {
    if j < 8 {
        j
    } else if j < 13 {
        j - 1
    } else if j < 18 {
        j - 2
    } else if j < 23 {
        j - 3
    } else {
        j - 4
    }
}

/// The hyphenated text of a UUID, such as `67e55044-10b1-426f-9247-bb680e5fe0c8`:
/// its 32 lower-case hex digits, most significant first, in groups of
/// 8, 4, 4, 4 and 12 separated by `-`.
pub open spec fn uuid_text(v: u128) -> Seq<char> {
    Seq::new(
        36,
        |j: int|
            if j == 8 || j == 13 || j == 18 || j == 23 {
                '-'
            } else {
                hex_digit(nibble(v, digit_at(j)))
            },
    )
}

/// The text of an identifier, as `uuid::Uuid`'s `Display` writes it.
///
/// Trusted: `uuid::Uuid::from_u128` followed by `to_string`, which formats
/// the value hyphenated in lower case (`fmt::LowerHex` of `Hyphenated`).
#[verifier::external_body]
pub(crate) fn uuid_to_string(id: u128) -> (s: String)
    ensures
        s@ == uuid_text(id),
{
    uuid::Uuid::from_u128(id).to_string()
}

/// The identifier carries the marks of a random (version 4) UUID: version
/// nibble 4 and variant bits `10`.
pub open spec fn is_random_uuid(id: u128) -> bool {
    id & 0x0000_0000_0000_f000_c000_0000_0000_0000u128 == 0x0000_0000_0000_4000_8000_0000_0000_0000u128
}

/// A fresh random identifier.
///
/// Trusted: `uuid::Uuid::new_v4().as_u128()`. The value is random; what holds
/// of every outcome is that the version nibble is 4 and the variant bits are
/// `10`, which `new_v4` sets by masking.
#[verifier::external_body]
pub(crate) fn new_id() -> (id: u128)
    ensures
        is_random_uuid(id),
{
    uuid::Uuid::new_v4().as_u128()
}

/// The `k`-th spare identifier: a version 4 UUID whose free bits hold `k`
/// (its low 62 bits in bits 0 to 61, the top 2 in bits 64 and 65).
pub open spec fn spare_id(k: u64) -> u128 {
    0x0000_0000_0000_4000_8000_0000_0000_0000u128 | ((k as u128) & 0x3fff_ffff_ffff_ffffu128)
        | (((k as u128) >> 62u128) << 64u128)
}

/// Spare identifiers carry the version 4 marks, and distinct numbers give
/// distinct spare identifiers.
proof fn lemma_spare_id(a: u64, b: u64)
    ensures
        is_random_uuid(spare_id(a)),
        spare_id(a) == spare_id(b) ==> a == b,
{
    assert(is_random_uuid(spare_id(a))) by (bit_vector);
    assert(spare_id(a) == spare_id(b) ==> a == b) by (bit_vector);
}

/// A list holding the first `m` spare identifiers is at least `m` long.
proof fn lemma_spare_ids_fit(taken: Seq<u128>, m: int)
    requires
        0 <= m <= 0x1_0000_0000_0000_0000,
        forall|j: u64| j < m ==> taken.contains(#[trigger] spare_id(j)),
    ensures
        m <= taken.len(),
{
    let x = set_int_range(0, m);
    lemma_int_range(0, m);
    let f = |j: int| spare_id(j as u64);
    let y = x.map(f);
    assert forall|a: int, b: int| x.contains(a) && x.contains(b) && #[trigger] f(a) == #[trigger] f(b)
        implies a == b by {
        lemma_spare_id(a as u64, b as u64);
    }
    assert(injective_on(f, x));
    lemma_map_size(x, y, f);
    assert forall|v: u128| y.contains(v) implies taken.to_set().contains(v) by {
        let a = choose|a: int| x.contains(a) && v == f(a);
        assert(taken.contains(spare_id(a as u64)));
    }
    taken.lemma_cardinality_of_set();
    lemma_len_subset(y, taken.to_set());
}

/// Whether `v` holds `x`.
fn holds(v: &Vec<u128>, x: u128) -> (r: bool)
    ensures
        r == v@.contains(x),
{
    let mut i: usize = 0;
    while i < v.len()
        invariant
            i <= v.len(),
            forall|j: int| 0 <= j < i ==> v@[j] != x,
        decreases v.len() - i,
    {
        if v[i] == x {
            assert(v@[i as int] == x);
            return true;
        }
        i = i + 1;
    }
    false
}

/// The `k`-th spare identifier.
fn make_spare_id(k: u64) -> (r: u128)
    ensures
        r == spare_id(k),
{
    0x0000_0000_0000_4000_8000_0000_0000_0000u128 | ((k as u128) & 0x3fff_ffff_ffff_ffffu128)
        | (((k as u128) >> 62u128) << 64u128)
}

/// A version 4 identifier that `taken` does not hold: a random one, or,
/// should the random one be taken already, the first spare identifier that
/// is free (there is one among the first `taken.len() + 1`).
pub(crate) fn fresh_id(taken: &Vec<u128>) -> (id: u128)
    ensures
        is_random_uuid(id),
        !taken@.contains(id),
{
    let r = new_id();
    if !holds(taken, r) {
        return r;
    }
    let n: usize = taken.len();
    let mut k: u64 = 0;
    while holds(taken, make_spare_id(k))
        invariant
            n == taken@.len(),
            n <= u64::MAX,
            k <= taken@.len(),
            forall|j: u64| j < k ==> taken@.contains(#[trigger] spare_id(j)),
        decreases taken@.len() - k,
    {
        proof {
            assert forall|j: u64| j < k + 1 implies taken@.contains(#[trigger] spare_id(j)) by {
                if j == k {
                }
            }
            lemma_spare_ids_fit(taken@, k + 1);
        }
        k = k + 1;
    }
    proof {
        lemma_spare_id(k, k);
    }
    make_spare_id(k)
}

/// A point in time: whole seconds since the Unix epoch and the nanoseconds
/// past that second.
#[derive(Clone, Copy, Debug, PartialEq, Eq, Structural)]
pub struct Timestamp {
    pub secs: i64,
    pub nanos: u32,
}

/// The current time.
///
/// Trusted: `chrono::Utc::now()`, taken apart by `timestamp()` and
/// `timestamp_subsec_nanos()`. It reads the clock, so nothing is stated of it.
#[verifier::external_body]
pub(crate) fn now() -> (t: Timestamp) {
    let t = chrono::Utc::now();
    Timestamp { secs: t.timestamp(), nanos: t.timestamp_subsec_nanos() }
}

} // verus!
