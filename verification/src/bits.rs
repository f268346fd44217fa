//! Thirty-two bits as a set of bit positions.
//!
//! The flag types of this crate state their operations on raw bits. The laws here
//! say what those operations are on sets: each holds of every flag type, since
//! each flag type is its raw bits.
use vstd::prelude::*;

verus! {

/// Whether bit `i` of `x` is set.
pub open spec fn has_bit(x: u32, i: int) -> bool {
    0 <= i < 32 && (x >> (i as u32)) & 1 == 1
}

/// The positions of the set bits of `x`.
pub open spec fn bit_set(x: u32) -> Set<int> {
    Set::new(|i: int| has_bit(x, i))
}

/// A word other than zero has a set bit.
proof fn lemma_some_bit(x: u32) -> (i: int)
    requires
        x != 0,
    ensures
        has_bit(x, i),
    decreases x,
{
    if x & 1 == 1 {
        assert(x & 1 == 1 ==> (x >> 0u32) & 1 == 1) by (bit_vector);
        0
    } else {
        let half = x / 2;
        assert(x != 0 && x & 1 != 1 ==> x / 2 != 0) by (bit_vector);
        let j = lemma_some_bit(half);
        let k = j as u32;
        let next = (j + 1) as u32;
        assert(k < 31 && (x >> next) & 1 == 1) by (bit_vector)
            requires
                k < 32,
                next == k + 1,
                ((x / 2) >> k) & 1 == 1,
        ;
        j + 1
    }
}

/// Two words with the same bits are the same word.
proof fn lemma_same_bits(a: u32, b: u32)
    requires
        forall|i: int| 0 <= i < 32 ==> has_bit(a, i) == has_bit(b, i),
    ensures
        a == b,
{
    if a ^ b != 0 {
        let i = lemma_some_bit(a ^ b);
        lemma_bitwise(a, b, i);
    }
    assert(a ^ b == 0 ==> a == b) by (bit_vector);
}

/// Bits combine one position at a time.
proof fn lemma_bitwise(a: u32, b: u32, i: int)
    requires
        0 <= i < 32,
    ensures
        has_bit(a & b, i) == (has_bit(a, i) && has_bit(b, i)),
        has_bit(a | b, i) == (has_bit(a, i) || has_bit(b, i)),
        has_bit(a ^ b, i) == (has_bit(a, i) != has_bit(b, i)),
        has_bit(!a, i) == !has_bit(a, i),
        !has_bit(0, i),
{
    let k = i as u32;
    assert(((a & b) >> k) & 1 == ((a >> k) & 1) & ((b >> k) & 1)) by (bit_vector);
    assert(((a | b) >> k) & 1 == ((a >> k) & 1) | ((b >> k) & 1)) by (bit_vector);
    assert(((a ^ b) >> k) & 1 == ((a >> k) & 1) ^ ((b >> k) & 1)) by (bit_vector);
    assert(k < 32 ==> ((!a >> k) & 1 == 1u32 - ((a >> k) & 1))) by (bit_vector);
    assert((0u32 >> k) & 1 == 0) by (bit_vector);
    let x = (a >> k) & 1;
    let y = (b >> k) & 1;
    assert(x == 0 || x == 1) by {
        assert((a >> k) & 1 == 0 || (a >> k) & 1 == 1) by (bit_vector);
    }
    assert(y == 0 || y == 1) by {
        assert((b >> k) & 1 == 0 || (b >> k) & 1 == 1) by (bit_vector);
    }
    assert((x == 0 || x == 1) && (y == 0 || y == 1) ==> ((x & y == 1) == (x == 1 && y == 1)) && ((x
        | y == 1) == (x == 1 || y == 1)) && ((x ^ y == 1) == (x != y))) by (bit_vector);
}

/// `|` is the union of the two sets of flags, `&` their intersection, `^` the flags
/// in exactly one of them, and `!` the flags that are not set.
pub proof fn law_operators_are_set_operations(a: u32, b: u32)
    ensures
        bit_set(a | b) == bit_set(a).union(bit_set(b)),
        bit_set(a & b) == bit_set(a).intersect(bit_set(b)),
        bit_set(a ^ b) == bit_set(a).difference(bit_set(b)).union(bit_set(b).difference(bit_set(a))),
        forall|i: int| 0 <= i < 32 ==> bit_set(!a).contains(i) == !bit_set(a).contains(i),
        bit_set(0) == Set::<int>::empty(),
{
    assert forall|i: int| 0 <= i < 32 implies {
        &&& has_bit(a & b, i) == (has_bit(a, i) && has_bit(b, i))
        &&& has_bit(a | b, i) == (has_bit(a, i) || has_bit(b, i))
        &&& has_bit(a ^ b, i) == (has_bit(a, i) != has_bit(b, i))
        &&& #[trigger] has_bit(!a, i) == !has_bit(a, i)
        &&& !has_bit(0, i)
    } by {
        lemma_bitwise(a, b, i);
    }
    assert forall|i: int| #[trigger] has_bit(a | b, i) == (has_bit(a, i) || has_bit(b, i)) by {
        if 0 <= i < 32 {
            lemma_bitwise(a, b, i);
        }
    }
    assert forall|i: int| #[trigger] has_bit(a & b, i) == (has_bit(a, i) && has_bit(b, i)) by {
        if 0 <= i < 32 {
            lemma_bitwise(a, b, i);
        }
    }
    assert forall|i: int| #[trigger] has_bit(a ^ b, i) == (has_bit(a, i) != has_bit(b, i)) by {
        if 0 <= i < 32 {
            lemma_bitwise(a, b, i);
        }
    }
    assert forall|i: int| !#[trigger] has_bit(0, i) by {
        if 0 <= i < 32 {
            lemma_bitwise(a, b, i);
        }
    }
    assert(bit_set(a | b) =~= bit_set(a).union(bit_set(b)));
    assert(bit_set(a & b) =~= bit_set(a).intersect(bit_set(b)));
    assert(bit_set(a ^ b) =~= bit_set(a).difference(bit_set(b)).union(
        bit_set(b).difference(bit_set(a)),
    ));
    assert(bit_set(0) =~= Set::<int>::empty());
}

/// `contains` is the subset relation.
pub proof fn law_contains_is_subset(a: u32, b: u32)
    ensures
        (a & b == b) <==> bit_set(b).subset_of(bit_set(a)),
{
    law_operators_are_set_operations(a, b);
    if a & b == b {
        assert forall|i: int| bit_set(b).contains(i) implies bit_set(a).contains(i) by {
            assert(bit_set(a & b).contains(i));
        }
    }
    if bit_set(b).subset_of(bit_set(a)) {
        assert forall|i: int| 0 <= i < 32 implies has_bit(a & b, i) == has_bit(b, i) by {
            lemma_bitwise(a, b, i);
            assert(bit_set(b).contains(i) ==> bit_set(a).contains(i));
        }
        lemma_same_bits(a & b, b);
    }
}

/// `intersects` tells whether the two sets share a flag.
pub proof fn law_intersects_is_shared_flag(a: u32, b: u32)
    ensures
        (a & b != 0) <==> exists|i: int| bit_set(a).contains(i) && bit_set(b).contains(i),
{
    if a & b != 0 {
        if forall|i: int| 0 <= i < 32 ==> has_bit(a & b, i) == has_bit(0, i) {
            lemma_same_bits(a & b, 0);
        }
        let i = choose|i: int| 0 <= i < 32 && has_bit(a & b, i) != has_bit(0, i);
        lemma_bitwise(a, b, i);
        assert(bit_set(a).contains(i) && bit_set(b).contains(i));
    }
    if exists|i: int| bit_set(a).contains(i) && bit_set(b).contains(i) {
        let i = choose|i: int| bit_set(a).contains(i) && bit_set(b).contains(i);
        lemma_bitwise(a, b, i);
        assert(has_bit(a & b, i));
        assert(!has_bit(0, i));
    }
}

/// Flags are equal exactly when they are the same set.
pub proof fn law_flags_are_their_set(a: u32, b: u32)
    ensures
        (a == b) <==> bit_set(a) == bit_set(b),
{
    if bit_set(a) == bit_set(b) {
        assert forall|i: int| 0 <= i < 32 implies has_bit(a, i) == has_bit(b, i) by {
            assert(bit_set(a).contains(i) == bit_set(b).contains(i));
        }
        lemma_same_bits(a, b);
    }
}

} // verus!
