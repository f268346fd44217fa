//! Flags are sets: what their operations do to the flags that are set.
use vstd::prelude::*;

use std::ops::{BitAnd, BitOr, BitXor, Not};

use crate::bits::{
    bit_set, has_bit, law_contains_is_subset, law_flags_are_their_set,
    law_intersects_is_shared_flag, law_operators_are_set_operations,
};
use crate::flags::{
    SuperResolutionDispatchFlags, SuperResolutionEnginePropertyFlags, SuperResolutionImageUseFlags,
    SuperResolutionQualityFocusFlags, SuperResolutionSessionCreateFlags,
    SuperResolutionSessionMemoryRequirementsFlags,
};

verus! {

/// Of these flags, one set contains another where each flag of the other is in it; two
/// intersect where they share a flag; a set is empty where it has none; the bits of a set and
/// the set of given bits are each other's.
pub proof fn law_engine_property_flags_compare_as_sets(
    a: SuperResolutionEnginePropertyFlags,
    b: SuperResolutionEnginePropertyFlags,
    contains: bool,
    intersects: bool,
    is_empty: bool,
    raw: u32,
    back: SuperResolutionEnginePropertyFlags,
)
    requires
        call_ensures(SuperResolutionEnginePropertyFlags::contains, (a, b), contains),
        call_ensures(SuperResolutionEnginePropertyFlags::intersects, (a, b), intersects),
        call_ensures(SuperResolutionEnginePropertyFlags::is_empty, (a,), is_empty),
        call_ensures(SuperResolutionEnginePropertyFlags::as_raw, (a,), raw),
        call_ensures(SuperResolutionEnginePropertyFlags::from_raw, (raw,), back),
    ensures
        contains <==> forall|i: int| bit_set(b.0).contains(i) ==> #[trigger] bit_set(a.0).contains(
            i,
        ),
        intersects <==> exists|i: int|
            bit_set(a.0).contains(i) && #[trigger] bit_set(b.0).contains(i),
        is_empty <==> bit_set(a.0) == Set::<int>::empty(),
        raw == a.0,
        back == a,
{
    law_contains_is_subset(a.0, b.0);
    law_intersects_is_shared_flag(a.0, b.0);
    law_flags_are_their_set(a.0, 0);
    law_operators_are_set_operations(a.0, b.0);
}

/// Of these flags, `|` joins two sets, `&` keeps what is in both, `^` what is in one alone,
/// and `!` what is not in the set. The default has none.
pub proof fn law_engine_property_flags_combine_as_sets(
    a: SuperResolutionEnginePropertyFlags,
    b: SuperResolutionEnginePropertyFlags,
    or: SuperResolutionEnginePropertyFlags,
    and: SuperResolutionEnginePropertyFlags,
    xor: SuperResolutionEnginePropertyFlags,
    not: SuperResolutionEnginePropertyFlags,
    none: SuperResolutionEnginePropertyFlags,
    i: int,
)
    requires
        call_ensures(SuperResolutionEnginePropertyFlags::bitor, (a, b), or),
        call_ensures(SuperResolutionEnginePropertyFlags::bitand, (a, b), and),
        call_ensures(SuperResolutionEnginePropertyFlags::bitxor, (a, b), xor),
        call_ensures(SuperResolutionEnginePropertyFlags::not, (a,), not),
        call_ensures(SuperResolutionEnginePropertyFlags::default, (), none),
        0 <= i < 32,
    ensures
        has_bit(or.0, i) <==> has_bit(a.0, i) || has_bit(b.0, i),
        has_bit(and.0, i) <==> has_bit(a.0, i) && has_bit(b.0, i),
        has_bit(xor.0, i) <==> has_bit(a.0, i) != has_bit(b.0, i),
        has_bit(not.0, i) <==> !has_bit(a.0, i),
        !has_bit(none.0, i),
{
    law_operators_are_set_operations(a.0, b.0);
    assert(bit_set(or.0).contains(i) == (bit_set(a.0).contains(i) || bit_set(b.0).contains(i)));
    assert(bit_set(and.0).contains(i) == (bit_set(a.0).contains(i) && bit_set(b.0).contains(i)));
    assert(bit_set(xor.0).contains(i) == (bit_set(a.0).contains(i) != bit_set(b.0).contains(i)));
    assert(bit_set(not.0).contains(i) == !bit_set(a.0).contains(i));
    assert(!bit_set(none.0).contains(i));
}

/// Of these flags, one set contains another where each flag of the other is in it; two
/// intersect where they share a flag; a set is empty where it has none; the bits of a set and
/// the set of given bits are each other's.
pub proof fn law_image_use_flags_compare_as_sets(
    a: SuperResolutionImageUseFlags,
    b: SuperResolutionImageUseFlags,
    contains: bool,
    intersects: bool,
    is_empty: bool,
    raw: u32,
    back: SuperResolutionImageUseFlags,
)
    requires
        call_ensures(SuperResolutionImageUseFlags::contains, (a, b), contains),
        call_ensures(SuperResolutionImageUseFlags::intersects, (a, b), intersects),
        call_ensures(SuperResolutionImageUseFlags::is_empty, (a,), is_empty),
        call_ensures(SuperResolutionImageUseFlags::as_raw, (a,), raw),
        call_ensures(SuperResolutionImageUseFlags::from_raw, (raw,), back),
    ensures
        contains <==> forall|i: int| bit_set(b.0).contains(i) ==> #[trigger] bit_set(a.0).contains(
            i,
        ),
        intersects <==> exists|i: int|
            bit_set(a.0).contains(i) && #[trigger] bit_set(b.0).contains(i),
        is_empty <==> bit_set(a.0) == Set::<int>::empty(),
        raw == a.0,
        back == a,
{
    law_contains_is_subset(a.0, b.0);
    law_intersects_is_shared_flag(a.0, b.0);
    law_flags_are_their_set(a.0, 0);
    law_operators_are_set_operations(a.0, b.0);
}

/// Of these flags, `|` joins two sets, `&` keeps what is in both, `^` what is in one alone,
/// and `!` what is not in the set. The default has none.
pub proof fn law_image_use_flags_combine_as_sets(
    a: SuperResolutionImageUseFlags,
    b: SuperResolutionImageUseFlags,
    or: SuperResolutionImageUseFlags,
    and: SuperResolutionImageUseFlags,
    xor: SuperResolutionImageUseFlags,
    not: SuperResolutionImageUseFlags,
    none: SuperResolutionImageUseFlags,
    i: int,
)
    requires
        call_ensures(SuperResolutionImageUseFlags::bitor, (a, b), or),
        call_ensures(SuperResolutionImageUseFlags::bitand, (a, b), and),
        call_ensures(SuperResolutionImageUseFlags::bitxor, (a, b), xor),
        call_ensures(SuperResolutionImageUseFlags::not, (a,), not),
        call_ensures(SuperResolutionImageUseFlags::default, (), none),
        0 <= i < 32,
    ensures
        has_bit(or.0, i) <==> has_bit(a.0, i) || has_bit(b.0, i),
        has_bit(and.0, i) <==> has_bit(a.0, i) && has_bit(b.0, i),
        has_bit(xor.0, i) <==> has_bit(a.0, i) != has_bit(b.0, i),
        has_bit(not.0, i) <==> !has_bit(a.0, i),
        !has_bit(none.0, i),
{
    law_operators_are_set_operations(a.0, b.0);
    assert(bit_set(or.0).contains(i) == (bit_set(a.0).contains(i) || bit_set(b.0).contains(i)));
    assert(bit_set(and.0).contains(i) == (bit_set(a.0).contains(i) && bit_set(b.0).contains(i)));
    assert(bit_set(xor.0).contains(i) == (bit_set(a.0).contains(i) != bit_set(b.0).contains(i)));
    assert(bit_set(not.0).contains(i) == !bit_set(a.0).contains(i));
    assert(!bit_set(none.0).contains(i));
}

/// Of these flags, one set contains another where each flag of the other is in it; two
/// intersect where they share a flag; a set is empty where it has none; the bits of a set and
/// the set of given bits are each other's.
pub proof fn law_quality_focus_flags_compare_as_sets(
    a: SuperResolutionQualityFocusFlags,
    b: SuperResolutionQualityFocusFlags,
    contains: bool,
    intersects: bool,
    is_empty: bool,
    raw: u32,
    back: SuperResolutionQualityFocusFlags,
)
    requires
        call_ensures(SuperResolutionQualityFocusFlags::contains, (a, b), contains),
        call_ensures(SuperResolutionQualityFocusFlags::intersects, (a, b), intersects),
        call_ensures(SuperResolutionQualityFocusFlags::is_empty, (a,), is_empty),
        call_ensures(SuperResolutionQualityFocusFlags::as_raw, (a,), raw),
        call_ensures(SuperResolutionQualityFocusFlags::from_raw, (raw,), back),
    ensures
        contains <==> forall|i: int| bit_set(b.0).contains(i) ==> #[trigger] bit_set(a.0).contains(
            i,
        ),
        intersects <==> exists|i: int|
            bit_set(a.0).contains(i) && #[trigger] bit_set(b.0).contains(i),
        is_empty <==> bit_set(a.0) == Set::<int>::empty(),
        raw == a.0,
        back == a,
{
    law_contains_is_subset(a.0, b.0);
    law_intersects_is_shared_flag(a.0, b.0);
    law_flags_are_their_set(a.0, 0);
    law_operators_are_set_operations(a.0, b.0);
}

/// Of these flags, `|` joins two sets, `&` keeps what is in both, `^` what is in one alone,
/// and `!` what is not in the set. The default has none.
pub proof fn law_quality_focus_flags_combine_as_sets(
    a: SuperResolutionQualityFocusFlags,
    b: SuperResolutionQualityFocusFlags,
    or: SuperResolutionQualityFocusFlags,
    and: SuperResolutionQualityFocusFlags,
    xor: SuperResolutionQualityFocusFlags,
    not: SuperResolutionQualityFocusFlags,
    none: SuperResolutionQualityFocusFlags,
    i: int,
)
    requires
        call_ensures(SuperResolutionQualityFocusFlags::bitor, (a, b), or),
        call_ensures(SuperResolutionQualityFocusFlags::bitand, (a, b), and),
        call_ensures(SuperResolutionQualityFocusFlags::bitxor, (a, b), xor),
        call_ensures(SuperResolutionQualityFocusFlags::not, (a,), not),
        call_ensures(SuperResolutionQualityFocusFlags::default, (), none),
        0 <= i < 32,
    ensures
        has_bit(or.0, i) <==> has_bit(a.0, i) || has_bit(b.0, i),
        has_bit(and.0, i) <==> has_bit(a.0, i) && has_bit(b.0, i),
        has_bit(xor.0, i) <==> has_bit(a.0, i) != has_bit(b.0, i),
        has_bit(not.0, i) <==> !has_bit(a.0, i),
        !has_bit(none.0, i),
{
    law_operators_are_set_operations(a.0, b.0);
    assert(bit_set(or.0).contains(i) == (bit_set(a.0).contains(i) || bit_set(b.0).contains(i)));
    assert(bit_set(and.0).contains(i) == (bit_set(a.0).contains(i) && bit_set(b.0).contains(i)));
    assert(bit_set(xor.0).contains(i) == (bit_set(a.0).contains(i) != bit_set(b.0).contains(i)));
    assert(bit_set(not.0).contains(i) == !bit_set(a.0).contains(i));
    assert(!bit_set(none.0).contains(i));
}

/// Of these flags, one set contains another where each flag of the other is in it; two
/// intersect where they share a flag; a set is empty where it has none; the bits of a set and
/// the set of given bits are each other's.
pub proof fn law_session_create_flags_compare_as_sets(
    a: SuperResolutionSessionCreateFlags,
    b: SuperResolutionSessionCreateFlags,
    contains: bool,
    intersects: bool,
    is_empty: bool,
    raw: u32,
    back: SuperResolutionSessionCreateFlags,
)
    requires
        call_ensures(SuperResolutionSessionCreateFlags::contains, (a, b), contains),
        call_ensures(SuperResolutionSessionCreateFlags::intersects, (a, b), intersects),
        call_ensures(SuperResolutionSessionCreateFlags::is_empty, (a,), is_empty),
        call_ensures(SuperResolutionSessionCreateFlags::as_raw, (a,), raw),
        call_ensures(SuperResolutionSessionCreateFlags::from_raw, (raw,), back),
    ensures
        contains <==> forall|i: int| bit_set(b.0).contains(i) ==> #[trigger] bit_set(a.0).contains(
            i,
        ),
        intersects <==> exists|i: int|
            bit_set(a.0).contains(i) && #[trigger] bit_set(b.0).contains(i),
        is_empty <==> bit_set(a.0) == Set::<int>::empty(),
        raw == a.0,
        back == a,
{
    law_contains_is_subset(a.0, b.0);
    law_intersects_is_shared_flag(a.0, b.0);
    law_flags_are_their_set(a.0, 0);
    law_operators_are_set_operations(a.0, b.0);
}

/// Of these flags, `|` joins two sets, `&` keeps what is in both, `^` what is in one alone,
/// and `!` what is not in the set. The default has none.
pub proof fn law_session_create_flags_combine_as_sets(
    a: SuperResolutionSessionCreateFlags,
    b: SuperResolutionSessionCreateFlags,
    or: SuperResolutionSessionCreateFlags,
    and: SuperResolutionSessionCreateFlags,
    xor: SuperResolutionSessionCreateFlags,
    not: SuperResolutionSessionCreateFlags,
    none: SuperResolutionSessionCreateFlags,
    i: int,
)
    requires
        call_ensures(SuperResolutionSessionCreateFlags::bitor, (a, b), or),
        call_ensures(SuperResolutionSessionCreateFlags::bitand, (a, b), and),
        call_ensures(SuperResolutionSessionCreateFlags::bitxor, (a, b), xor),
        call_ensures(SuperResolutionSessionCreateFlags::not, (a,), not),
        call_ensures(SuperResolutionSessionCreateFlags::default, (), none),
        0 <= i < 32,
    ensures
        has_bit(or.0, i) <==> has_bit(a.0, i) || has_bit(b.0, i),
        has_bit(and.0, i) <==> has_bit(a.0, i) && has_bit(b.0, i),
        has_bit(xor.0, i) <==> has_bit(a.0, i) != has_bit(b.0, i),
        has_bit(not.0, i) <==> !has_bit(a.0, i),
        !has_bit(none.0, i),
{
    law_operators_are_set_operations(a.0, b.0);
    assert(bit_set(or.0).contains(i) == (bit_set(a.0).contains(i) || bit_set(b.0).contains(i)));
    assert(bit_set(and.0).contains(i) == (bit_set(a.0).contains(i) && bit_set(b.0).contains(i)));
    assert(bit_set(xor.0).contains(i) == (bit_set(a.0).contains(i) != bit_set(b.0).contains(i)));
    assert(bit_set(not.0).contains(i) == !bit_set(a.0).contains(i));
    assert(!bit_set(none.0).contains(i));
}

/// Of these flags, one set contains another where each flag of the other is in it; two
/// intersect where they share a flag; a set is empty where it has none; the bits of a set and
/// the set of given bits are each other's.
pub proof fn law_memory_requirements_flags_compare_as_sets(
    a: SuperResolutionSessionMemoryRequirementsFlags,
    b: SuperResolutionSessionMemoryRequirementsFlags,
    contains: bool,
    intersects: bool,
    is_empty: bool,
    raw: u32,
    back: SuperResolutionSessionMemoryRequirementsFlags,
)
    requires
        call_ensures(SuperResolutionSessionMemoryRequirementsFlags::contains, (a, b), contains),
        call_ensures(SuperResolutionSessionMemoryRequirementsFlags::intersects, (a, b), intersects),
        call_ensures(SuperResolutionSessionMemoryRequirementsFlags::is_empty, (a,), is_empty),
        call_ensures(SuperResolutionSessionMemoryRequirementsFlags::as_raw, (a,), raw),
        call_ensures(SuperResolutionSessionMemoryRequirementsFlags::from_raw, (raw,), back),
    ensures
        contains <==> forall|i: int| bit_set(b.0).contains(i) ==> #[trigger] bit_set(a.0).contains(
            i,
        ),
        intersects <==> exists|i: int|
            bit_set(a.0).contains(i) && #[trigger] bit_set(b.0).contains(i),
        is_empty <==> bit_set(a.0) == Set::<int>::empty(),
        raw == a.0,
        back == a,
{
    law_contains_is_subset(a.0, b.0);
    law_intersects_is_shared_flag(a.0, b.0);
    law_flags_are_their_set(a.0, 0);
    law_operators_are_set_operations(a.0, b.0);
}

/// Of these flags, `|` joins two sets, `&` keeps what is in both, `^` what is in one alone,
/// and `!` what is not in the set. The default has none.
pub proof fn law_memory_requirements_flags_combine_as_sets(
    a: SuperResolutionSessionMemoryRequirementsFlags,
    b: SuperResolutionSessionMemoryRequirementsFlags,
    or: SuperResolutionSessionMemoryRequirementsFlags,
    and: SuperResolutionSessionMemoryRequirementsFlags,
    xor: SuperResolutionSessionMemoryRequirementsFlags,
    not: SuperResolutionSessionMemoryRequirementsFlags,
    none: SuperResolutionSessionMemoryRequirementsFlags,
    i: int,
)
    requires
        call_ensures(SuperResolutionSessionMemoryRequirementsFlags::bitor, (a, b), or),
        call_ensures(SuperResolutionSessionMemoryRequirementsFlags::bitand, (a, b), and),
        call_ensures(SuperResolutionSessionMemoryRequirementsFlags::bitxor, (a, b), xor),
        call_ensures(SuperResolutionSessionMemoryRequirementsFlags::not, (a,), not),
        call_ensures(SuperResolutionSessionMemoryRequirementsFlags::default, (), none),
        0 <= i < 32,
    ensures
        has_bit(or.0, i) <==> has_bit(a.0, i) || has_bit(b.0, i),
        has_bit(and.0, i) <==> has_bit(a.0, i) && has_bit(b.0, i),
        has_bit(xor.0, i) <==> has_bit(a.0, i) != has_bit(b.0, i),
        has_bit(not.0, i) <==> !has_bit(a.0, i),
        !has_bit(none.0, i),
{
    law_operators_are_set_operations(a.0, b.0);
    assert(bit_set(or.0).contains(i) == (bit_set(a.0).contains(i) || bit_set(b.0).contains(i)));
    assert(bit_set(and.0).contains(i) == (bit_set(a.0).contains(i) && bit_set(b.0).contains(i)));
    assert(bit_set(xor.0).contains(i) == (bit_set(a.0).contains(i) != bit_set(b.0).contains(i)));
    assert(bit_set(not.0).contains(i) == !bit_set(a.0).contains(i));
    assert(!bit_set(none.0).contains(i));
}

/// Of these flags, one set contains another where each flag of the other is in it; two
/// intersect where they share a flag; a set is empty where it has none; the bits of a set and
/// the set of given bits are each other's.
pub proof fn law_dispatch_flags_compare_as_sets(
    a: SuperResolutionDispatchFlags,
    b: SuperResolutionDispatchFlags,
    contains: bool,
    intersects: bool,
    is_empty: bool,
    raw: u32,
    back: SuperResolutionDispatchFlags,
)
    requires
        call_ensures(SuperResolutionDispatchFlags::contains, (a, b), contains),
        call_ensures(SuperResolutionDispatchFlags::intersects, (a, b), intersects),
        call_ensures(SuperResolutionDispatchFlags::is_empty, (a,), is_empty),
        call_ensures(SuperResolutionDispatchFlags::as_raw, (a,), raw),
        call_ensures(SuperResolutionDispatchFlags::from_raw, (raw,), back),
    ensures
        contains <==> forall|i: int| bit_set(b.0).contains(i) ==> #[trigger] bit_set(a.0).contains(
            i,
        ),
        intersects <==> exists|i: int|
            bit_set(a.0).contains(i) && #[trigger] bit_set(b.0).contains(i),
        is_empty <==> bit_set(a.0) == Set::<int>::empty(),
        raw == a.0,
        back == a,
{
    law_contains_is_subset(a.0, b.0);
    law_intersects_is_shared_flag(a.0, b.0);
    law_flags_are_their_set(a.0, 0);
    law_operators_are_set_operations(a.0, b.0);
}

/// Of these flags, `|` joins two sets, `&` keeps what is in both, `^` what is in one alone,
/// and `!` what is not in the set. The default has none.
pub proof fn law_dispatch_flags_combine_as_sets(
    a: SuperResolutionDispatchFlags,
    b: SuperResolutionDispatchFlags,
    or: SuperResolutionDispatchFlags,
    and: SuperResolutionDispatchFlags,
    xor: SuperResolutionDispatchFlags,
    not: SuperResolutionDispatchFlags,
    none: SuperResolutionDispatchFlags,
    i: int,
)
    requires
        call_ensures(SuperResolutionDispatchFlags::bitor, (a, b), or),
        call_ensures(SuperResolutionDispatchFlags::bitand, (a, b), and),
        call_ensures(SuperResolutionDispatchFlags::bitxor, (a, b), xor),
        call_ensures(SuperResolutionDispatchFlags::not, (a,), not),
        call_ensures(SuperResolutionDispatchFlags::default, (), none),
        0 <= i < 32,
    ensures
        has_bit(or.0, i) <==> has_bit(a.0, i) || has_bit(b.0, i),
        has_bit(and.0, i) <==> has_bit(a.0, i) && has_bit(b.0, i),
        has_bit(xor.0, i) <==> has_bit(a.0, i) != has_bit(b.0, i),
        has_bit(not.0, i) <==> !has_bit(a.0, i),
        !has_bit(none.0, i),
{
    law_operators_are_set_operations(a.0, b.0);
    assert(bit_set(or.0).contains(i) == (bit_set(a.0).contains(i) || bit_set(b.0).contains(i)));
    assert(bit_set(and.0).contains(i) == (bit_set(a.0).contains(i) && bit_set(b.0).contains(i)));
    assert(bit_set(xor.0).contains(i) == (bit_set(a.0).contains(i) != bit_set(b.0).contains(i)));
    assert(bit_set(not.0).contains(i) == !bit_set(a.0).contains(i));
    assert(!bit_set(none.0).contains(i));
}

} // verus!
