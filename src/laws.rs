//! Laws that hold of the two marker types.
use vstd::prelude::*;

use vstd::std_specs::cmp::{PartialOrdIs, PartialOrdSpec};

use crate::{PhantomRefUnwindUnsafe, PhantomUnwindUnsafe};

verus! {

/// Any two `PhantomUnwindUnsafe` values are equal: the type has one value,
/// and it is `PhantomUnwindUnsafe::DEFAULT`.
pub proof fn lemma_unwind_unsafe_single_valued(a1: PhantomUnwindUnsafe, a2: PhantomUnwindUnsafe)
    ensures
        a1 == a2,
        a1 == PhantomUnwindUnsafe::DEFAULT,
{
}

/// Any two `PhantomRefUnwindUnsafe` values are equal: the type has one value,
/// and it is `PhantomRefUnwindUnsafe::DEFAULT`.
pub proof fn lemma_ref_unwind_unsafe_single_valued(
    a1: PhantomRefUnwindUnsafe,
    a2: PhantomRefUnwindUnsafe,
)
    ensures
        a1 == a2,
        a1 == PhantomRefUnwindUnsafe::DEFAULT,
{
}

/// Ordering agrees with equality on `PhantomUnwindUnsafe`: equal values
/// compare as `Equal`, and neither is less than the other.
pub proof fn lemma_unwind_unsafe_order_agrees_with_eq(
    a1: PhantomUnwindUnsafe,
    a2: PhantomUnwindUnsafe,
)
    requires
        a1 == a2,
    ensures
        a1.partial_cmp_spec(&a2) == Some(core::cmp::Ordering::Equal),
        !a1.is_lt(&a2),
        !a2.is_lt(&a1),
{
}

/// Ordering agrees with equality on `PhantomRefUnwindUnsafe`: equal values
/// compare as `Equal`, and neither is less than the other.
pub proof fn lemma_ref_unwind_unsafe_order_agrees_with_eq(
    a1: PhantomRefUnwindUnsafe,
    a2: PhantomRefUnwindUnsafe,
)
    requires
        a1 == a2,
    ensures
        a1.partial_cmp_spec(&a2) == Some(core::cmp::Ordering::Equal),
        !a1.is_lt(&a2),
        !a2.is_lt(&a1),
{
}

/// Copying a `PhantomUnwindUnsafe` gives a value equal to the original.
pub proof fn lemma_unwind_unsafe_copy_equal(a: PhantomUnwindUnsafe)
    ensures
        ({
            let b = a;
            b == a
        }),
{
}

/// Copying a `PhantomRefUnwindUnsafe` gives a value equal to the original.
pub proof fn lemma_ref_unwind_unsafe_copy_equal(a: PhantomRefUnwindUnsafe)
    ensures
        ({
            let b = a;
            b == a
        }),
{
}

} // verus!
