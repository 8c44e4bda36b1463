//! Zero-sized marker types that do not implement `UnwindSafe` or
//! `RefUnwindSafe`. Adding one as a field keeps the respective auto trait
//! from being derived for the containing type, while the other auto traits
//! (`Send`, `Sync`, and the other unwind-safety trait) are left untouched.
//!
//! Each marker has exactly one value, available as the associated constant
//! `DEFAULT` or through `Default`. Equality, ordering and hashing are all
//! trivial: every instance is equal to every other.
use vstd::prelude::*;

pub mod laws;

verus! {

/// A trait that no type implements. An auto-trait impl that requires it can
/// never apply, yet its presence stops the compiler from deriving that auto
/// trait structurally.
trait NoImplementers {}

/// A marker type which does not implement `UnwindSafe`.
///
/// If a type contains a `PhantomUnwindUnsafe`, it will not implement
/// `UnwindSafe` by default. It still implements `RefUnwindSafe`, `Send` and
/// `Sync`.
#[derive(Copy, Clone, PartialEq, Eq, Structural, Ord, Hash, Debug)]
pub struct PhantomUnwindUnsafe;

/// A marker type which does not implement `RefUnwindSafe`.
///
/// If a type contains a `PhantomRefUnwindUnsafe`, it will not implement
/// `RefUnwindSafe` by default. It still implements `UnwindSafe`, `Send` and
/// `Sync`.
#[derive(Copy, Clone, PartialEq, Eq, Structural, Ord, Hash, Debug)]
pub struct PhantomRefUnwindUnsafe;

// The bound names the impl's own lifetime, so it is not a global bound and is
// accepted; since no `&()` implements `NoImplementers`, the impl never applies.
impl<'a> core::panic::UnwindSafe for PhantomUnwindUnsafe where &'a (): NoImplementers {}

impl<'a> core::panic::RefUnwindSafe for PhantomRefUnwindUnsafe where &'a (): NoImplementers {}

impl PhantomUnwindUnsafe {
    /// The one value of this type, usable in constant expressions.
    pub const DEFAULT: Self = Self;
}

impl PhantomRefUnwindUnsafe {
    /// The one value of this type, usable in constant expressions.
    pub const DEFAULT: Self = Self;
}

impl Default for PhantomUnwindUnsafe {
    fn default() -> (r: Self)
        ensures
            r == Self::DEFAULT,
    {
        Self::DEFAULT
    }
}

impl Default for PhantomRefUnwindUnsafe {
    fn default() -> (r: Self)
        ensures
            r == Self::DEFAULT,
    {
        Self::DEFAULT
    }
}

impl PartialOrd for PhantomUnwindUnsafe {
    fn partial_cmp(&self, other: &Self) -> (r: Option<core::cmp::Ordering>)
        ensures
            r == Some(core::cmp::Ordering::Equal),
    {
        Some(core::cmp::Ordering::Equal)
    }
}

impl vstd::std_specs::cmp::PartialOrdSpecImpl for PhantomUnwindUnsafe {
    open spec fn obeys_partial_cmp_spec() -> bool {
        true
    }

    open spec fn partial_cmp_spec(&self, other: &Self) -> Option<core::cmp::Ordering> {
        Some(core::cmp::Ordering::Equal)
    }
}

impl PartialOrd for PhantomRefUnwindUnsafe {
    fn partial_cmp(&self, other: &Self) -> (r: Option<core::cmp::Ordering>)
        ensures
            r == Some(core::cmp::Ordering::Equal),
    {
        Some(core::cmp::Ordering::Equal)
    }
}

impl vstd::std_specs::cmp::PartialOrdSpecImpl for PhantomRefUnwindUnsafe {
    open spec fn obeys_partial_cmp_spec() -> bool {
        true
    }

    open spec fn partial_cmp_spec(&self, other: &Self) -> Option<core::cmp::Ordering> {
        Some(core::cmp::Ordering::Equal)
    }
}

} // verus!
