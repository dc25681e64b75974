//! What holds of the equality and the order of compressed pointers.

use vstd::prelude::*;
use vstd::std_specs::cmp::{PartialEqSpec, PartialOrdSpec};
use core::cmp::Ordering;
use crate::pointee::{Pointee, Ranked};
use crate::ptr::{ConstPtr, MutPtr, NonNull};

verus! {

impl<T: ?Sized + Pointee, const BASE_ADDR: usize> ConstPtr<T, BASE_ADDR> where T::Metadata: Ranked {
    /// Two pointers are equal exactly when they stand for one native pointer:
    /// one address and one metadata.
    pub proof fn lemma_equal_is_same_native(self, other: Self)
        ensures
            self.eq_spec(&other) <==> {
                &&& self.wide_addr() == other.wide_addr()
                &&& self.wide_metadata() == other.wide_metadata()
            },
    {
        if self.wide_metadata().rank() == other.wide_metadata().rank() {
            self.wide_metadata().lemma_rank_injective(other.wide_metadata());
        }
    }

    /// The order of pointers is total: any two pointers are ordered, equal in
    /// the order exactly when they are equal, one before the other exactly
    /// when the other is after it; and the order is transitive.
    pub proof fn lemma_order_is_total(self, other: Self, third: Self)
        ensures
            self.partial_cmp_spec(&other) is Some,
            self.partial_cmp_spec(&other) == Some(Ordering::Equal) <==> self.eq_spec(&other),
            self.partial_cmp_spec(&other) == Some(Ordering::Less) <==> other.partial_cmp_spec(&self)
                == Some(Ordering::Greater),
            self.partial_cmp_spec(&other) == Some(Ordering::Less) && other.partial_cmp_spec(&third)
                == Some(Ordering::Less) ==> self.partial_cmp_spec(&third) == Some(Ordering::Less),
    {
    }
}

impl<T: ?Sized + Pointee, const BASE_ADDR: usize> MutPtr<T, BASE_ADDR> where T::Metadata: Ranked {
    /// Two pointers are equal exactly when they stand for one native pointer:
    /// one address and one metadata.
    pub proof fn lemma_equal_is_same_native(self, other: Self)
        ensures
            self.eq_spec(&other) <==> {
                &&& self.wide_addr() == other.wide_addr()
                &&& self.wide_metadata() == other.wide_metadata()
            },
    {
        if self.wide_metadata().rank() == other.wide_metadata().rank() {
            self.wide_metadata().lemma_rank_injective(other.wide_metadata());
        }
    }

    /// The order of pointers is total: any two pointers are ordered, equal in
    /// the order exactly when they are equal, one before the other exactly
    /// when the other is after it; and the order is transitive.
    pub proof fn lemma_order_is_total(self, other: Self, third: Self)
        ensures
            self.partial_cmp_spec(&other) is Some,
            self.partial_cmp_spec(&other) == Some(Ordering::Equal) <==> self.eq_spec(&other),
            self.partial_cmp_spec(&other) == Some(Ordering::Less) <==> other.partial_cmp_spec(&self)
                == Some(Ordering::Greater),
            self.partial_cmp_spec(&other) == Some(Ordering::Less) && other.partial_cmp_spec(&third)
                == Some(Ordering::Less) ==> self.partial_cmp_spec(&third) == Some(Ordering::Less),
    {
    }
}

impl<T: ?Sized + Pointee, const BASE_ADDR: usize> NonNull<T, BASE_ADDR> where T::Metadata: Ranked {
    /// Two pointers are equal exactly when they stand for one native pointer:
    /// one address and one metadata.
    pub proof fn lemma_equal_is_same_native(self, other: Self)
        ensures
            self.eq_spec(&other) <==> {
                &&& self.wide_addr() == other.wide_addr()
                &&& self.wide_metadata() == other.wide_metadata()
            },
    {
        if self.wide_metadata().rank() == other.wide_metadata().rank() {
            self.wide_metadata().lemma_rank_injective(other.wide_metadata());
        }
    }

    /// The order of pointers is total: any two pointers are ordered, equal in
    /// the order exactly when they are equal, one before the other exactly
    /// when the other is after it; and the order is transitive.
    pub proof fn lemma_order_is_total(self, other: Self, third: Self)
        ensures
            self.partial_cmp_spec(&other) is Some,
            self.partial_cmp_spec(&other) == Some(Ordering::Equal) <==> self.eq_spec(&other),
            self.partial_cmp_spec(&other) == Some(Ordering::Less) <==> other.partial_cmp_spec(&self)
                == Some(Ordering::Greater),
            self.partial_cmp_spec(&other) == Some(Ordering::Less) && other.partial_cmp_spec(&third)
                == Some(Ordering::Less) ==> self.partial_cmp_spec(&third) == Some(Ordering::Less),
    {
    }
}

} // verus!
