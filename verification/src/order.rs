//! Equality and order of identifiers.
//!
//! Both go by the integer value, which is the order of the bytes read from
//! the first to the last. The timestamp fills the high-order bits, so an
//! identifier with an earlier timestamp comes first.

use crate::error::ErrorView;
use crate::flake::Timeflake;
use crate::laws::law_components_read_back;
use crate::layout::{lemma_components_of, lemma_pack_monotonic};
use core::cmp::Ordering;
use vstd::prelude::*;
use vstd::std_specs::cmp::{PartialEqSpec, PartialOrdSpec};

verus! {

impl PartialEq for Timeflake {
    /// Whether the two identifiers have the same value.
    fn eq(&self, other: &Timeflake) -> (r: bool) {
        self.to_u128() == other.to_u128()
    }
}

impl vstd::std_specs::cmp::PartialEqSpecImpl for Timeflake {
    open spec fn obeys_eq_spec() -> bool {
        true
    }

    open spec fn eq_spec(&self, other: &Timeflake) -> bool {
        self.value() == other.value()
    }
}

impl PartialOrd for Timeflake {
    /// How the two values compare; any two identifiers are comparable.
    fn partial_cmp(&self, other: &Timeflake) -> (r: Option<Ordering>) {
        let a = self.to_u128();
        let b = other.to_u128();
        if a < b {
            Some(Ordering::Less)
        } else if a == b {
            Some(Ordering::Equal)
        } else {
            Some(Ordering::Greater)
        }
    }
}

impl vstd::std_specs::cmp::PartialOrdSpecImpl for Timeflake {
    open spec fn obeys_partial_cmp_spec() -> bool {
        true
    }

    open spec fn partial_cmp_spec(&self, other: &Timeflake) -> Option<Ordering> {
        if self.value() < other.value() {
            Some(Ordering::Less)
        } else if self.value() == other.value() {
            Some(Ordering::Equal)
        } else {
            Some(Ordering::Greater)
        }
    }
}

/// An identifier with an earlier timestamp is smaller, whatever the random
/// components are.
pub proof fn law_order_follows_timestamp(a: Timeflake, b: Timeflake)
    requires
        a.spec_timestamp() < b.spec_timestamp(),
    ensures
        a.value() < b.value(),
        a.partial_cmp_spec(&b) == Some(Ordering::Less),
        !a.eq_spec(&b),
{
    a.lemma_view();
    b.lemma_view();
    lemma_components_of(a.value());
    lemma_components_of(b.value());
    lemma_pack_monotonic(
        a.spec_timestamp(),
        a.spec_random(),
        b.spec_timestamp(),
        b.spec_random(),
    );
}

/// Identifiers that share a timestamp are ordered by their random components.
pub proof fn law_order_within_timestamp(a: Timeflake, b: Timeflake)
    requires
        a.spec_timestamp() == b.spec_timestamp(),
    ensures
        a.value() < b.value() <==> a.spec_random() < b.spec_random(),
        a.eq_spec(&b) <==> a.spec_random() == b.spec_random(),
{
    a.lemma_view();
    b.lemma_view();
    lemma_components_of(a.value());
    lemma_components_of(b.value());
}

/// Of two identifiers built from components, the one built with the earlier
/// timestamp is smaller.
pub proof fn law_order_of_built(
    a: Timeflake,
    timestamp1: u64,
    random1: nat,
    b: Timeflake,
    timestamp2: u64,
    random2: nat,
)
    requires
        Timeflake::spec_from_components(timestamp1, random1) == Ok::<Seq<u8>, ErrorView>(a@),
        Timeflake::spec_from_components(timestamp2, random2) == Ok::<Seq<u8>, ErrorView>(b@),
        timestamp1 < timestamp2,
    ensures
        a.value() < b.value(),
        a.partial_cmp_spec(&b) == Some(Ordering::Less),
{
    law_components_read_back(a, timestamp1, random1);
    law_components_read_back(b, timestamp2, random2);
    law_order_follows_timestamp(a, b);
}

/// Equality goes by all 128 bits: two identifiers are equal exactly where
/// their bytes are.
pub proof fn law_equality_is_bytewise(a: Timeflake, b: Timeflake)
    ensures
        a.eq_spec(&b) <==> a@ == b@,
{
    a.lemma_view();
    b.lemma_view();
    if a.value() == b.value() {
        crate::bytes::lemma_be_value_injective(a@, b@);
    }
}

} // verus!
