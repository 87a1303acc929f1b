//! Sessions are identified, and ordered, by their user id alone.

use vstd::prelude::*;
use vstd::laws_cmp::obeys_partial_cmp_spec_properties;
use vstd::laws_eq::{obeys_eq, obeys_eq_spec_properties};
use vstd::std_specs::cmp::{PartialEqSpec, PartialOrdSpec};
use core::cmp::Ordering;

use crate::account::Account;

verus! {

impl PartialEq for Account {
    fn eq(&self, other: &Self) -> (r: bool) {
        self.id == other.id
    }
}

impl vstd::std_specs::cmp::PartialEqSpecImpl for Account {
    open spec fn obeys_eq_spec() -> bool {
        true
    }

    open spec fn eq_spec(&self, other: &Self) -> bool {
        self.id == other.id
    }
}

impl Eq for Account {}

/// The order of two user ids.
pub open spec fn id_order(a: u64, b: u64) -> Ordering {
    if a < b {
        Ordering::Less
    } else if a == b {
        Ordering::Equal
    } else {
        Ordering::Greater
    }
}

impl PartialOrd for Account {
    fn partial_cmp(&self, other: &Self) -> (r: Option<Ordering>) {
        if self.id < other.id {
            Some(Ordering::Less)
        } else if self.id == other.id {
            Some(Ordering::Equal)
        } else {
            Some(Ordering::Greater)
        }
    }
}

impl vstd::std_specs::cmp::PartialOrdSpecImpl for Account {
    open spec fn obeys_partial_cmp_spec() -> bool {
        true
    }

    open spec fn partial_cmp_spec(&self, other: &Self) -> Option<Ordering> {
        Some(id_order(self.id, other.id))
    }
}

/// Equality of sessions is an equivalence: two sessions are equal exactly
/// when they belong to the same user.
pub proof fn law_account_eq()
    ensures
        obeys_eq::<Account>(),
        forall|a: Account, b: Account| #[trigger] a.eq_spec(&b) <==> a.id == b.id,
{
    reveal(obeys_eq_spec_properties);
}

/// Sessions are totally ordered by user id: any two are comparable, they
/// compare equal exactly when they are equal, and the order is antisymmetric
/// and transitive.
pub proof fn law_account_order()
    ensures
        obeys_partial_cmp_spec_properties::<Account>(),
        forall|a: Account, b: Account| #[trigger] a.partial_cmp_spec(&b) is Some,
        forall|a: Account, b: Account|
            #[trigger] a.partial_cmp_spec(&b) == Some(Ordering::Less) <==> a.id < b.id,
{
    reveal(obeys_eq_spec_properties);
    reveal(obeys_partial_cmp_spec_properties);
}

} // verus!
