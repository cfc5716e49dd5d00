//! Pricing and exclusion definitions: the configuration the classifier and
//! the finalizer work from. Loaded once, read-only for the whole run.

use vstd::prelude::*;
use crate::pattern::str_eq;

verus! {

/// One pricing plan. `regex_pattern` classifies purchase details; `code` is
/// the plan's unique key in every per-plan counter map. The price is kept in
/// minor currency units (cents for USD) so that it stays an exact integer.
#[derive(Debug, Clone, PartialEq, Eq)]
pub struct PricingUnit {
    pub code: String,
    pub name: String,
    pub regex_pattern: String,
    pub price_minor_units: u64,
    pub currency: String,
}

impl PricingUnit {
    /// An owned copy equal to `self`.
    pub fn duplicate(&self) -> (r: PricingUnit)
        ensures
            r == *self,
    {
        PricingUnit {
            code: self.code.clone(),
            name: self.name.clone(),
            regex_pattern: self.regex_pattern.clone(),
            price_minor_units: self.price_minor_units,
            currency: self.currency.clone(),
        }
    }
}

/// An owned copy of a plan list, element for element.
pub fn duplicate_plans(plans: &Vec<PricingUnit>) -> (r: Vec<PricingUnit>)
    ensures
        r@ == plans@,
{
    let mut out: Vec<PricingUnit> = Vec::new();
    let n = plans.len();
    for i in 0..n
        invariant
            n == plans@.len(),
            out@.len() == i,
            forall|k: int| 0 <= k < i ==> out@[k] == plans@[k],
    {
        out.push(plans[i].duplicate());
    }
    proof {
        assert(out@ =~= plans@);
    }
    out
}

/// No two plans of the list share a code.
pub open spec fn distinct_codes(plans: Seq<PricingUnit>) -> bool {
    forall|i: int, j: int|
        0 <= i < j < plans.len() ==> plans[i].code@ != plans[j].code@
}

/// The two named collections of pricing plans.
#[derive(Debug, Clone, PartialEq, Eq)]
pub struct PricingDefs {
    pub subscriptions: Vec<PricingUnit>,
    pub one_times: Vec<PricingUnit>,
}

impl PricingDefs {
    /// Plan codes are unique keys within each collection.
    pub open spec fn codes_distinct(self) -> bool {
        distinct_codes(self.subscriptions@) && distinct_codes(self.one_times@)
    }

    /// Checks that the plan codes are unique within each collection.
    pub fn check_codes_distinct(&self) -> (r: bool)
        ensures
            r == self.codes_distinct(),
    {
        codes_distinct_exec(&self.subscriptions) && codes_distinct_exec(&self.one_times)
    }
}

fn codes_distinct_exec(plans: &Vec<PricingUnit>) -> (r: bool)
    ensures
        r == distinct_codes(plans@),
{
    let n = plans.len();
    for i in 0..n
        invariant
            n == plans@.len(),
            forall|k: int, l: int| 0 <= k < l < plans@.len() && k < i ==> plans@[k].code@
                != plans@[l].code@,
    {
        for j in (i + 1)..n
            invariant
                n == plans@.len(),
                i < n,
                forall|k: int, l: int| 0 <= k < l < plans@.len() && k < i ==> plans@[k].code@
                    != plans@[l].code@,
            forall|l: int| i < l < j ==> plans@[i as int].code@ != plans@[l].code@,
        {
            if str_eq(plans[i].code.as_str(), plans[j].code.as_str()) {
                return false;
            }
        }
    }
    true
}

/// The exclusion rule: the name of the record field to inspect, and the
/// pattern that drops a record when it matches that field's value.
#[derive(Debug, Clone, PartialEq, Eq)]
pub struct ExcludingDef {
    pub excluding_field: String,
    pub excluding_pattern: String,
}

/// One selectable entry of a two-tier configuration choice: a displayed
/// `text`, a stable `value`, and, for predefined entries, the configuration
/// data the entry stands for (`None` marks an entry whose data comes from a
/// user-chosen file).
#[derive(Debug, Clone, PartialEq, Eq)]
pub struct UiOption {
    pub value: String,
    pub text: String,
    pub connected_data: Option<String>,
}

impl UiOption {
    /// Whether this option is the one identified by `value`.
    pub fn has_value(&self, value: &str) -> (r: bool)
        ensures
            r == (self.value@ == value@),
    {
        str_eq(self.value.as_str(), value)
    }
}

} // verus!
