//! Per-tenant aggregate state: one record per shop domain, created lazily on
//! the tenant's first event, updated in place for every later one.

use vstd::prelude::*;
use vstd::string::StringExecFns;
use crate::dates::DateTime;
use crate::defs::PricingUnit;
use crate::error::AnalyzeError;
use crate::event::AppEvent;
use crate::stats::{PlanCount, find_code, increase_plan_count, seed_plan_counts, seeded_codes};
use crate::pattern::str_eq;

verus! {

/// The final install-family classification of a tenant. `Unset` serializes
/// as "None": the tenant's installs and uninstalls balanced out.
#[derive(Clone, Copy, Debug, PartialEq, Eq, Structural)]
pub enum InstalledStatus {
    Installed,
    Uninstalled,
    UninstalledOld,
    Unset,
}

impl InstalledStatus {
    pub open spec fn spec_label(self) -> Seq<char> {
        match self {
            InstalledStatus::Installed => "Installed"@,
            InstalledStatus::Uninstalled => "Uninstalled"@,
            InstalledStatus::UninstalledOld => "UninstalledOld"@,
            InstalledStatus::Unset => "None"@,
        }
    }

    /// The status label as the result structures spell it.
    pub fn label(&self) -> (r: String)
        ensures
            r@ == self.spec_label(),
    {
        match self {
            InstalledStatus::Installed => String::from_str("Installed"),
            InstalledStatus::Uninstalled => String::from_str("Uninstalled"),
            InstalledStatus::UninstalledOld => String::from_str("UninstalledOld"),
            InstalledStatus::Unset => String::from_str("None"),
        }
    }
}

/// The final subscription classification of a tenant. `Unset` serializes as
/// "None": activations and cancellations balanced out.
#[derive(Clone, Copy, Debug, PartialEq, Eq, Structural)]
pub enum SubscriptionStatus {
    Active,
    Canceled,
    Unset,
}

impl SubscriptionStatus {
    pub open spec fn spec_label(self) -> Seq<char> {
        match self {
            SubscriptionStatus::Active => "Active"@,
            SubscriptionStatus::Canceled => "Canceled"@,
            SubscriptionStatus::Unset => "None"@,
        }
    }

    /// The status label as the result structures spell it.
    pub fn label(&self) -> (r: String)
        ensures
            r@ == self.spec_label(),
    {
        match self {
            SubscriptionStatus::Active => String::from_str("Active"),
            SubscriptionStatus::Canceled => String::from_str("Canceled"),
            SubscriptionStatus::Unset => String::from_str("None"),
        }
    }
}

/// One tenant's running state: counters and retained events filled by the
/// single pass, derived fields filled only by the finalizer.
#[derive(Debug, Clone, PartialEq)]
pub struct MerchantData {
    pub shop_domain: String,
    pub installed_count: u64,
    pub uninstalled_count: u64,
    pub store_closed_count: u64,
    pub store_reopened_count: u64,
    pub installing_events: Vec<AppEvent>,
    pub subscription_activated_count: u64,
    pub subscription_canceled_count: u64,
    pub subscription_events: Vec<AppEvent>,
    pub one_time_count: u64,
    pub one_time_details: Vec<PlanCount>,
    pub one_time_events: Vec<AppEvent>,
    pub installed_status: InstalledStatus,
    pub subscription_status: SubscriptionStatus,
    pub last_new_sub_plan: Option<PricingUnit>,
    pub last_new_sub_billing_cycle: Option<crate::stats::BillingCycle>,
    pub first_canceled_sub_plan: Option<PricingUnit>,
    pub first_canceled_sub_billing_cycle: Option<crate::stats::BillingCycle>,
}

impl MerchantData {
    /// A fresh tenant record for `shop_domain`: every counter zero, every
    /// retained list empty, the one-time map pre-seeded from the known
    /// one-time plans, no derived field set.
    pub fn new(shop_domain: &String, one_time_packs: &Vec<PricingUnit>) -> (r: Self)
        ensures
            r.shop_domain@ == shop_domain@,
            r.installed_count == 0,
            r.uninstalled_count == 0,
            r.store_closed_count == 0,
            r.store_reopened_count == 0,
            r.installing_events@ == Seq::<AppEvent>::empty(),
            r.subscription_activated_count == 0,
            r.subscription_canceled_count == 0,
            r.subscription_events@ == Seq::<AppEvent>::empty(),
            r.one_time_count == 0,
            seeded_codes(r.one_time_details@, one_time_packs@),
            forall|k: int| 0 <= k < r.one_time_details@.len() ==> r.one_time_details@[k].count == 0,
            r.one_time_events@ == Seq::<AppEvent>::empty(),
            r.installed_status == InstalledStatus::Unset,
            r.subscription_status == SubscriptionStatus::Unset,
            r.last_new_sub_plan is None,
            r.last_new_sub_billing_cycle is None,
            r.first_canceled_sub_plan is None,
            r.first_canceled_sub_billing_cycle is None,
    {
        MerchantData {
            shop_domain: shop_domain.clone(),
            installed_count: 0,
            uninstalled_count: 0,
            store_closed_count: 0,
            store_reopened_count: 0,
            installing_events: Vec::new(),
            subscription_activated_count: 0,
            subscription_canceled_count: 0,
            subscription_events: Vec::new(),
            one_time_count: 0,
            one_time_details: seed_plan_counts(one_time_packs),
            one_time_events: Vec::new(),
            installed_status: InstalledStatus::Unset,
            subscription_status: SubscriptionStatus::Unset,
            last_new_sub_plan: None,
            last_new_sub_billing_cycle: None,
            first_canceled_sub_plan: None,
            first_canceled_sub_billing_cycle: None,
        }
    }

    pub fn increase_one_time_count(&mut self, count: u64)
        requires
            old(self).one_time_count + count <= u64::MAX,
        ensures
            *final(self) == (MerchantData {
                one_time_count: (old(self).one_time_count + count) as u64,
                ..*old(self)
            }),
    {
        self.one_time_count = self.one_time_count + count;
    }

    /// Add to one one-time plan's counter, or report the code as unknown and
    /// leave the whole record untouched.
    pub fn increase_one_time_pack_count(&mut self, pack: &PricingUnit, count: i64) -> (r: Result<
        (),
        AnalyzeError,
    >)
        requires
            find_code(old(self).one_time_details@, pack.code@) matches Some(j) ==> i64::MIN <= old(
                self,
            ).one_time_details@[j].count + count <= i64::MAX,
        ensures
            match find_code(old(self).one_time_details@, pack.code@) {
                Some(j) => r is Ok && *final(self) == (MerchantData {
                    one_time_details: final(self).one_time_details,
                    ..*old(self)
                }) && final(self).one_time_details@ == old(self).one_time_details@.update(
                    j,
                    PlanCount {
                        code: old(self).one_time_details@[j].code,
                        count: (old(self).one_time_details@[j].count + count) as i64,
                    },
                ),
                None => (r matches Err(e) && e matches AnalyzeError::UnknownPlanCode(c) && c@
                    == pack.code@) && *final(self) == (MerchantData {
                    one_time_details: final(self).one_time_details,
                    ..*old(self)
                }) && final(self).one_time_details@ == old(self).one_time_details@,
            },
    {
        increase_plan_count(&mut self.one_time_details, pack.code.as_str(), count)
    }

    pub fn increase_installed_count(&mut self, count: u64)
        requires
            old(self).installed_count + count <= u64::MAX,
        ensures
            *final(self) == (MerchantData {
                installed_count: (old(self).installed_count + count) as u64,
                ..*old(self)
            }),
    {
        self.installed_count = self.installed_count + count;
    }

    pub fn increase_uninstalled_count(&mut self, count: u64)
        requires
            old(self).uninstalled_count + count <= u64::MAX,
        ensures
            *final(self) == (MerchantData {
                uninstalled_count: (old(self).uninstalled_count + count) as u64,
                ..*old(self)
            }),
    {
        self.uninstalled_count = self.uninstalled_count + count;
    }

    pub fn increase_store_closed_count(&mut self, count: u64)
        requires
            old(self).store_closed_count + count <= u64::MAX,
        ensures
            *final(self) == (MerchantData {
                store_closed_count: (old(self).store_closed_count + count) as u64,
                ..*old(self)
            }),
    {
        self.store_closed_count = self.store_closed_count + count;
    }

    pub fn increase_store_reopened_count(&mut self, count: u64)
        requires
            old(self).store_reopened_count + count <= u64::MAX,
        ensures
            *final(self) == (MerchantData {
                store_reopened_count: (old(self).store_reopened_count + count) as u64,
                ..*old(self)
            }),
    {
        self.store_reopened_count = self.store_reopened_count + count;
    }

    pub fn increase_subscription_canceled_count(&mut self, count: u64)
        requires
            old(self).subscription_canceled_count + count <= u64::MAX,
        ensures
            *final(self) == (MerchantData {
                subscription_canceled_count: (old(self).subscription_canceled_count + count) as u64,
                ..*old(self)
            }),
    {
        self.subscription_canceled_count = self.subscription_canceled_count + count;
    }

    pub fn increase_subscription_activated_count(&mut self, count: u64)
        requires
            old(self).subscription_activated_count + count <= u64::MAX,
        ensures
            *final(self) == (MerchantData {
                subscription_activated_count: (old(self).subscription_activated_count
                    + count) as u64,
                ..*old(self)
            }),
    {
        self.subscription_activated_count = self.subscription_activated_count + count;
    }

    /// Retain a copy of `event` on the subscription list, in arrival order.
    pub fn push_subscription_event(&mut self, event: &AppEvent)
        ensures
            *final(self) == (MerchantData {
                subscription_events: final(self).subscription_events,
                ..*old(self)
            }),
            final(self).subscription_events@ == old(self).subscription_events@.push(*event),
    {
        self.subscription_events.push(event.duplicate());
    }

    /// Retain a copy of `event` on the one-time list, in arrival order.
    pub fn push_one_time_event(&mut self, event: &AppEvent)
        ensures
            *final(self) == (MerchantData {
                one_time_events: final(self).one_time_events,
                ..*old(self)
            }),
            final(self).one_time_events@ == old(self).one_time_events@.push(*event),
    {
        self.one_time_events.push(event.duplicate());
    }

    /// Retain a copy of `event` on the install-family list, in arrival order.
    pub fn push_installing_event(&mut self, event: &AppEvent)
        ensures
            *final(self) == (MerchantData {
                installing_events: final(self).installing_events,
                ..*old(self)
            }),
            final(self).installing_events@ == old(self).installing_events@.push(*event),
    {
        self.installing_events.push(event.duplicate());
    }
}

/// Where `domain` stands in the tenant collection, scanning from `i`.
pub open spec fn find_domain_from(ms: Seq<MerchantData>, domain: Seq<char>, i: int) -> Option<int>
    decreases ms.len() - i,
{
    if i < 0 || i >= ms.len() {
        None
    } else if ms[i].shop_domain@ == domain {
        Some(i)
    } else {
        find_domain_from(ms, domain, i + 1)
    }
}

/// Where `domain` stands in the tenant collection.
pub open spec fn find_domain(ms: Seq<MerchantData>, domain: Seq<char>) -> Option<int> {
    find_domain_from(ms, domain, 0)
}

pub proof fn lemma_find_domain_hits(ms: Seq<MerchantData>, domain: Seq<char>, i: int, k: int)
    requires
        0 <= i <= k < ms.len(),
        ms[k].shop_domain@ == domain,
        forall|j: int| i <= j < k ==> ms[j].shop_domain@ != domain,
    ensures
        find_domain_from(ms, domain, i) == Some(k),
    decreases k - i,
{
    if i < k {
        lemma_find_domain_hits(ms, domain, i + 1, k);
    }
}

pub proof fn lemma_find_domain_misses(ms: Seq<MerchantData>, domain: Seq<char>, i: int)
    requires
        0 <= i,
        forall|j: int| i <= j < ms.len() ==> ms[j].shop_domain@ != domain,
    ensures
        find_domain_from(ms, domain, i) is None,
    decreases ms.len() - i,
{
    if i < ms.len() {
        lemma_find_domain_misses(ms, domain, i + 1);
    }
}

pub proof fn lemma_find_domain_some(ms: Seq<MerchantData>, domain: Seq<char>, i: int)
    requires
        0 <= i,
    ensures
        find_domain_from(ms, domain, i) matches Some(j) ==> i <= j < ms.len()
            && ms[j].shop_domain@ == domain,
    decreases ms.len() - i,
{
    if i < ms.len() {
        lemma_find_domain_some(ms, domain, i + 1);
    }
}

pub proof fn lemma_find_domain_none(ms: Seq<MerchantData>, domain: Seq<char>, i: int)
    requires
        0 <= i,
        find_domain_from(ms, domain, i) is None,
    ensures
        forall|j: int| i <= j < ms.len() ==> ms[j].shop_domain@ != domain,
    decreases ms.len() - i,
{
    if i < ms.len() {
        lemma_find_domain_none(ms, domain, i + 1);
    }
}

/// The tenant collection: one record per unique shop domain, in order of
/// first appearance, plus the run's start and end timestamps.
#[derive(Debug, Clone, PartialEq)]
pub struct MerchantDataList {
    pub start_time: Option<DateTime>,
    pub end_time: Option<DateTime>,
    pub merchants: Vec<MerchantData>,
}

impl MerchantDataList {
    pub fn new() -> (r: Self)
        ensures
            r.start_time is None,
            r.end_time is None,
            r.merchants@ == Seq::<MerchantData>::empty(),
    {
        MerchantDataList { start_time: None, end_time: None, merchants: Vec::new() }
    }

    /// The position of the record for `domain`, if one exists.
    pub fn find_index(&self, domain: &str) -> (r: Option<usize>)
        ensures
            match r {
                Some(i) => i < self.merchants@.len() && find_domain(self.merchants@, domain@)
                    == Some(i as int),
                None => find_domain(self.merchants@, domain@) is None,
            },
    {
        let n = self.merchants.len();
        for i in 0..n
            invariant
                n == self.merchants@.len(),
                forall|j: int| 0 <= j < i ==> self.merchants@[j].shop_domain@ != domain@,
        {
            if str_eq(self.merchants[i].shop_domain.as_str(), domain) {
                proof {
                    lemma_find_domain_hits(self.merchants@, domain@, 0, i as int);
                }
                return Some(i);
            }
        }
        proof {
            lemma_find_domain_misses(self.merchants@, domain@, 0);
        }
        None
    }

    /// Insert `merchant` under its domain: replace the existing record for
    /// that domain, or append the record as a new tenant.
    pub fn update_merchant(&mut self, merchant: MerchantData)
        ensures
            *final(self) == (MerchantDataList {
                merchants: final(self).merchants,
                ..*old(self)
            }),
            match find_domain(old(self).merchants@, merchant.shop_domain@) {
                Some(j) => final(self).merchants@ == old(self).merchants@.update(j, merchant),
                None => final(self).merchants@ == old(self).merchants@.push(merchant),
            },
    {
        let idx = self.find_index(merchant.shop_domain.as_str());
        match idx {
            Some(i) => {
                self.merchants[i] = merchant;
            },
            None => {
                self.merchants.push(merchant);
            },
        }
    }
}

} // verus!
