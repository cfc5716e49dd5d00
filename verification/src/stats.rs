//! Cross-tenant aggregate state: the global counters, the per-plan
//! subscription counter maps, and the derived metrics the finalizer fills in.

use vstd::prelude::*;
use vstd::string::StringExecFns;
use crate::dates::{DateTime, pretty_date, format_month_day};
use crate::defs::{PricingDefs, PricingUnit};
use crate::error::AnalyzeError;
use crate::pattern::str_eq;

verus! {

/// An exact percentage: the value `num / den * 100`, kept as a fraction so
/// that no precision is lost. A zero denominator encodes a rate of zero (the
/// divide-by-zero guard of the churn-rate formulas).
#[derive(Clone, Copy, Debug, PartialEq, Eq, Structural)]
pub struct Percent {
    pub num: i64,
    pub den: u64,
}

impl Percent {
    /// The rate that stands for zero (no installs observed).
    pub fn zero() -> (r: Percent)
        ensures
            r.num == 0,
            r.den == 0,
    {
        Percent { num: 0, den: 0 }
    }
}

/// Whether a purchase bills once a year or once a month, decided by testing
/// the yearly pattern against the purchase details.
#[derive(Clone, Copy, Debug, PartialEq, Eq, Structural)]
pub enum BillingCycle {
    Monthly,
    Yearly,
}

/// One entry of a per-plan counter map: a plan code and its running count.
#[derive(Debug, Clone, PartialEq)]
pub struct PlanCount {
    pub code: String,
    pub count: i64,
}

/// The first position at or after `i` whose entry carries `code`.
pub open spec fn find_code_from(counts: Seq<PlanCount>, code: Seq<char>, i: int) -> Option<int>
    decreases counts.len() - i,
{
    if i < 0 || i >= counts.len() {
        None
    } else if counts[i].code@ == code {
        Some(i)
    } else {
        find_code_from(counts, code, i + 1)
    }
}

/// The position of `code` in the counter map, if it was seeded.
pub open spec fn find_code(counts: Seq<PlanCount>, code: Seq<char>) -> Option<int> {
    find_code_from(counts, code, 0)
}

/// The counter map carries exactly the codes of `plans`, in order.
pub open spec fn seeded_codes(counts: Seq<PlanCount>, plans: Seq<PricingUnit>) -> bool {
    counts.len() == plans.len() && forall|k: int|
        0 <= k < plans.len() ==> counts[k].code@ == plans[k].code@
}

/// Every count of the map lies within `b` of zero.
pub open spec fn counts_bounded(counts: Seq<PlanCount>, b: int) -> bool {
    forall|k: int| 0 <= k < counts.len() ==> -b <= #[trigger] counts[k].count <= b
}

pub proof fn lemma_find_code_hits(counts: Seq<PlanCount>, code: Seq<char>, i: int, k: int)
    requires
        0 <= i <= k < counts.len(),
        counts[k].code@ == code,
        forall|j: int| i <= j < k ==> counts[j].code@ != code,
    ensures
        find_code_from(counts, code, i) == Some(k),
    decreases k - i,
{
    if i < k {
        lemma_find_code_hits(counts, code, i + 1, k);
    }
}

pub proof fn lemma_find_code_misses(counts: Seq<PlanCount>, code: Seq<char>, i: int)
    requires
        0 <= i,
        forall|j: int| i <= j < counts.len() ==> counts[j].code@ != code,
    ensures
        find_code_from(counts, code, i) is None,
    decreases counts.len() - i,
{
    if i < counts.len() {
        lemma_find_code_misses(counts, code, i + 1);
    }
}

/// In a counter map seeded from plans with distinct codes, each plan's code
/// is found exactly at that plan's own position.
pub proof fn lemma_find_code_seeded(counts: Seq<PlanCount>, plans: Seq<PricingUnit>, k: int)
    requires
        seeded_codes(counts, plans),
        crate::defs::distinct_codes(plans),
        0 <= k < plans.len(),
    ensures
        find_code(counts, plans[k].code@) == Some(k),
{
    lemma_find_code_hits(counts, plans[k].code@, 0, k);
}

/// A fresh counter map: one zero entry per plan, in definition order.
pub fn seed_plan_counts(plans: &Vec<PricingUnit>) -> (r: Vec<PlanCount>)
    ensures
        seeded_codes(r@, plans@),
        forall|k: int| 0 <= k < r@.len() ==> r@[k].count == 0,
{
    let mut counts: Vec<PlanCount> = Vec::new();
    let n = plans.len();
    for i in 0..n
        invariant
            n == plans@.len(),
            counts@.len() == i,
            forall|k: int| 0 <= k < i ==> counts@[k].code@ == plans@[k].code@,
            forall|k: int| 0 <= k < i ==> counts@[k].count == 0,
    {
        counts.push(PlanCount { code: plans[i].code.clone(), count: 0 });
    }
    counts
}

/// Add `amount` to the entry for `code`, or report the code as unknown and
/// leave the map untouched.
pub fn increase_plan_count(counts: &mut Vec<PlanCount>, code: &str, amount: i64) -> (r: Result<
    (),
    AnalyzeError,
>)
    requires
        find_code(old(counts)@, code@) matches Some(j) ==> i64::MIN <= old(counts)@[j].count
            + amount <= i64::MAX,
    ensures
        match find_code(old(counts)@, code@) {
            Some(j) => r is Ok && final(counts)@ == old(counts)@.update(
                j,
                PlanCount { code: old(counts)@[j].code, count: (old(counts)@[j].count + amount) as i64 },
            ),
            None => (r matches Err(e) && e matches AnalyzeError::UnknownPlanCode(c) && c@ == code@)
                && final(counts)@ == old(counts)@,
        },
{
    let n = counts.len();
    for i in 0..n
        invariant
            n == counts@.len(),
            counts@ == old(counts)@,
            forall|j: int| 0 <= j < i ==> counts@[j].code@ != code@,
            find_code(old(counts)@, code@) matches Some(j) ==> i64::MIN <= old(counts)@[j].count
                + amount <= i64::MAX,
    {
        if str_eq(counts[i].code.as_str(), code) {
            proof {
                lemma_find_code_hits(counts@, code@, 0, i as int);
            }
            let cur: i64 = counts[i].count;
            counts[i].count = cur + amount;
            return Ok(());
        }
    }
    proof {
        lemma_find_code_misses(counts@, code@, 0);
    }
    Err(AnalyzeError::UnknownPlanCode(code.to_owned()))
}

/// Per-plan counters for one category of subscription activity, split by
/// billing cycle. Pre-seeded with every known plan code at zero; counting
/// against an unknown code is an error, never a silent no-op.
#[derive(Debug, Clone, PartialEq)]
pub struct SubscriptionStatsCounter {
    pub monthly_counts: Vec<PlanCount>,
    pub yearly_counts: Vec<PlanCount>,
}

impl SubscriptionStatsCounter {
    /// Both maps carry exactly the codes of `plans`, in order.
    pub open spec fn seeded(self, plans: Seq<PricingUnit>) -> bool {
        seeded_codes(self.monthly_counts@, plans) && seeded_codes(self.yearly_counts@, plans)
    }

    /// The count of plan `k` under `cycle`.
    pub open spec fn at(self, cycle: BillingCycle, k: int) -> int {
        match cycle {
            BillingCycle::Monthly => self.monthly_counts@[k].count as int,
            BillingCycle::Yearly => self.yearly_counts@[k].count as int,
        }
    }

    pub open spec fn bounded(self, b: int) -> bool {
        counts_bounded(self.monthly_counts@, b) && counts_bounded(self.yearly_counts@, b)
    }

    /// Fresh counters over the given subscription plans, all zero.
    pub fn new(subscription_plan_list: &Vec<PricingUnit>) -> (r: Self)
        ensures
            r.seeded(subscription_plan_list@),
            forall|cycle: BillingCycle, k: int|
                0 <= k < subscription_plan_list@.len() ==> r.at(cycle, k) == 0,
    {
        SubscriptionStatsCounter {
            monthly_counts: seed_plan_counts(subscription_plan_list),
            yearly_counts: seed_plan_counts(subscription_plan_list),
        }
    }

    /// Add `count` to one plan's counter under one billing cycle.
    pub fn increase(
        &mut self,
        subscription_plan: &PricingUnit,
        billing_cycle: &BillingCycle,
        count: i64,
    ) -> (r: Result<(), AnalyzeError>)
        requires
            ({
                let m = match *billing_cycle {
                    BillingCycle::Monthly => old(self).monthly_counts@,
                    BillingCycle::Yearly => old(self).yearly_counts@,
                };
                find_code(m, subscription_plan.code@) matches Some(j) ==> i64::MIN <= m[j].count
                    + count <= i64::MAX
            }),
        ensures
            ({
                let m = match *billing_cycle {
                    BillingCycle::Monthly => old(self).monthly_counts@,
                    BillingCycle::Yearly => old(self).yearly_counts@,
                };
                let m2 = match *billing_cycle {
                    BillingCycle::Monthly => final(self).monthly_counts@,
                    BillingCycle::Yearly => final(self).yearly_counts@,
                };
                match find_code(m, subscription_plan.code@) {
                    Some(j) => r is Ok && m2 == m.update(
                        j,
                        PlanCount { code: m[j].code, count: (m[j].count + count) as i64 },
                    ),
                    None => (r matches Err(e) && e matches AnalyzeError::UnknownPlanCode(c) && c@
                        == subscription_plan.code@) && m2 == m,
                }
            }),
            match *billing_cycle {
                BillingCycle::Monthly => final(self).yearly_counts@ == old(self).yearly_counts@,
                BillingCycle::Yearly => final(self).monthly_counts@ == old(self).monthly_counts@,
            },
    {
        match billing_cycle {
            BillingCycle::Monthly => increase_plan_count(
                &mut self.monthly_counts,
                subscription_plan.code.as_str(),
                count,
            ),
            BillingCycle::Yearly => increase_plan_count(
                &mut self.yearly_counts,
                subscription_plan.code.as_str(),
                count,
            ),
        }
    }
}

/// The nested per-plan, per-cycle counters of the global state: activity that
/// stands (`new_sub`, `canceled_sub`), all activity (`all_new_sub`,
/// `all_canceled_sub`), and the computed net growth breakdown (`sub_growth`).
#[derive(Debug, Clone, PartialEq)]
pub struct DetailedSubscriptionStats {
    pub new_sub: SubscriptionStatsCounter,
    pub canceled_sub: SubscriptionStatsCounter,
    pub sub_growth: SubscriptionStatsCounter,
    pub all_new_sub: SubscriptionStatsCounter,
    pub all_canceled_sub: SubscriptionStatsCounter,
}

impl DetailedSubscriptionStats {
    pub open spec fn seeded(self, plans: Seq<PricingUnit>) -> bool {
        self.new_sub.seeded(plans) && self.canceled_sub.seeded(plans) && self.sub_growth.seeded(
            plans,
        ) && self.all_new_sub.seeded(plans) && self.all_canceled_sub.seeded(plans)
    }

    pub open spec fn bounded(self, b: int) -> bool {
        self.new_sub.bounded(b) && self.canceled_sub.bounded(b) && self.sub_growth.bounded(b)
            && self.all_new_sub.bounded(b) && self.all_canceled_sub.bounded(b)
    }

    pub open spec fn all_zero(self, plans: Seq<PricingUnit>) -> bool {
        forall|cycle: BillingCycle, k: int|
            0 <= k < plans.len() ==> self.new_sub.at(cycle, k) == 0 && self.canceled_sub.at(
                cycle,
                k,
            ) == 0 && self.sub_growth.at(cycle, k) == 0 && self.all_new_sub.at(cycle, k) == 0
                && self.all_canceled_sub.at(cycle, k) == 0
    }

    pub fn new(subscription_plan_list: &Vec<PricingUnit>) -> (r: Self)
        ensures
            r.seeded(subscription_plan_list@),
            r.all_zero(subscription_plan_list@),
    {
        DetailedSubscriptionStats {
            new_sub: SubscriptionStatsCounter::new(subscription_plan_list),
            canceled_sub: SubscriptionStatsCounter::new(subscription_plan_list),
            sub_growth: SubscriptionStatsCounter::new(subscription_plan_list),
            all_new_sub: SubscriptionStatsCounter::new(subscription_plan_list),
            all_canceled_sub: SubscriptionStatsCounter::new(subscription_plan_list),
        }
    }
}

/// Fresh global state seeded from the two plan lists: every counter zero,
/// every per-plan map pre-seeded with all known plan codes at zero.
pub fn fresh_total_stats(subscriptions: &Vec<PricingUnit>, one_times: &Vec<PricingUnit>) -> (r:
    TotalStats)
    ensures
        seeded_codes(r.one_time_details@, one_times@),
        r.sub_stats_details.seeded(subscriptions@),
        r.sub_stats_details.all_zero(subscriptions@),
        forall|k: int| 0 <= k < r.one_time_details@.len() ==> r.one_time_details@[k].count == 0,
        r.start_time is None,
        r.end_time is None,
        r.start_time_str@ == "None"@,
        r.end_time_str@ == "None"@,
        r.installed_count == 0,
        r.uninstalled_count == 0,
        r.old_uninstalled_count == 0,
        r.total_churn_rate == (Percent { num: 0, den: 0 }),
        r.churn_rate == (Percent { num: 0, den: 0 }),
        r.merchant_growth == 0,
        r.store_closed_count == 0,
        r.store_reopened_count == 0,
        r.one_time_count == 0,
        r.new_sub_count == 0,
        r.canceled_sub_count == 0,
        r.sub_growth == 0,
        r.paid_growth == 0,
{
    TotalStats {
        start_time: None,
        end_time: None,
        start_time_str: String::from_str("None"),
        end_time_str: String::from_str("None"),
        installed_count: 0,
        uninstalled_count: 0,
        old_uninstalled_count: 0,
        total_churn_rate: Percent { num: 0, den: 0 },
        churn_rate: Percent { num: 0, den: 0 },
        merchant_growth: 0,
        store_closed_count: 0,
        store_reopened_count: 0,
        one_time_count: 0,
        one_time_details: seed_plan_counts(one_times),
        new_sub_count: 0,
        canceled_sub_count: 0,
        sub_growth: 0,
        sub_stats_details: DetailedSubscriptionStats::new(subscriptions),
        paid_growth: 0,
    }
}

/// The cross-tenant aggregate state: counts filled by the single pass over
/// the event stream, derived metrics filled by the finalizer.
#[derive(Debug, Clone, PartialEq)]
pub struct TotalStats {
    pub start_time: Option<DateTime>,
    pub end_time: Option<DateTime>,
    pub start_time_str: String,
    pub end_time_str: String,
    pub installed_count: u64,
    pub uninstalled_count: u64,
    pub old_uninstalled_count: u64,
    pub total_churn_rate: Percent,
    pub churn_rate: Percent,
    pub merchant_growth: i64,
    pub store_closed_count: u64,
    pub store_reopened_count: u64,
    pub one_time_count: u64,
    pub one_time_details: Vec<PlanCount>,
    pub new_sub_count: u64,
    pub canceled_sub_count: u64,
    pub sub_growth: i64,
    pub sub_stats_details: DetailedSubscriptionStats,
    pub paid_growth: i64,
}

impl TotalStats {
    /// The per-plan maps carry exactly the known plan codes.
    pub open spec fn seeded(self, defs: PricingDefs) -> bool {
        seeded_codes(self.one_time_details@, defs.one_times@) && self.sub_stats_details.seeded(
            defs.subscriptions@,
        )
    }

    /// Fresh global state over the given definitions: every counter zero,
    /// every per-plan map pre-seeded with all known plan codes at zero.
    pub fn new(pricing_defs: &PricingDefs) -> (r: Self)
        ensures
            r.seeded(*pricing_defs),
            r.sub_stats_details.all_zero(pricing_defs.subscriptions@),
            forall|k: int| 0 <= k < r.one_time_details@.len() ==> r.one_time_details@[k].count == 0,
            r.start_time is None,
            r.end_time is None,
            r.start_time_str@ == "None"@,
            r.end_time_str@ == "None"@,
            r.installed_count == 0,
            r.uninstalled_count == 0,
            r.old_uninstalled_count == 0,
            r.total_churn_rate == (Percent { num: 0, den: 0 }),
            r.churn_rate == (Percent { num: 0, den: 0 }),
            r.merchant_growth == 0,
            r.store_closed_count == 0,
            r.store_reopened_count == 0,
            r.one_time_count == 0,
            r.new_sub_count == 0,
            r.canceled_sub_count == 0,
            r.sub_growth == 0,
            r.paid_growth == 0,
    {
        fresh_total_stats(&pricing_defs.subscriptions, &pricing_defs.one_times)
    }

    /// Fill the short date labels from the run's start and end timestamps;
    /// a missing timestamp leaves its label as it was.
    pub fn build_pretty_time_str(&mut self)
        ensures
            final(self).start_time_str@ == match old(self).start_time {
                Some(t) => pretty_date(t),
                None => old(self).start_time_str@,
            },
            final(self).end_time_str@ == match old(self).end_time {
                Some(t) => pretty_date(t),
                None => old(self).end_time_str@,
            },
            *final(self) == (TotalStats {
                start_time_str: final(self).start_time_str,
                end_time_str: final(self).end_time_str,
                ..*old(self)
            }),
    {
        if let Some(t) = self.start_time {
            self.start_time_str = format_month_day(&t);
        }
        if let Some(t) = self.end_time {
            self.end_time_str = format_month_day(&t);
        }
    }

    pub fn increase_one_time_count(&mut self, count: u64)
        requires
            old(self).one_time_count + count <= u64::MAX,
        ensures
            *final(self) == (TotalStats {
                one_time_count: (old(self).one_time_count + count) as u64,
                ..*old(self)
            }),
    {
        self.one_time_count = self.one_time_count + count;
    }

    /// Add to one one-time plan's counter, or report the code as unknown and
    /// leave the whole state untouched.
    pub fn increase_one_time_pack_count(&mut self, pack: &PricingUnit, count: i64) -> (r: Result<
        (),
        AnalyzeError,
    >)
        requires
            find_code(old(self).one_time_details@, pack.code@) matches Some(j) ==> i64::MIN <= old(
                self,
            ).one_time_details@[j].count + count <= i64::MAX,
        ensures
            match find_code(old(self).one_time_details@, pack.code@) {
                Some(j) => r is Ok && *final(self) == (TotalStats {
                    one_time_details: final(self).one_time_details,
                    ..*old(self)
                }) && final(self).one_time_details@ == old(self).one_time_details@.update(
                    j,
                    PlanCount {
                        code: old(self).one_time_details@[j].code,
                        count: (old(self).one_time_details@[j].count + count) as i64,
                    },
                ),
                None => (r matches Err(e) && e matches AnalyzeError::UnknownPlanCode(c) && c@
                    == pack.code@) && *final(self) == (TotalStats {
                    one_time_details: final(self).one_time_details,
                    ..*old(self)
                }) && final(self).one_time_details@ == old(self).one_time_details@,
            },
    {
        increase_plan_count(&mut self.one_time_details, pack.code.as_str(), count)
    }

    pub fn increase_installed_count(&mut self, count: u64)
        requires
            old(self).installed_count + count <= u64::MAX,
        ensures
            *final(self) == (TotalStats {
                installed_count: (old(self).installed_count + count) as u64,
                ..*old(self)
            }),
    {
        self.installed_count = self.installed_count + count;
    }

    pub fn increase_uninstalled_count(&mut self, count: u64)
        requires
            old(self).uninstalled_count + count <= u64::MAX,
        ensures
            *final(self) == (TotalStats {
                uninstalled_count: (old(self).uninstalled_count + count) as u64,
                ..*old(self)
            }),
    {
        self.uninstalled_count = self.uninstalled_count + count;
    }

    pub fn increase_old_uninstalled_count(&mut self, count: u64)
        requires
            old(self).old_uninstalled_count + count <= u64::MAX,
        ensures
            *final(self) == (TotalStats {
                old_uninstalled_count: (old(self).old_uninstalled_count + count) as u64,
                ..*old(self)
            }),
    {
        self.old_uninstalled_count = self.old_uninstalled_count + count;
    }

    pub fn increase_store_closed_count(&mut self, count: u64)
        requires
            old(self).store_closed_count + count <= u64::MAX,
        ensures
            *final(self) == (TotalStats {
                store_closed_count: (old(self).store_closed_count + count) as u64,
                ..*old(self)
            }),
    {
        self.store_closed_count = self.store_closed_count + count;
    }

    pub fn increase_store_reopened_count(&mut self, count: u64)
        requires
            old(self).store_reopened_count + count <= u64::MAX,
        ensures
            *final(self) == (TotalStats {
                store_reopened_count: (old(self).store_reopened_count + count) as u64,
                ..*old(self)
            }),
    {
        self.store_reopened_count = self.store_reopened_count + count;
    }

    pub fn increase_new_sub_count(&mut self, count: u64)
        requires
            old(self).new_sub_count + count <= u64::MAX,
        ensures
            *final(self) == (TotalStats {
                new_sub_count: (old(self).new_sub_count + count) as u64,
                ..*old(self)
            }),
    {
        self.new_sub_count = self.new_sub_count + count;
    }

    pub fn increase_canceled_sub_count(&mut self, count: u64)
        requires
            old(self).canceled_sub_count + count <= u64::MAX,
        ensures
            *final(self) == (TotalStats {
                canceled_sub_count: (old(self).canceled_sub_count + count) as u64,
                ..*old(self)
            }),
    {
        self.canceled_sub_count = self.canceled_sub_count + count;
    }
}

} // verus!
