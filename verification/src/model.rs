//! The mathematical model of the two-pass analysis: what each counter, each
//! retained list and each derived field must equal, stated as recursive
//! functions of the event stream, and the lemmas the passes' proofs lean on.

use vstd::prelude::*;
use crate::defs::PricingUnit;
use crate::event::{AppEvent, Category, MatchCfg, category_of, excluded, is_install_family,
    is_subscription, relevant};
use crate::merchant::{InstalledStatus, MerchantData, SubscriptionStatus};
use crate::pattern::case_match;
use crate::stats::BillingCycle;

verus! {

/// Counters of this many events and tenants are proved free of overflow.
/// The bound is far beyond what fits in memory; it only keeps the derived
/// metrics inside `i64`.
pub const COUNT_LIMIT: u64 = 0x1000_0000_0000_0000;

/// Whether `e` increments the counter of category `cat`.
pub open spec fn counted(cfg: MatchCfg, e: AppEvent, cat: Category) -> bool {
    !excluded(cfg, e) && category_of(e) == cat
}

/// How many events of `s` count under category `cat`.
pub open spec fn count_cat(cfg: MatchCfg, s: Seq<AppEvent>, cat: Category) -> int
    decreases s.len(),
{
    if s.len() == 0 {
        0
    } else {
        count_cat(cfg, s.drop_last(), cat) + if counted(cfg, s.last(), cat) {
            1int
        } else {
            0int
        }
    }
}

pub proof fn lemma_count_cat_bounds(cfg: MatchCfg, s: Seq<AppEvent>, cat: Category)
    ensures
        0 <= count_cat(cfg, s, cat) <= s.len(),
    decreases s.len(),
{
    if s.len() > 0 {
        lemma_count_cat_bounds(cfg, s.drop_last(), cat);
    }
}

/// Whether `plan`'s pattern matches the purchase details.
pub open spec fn plan_matches(case_sensitive: bool, plan: PricingUnit, details: Seq<char>) -> bool {
    case_match(case_sensitive, plan.regex_pattern@, details)
}

/// The first plan at or after `i` whose pattern matches `details`.
pub open spec fn first_plan_from(
    case_sensitive: bool,
    plans: Seq<PricingUnit>,
    details: Seq<char>,
    i: int,
) -> Option<int>
    decreases plans.len() - i,
{
    if i < 0 || i >= plans.len() {
        None
    } else if plan_matches(case_sensitive, plans[i], details) {
        Some(i)
    } else {
        first_plan_from(case_sensitive, plans, details, i + 1)
    }
}

/// The plan a purchase is attributed to: the first match in definition
/// order, or none.
pub open spec fn first_plan(
    case_sensitive: bool,
    plans: Seq<PricingUnit>,
    details: Seq<char>,
) -> Option<int> {
    first_plan_from(case_sensitive, plans, details, 0)
}

pub proof fn lemma_first_plan_hits(
    case_sensitive: bool,
    plans: Seq<PricingUnit>,
    details: Seq<char>,
    i: int,
    k: int,
)
    requires
        0 <= i <= k < plans.len(),
        plan_matches(case_sensitive, plans[k], details),
        forall|j: int| i <= j < k ==> !plan_matches(case_sensitive, plans[j], details),
    ensures
        first_plan_from(case_sensitive, plans, details, i) == Some(k),
    decreases k - i,
{
    if i < k {
        lemma_first_plan_hits(case_sensitive, plans, details, i + 1, k);
    }
}

pub proof fn lemma_first_plan_misses(
    case_sensitive: bool,
    plans: Seq<PricingUnit>,
    details: Seq<char>,
    i: int,
)
    requires
        0 <= i,
        forall|j: int| i <= j < plans.len() ==> !plan_matches(case_sensitive, plans[j], details),
    ensures
        first_plan_from(case_sensitive, plans, details, i) is None,
    decreases plans.len() - i,
{
    if i < plans.len() {
        lemma_first_plan_misses(case_sensitive, plans, details, i + 1);
    }
}

/// Whether `e` is a one-time purchase attributed to plan `k`.
pub open spec fn counted_one_time_plan(
    cfg: MatchCfg,
    plans: Seq<PricingUnit>,
    e: AppEvent,
    k: int,
) -> bool {
    counted(cfg, e, Category::OneTimePurchase) && first_plan(cfg.case_sensitive, plans, e.details@)
        == Some(k)
}

/// How many one-time purchases of `s` are attributed to plan `k`.
pub open spec fn count_one_time_plan(
    cfg: MatchCfg,
    plans: Seq<PricingUnit>,
    s: Seq<AppEvent>,
    k: int,
) -> int
    decreases s.len(),
{
    if s.len() == 0 {
        0
    } else {
        count_one_time_plan(cfg, plans, s.drop_last(), k) + if counted_one_time_plan(
            cfg,
            plans,
            s.last(),
            k,
        ) {
            1int
        } else {
            0int
        }
    }
}

pub proof fn lemma_count_one_time_plan_bounds(
    cfg: MatchCfg,
    plans: Seq<PricingUnit>,
    s: Seq<AppEvent>,
    k: int,
)
    ensures
        0 <= count_one_time_plan(cfg, plans, s, k) <= s.len(),
    decreases s.len(),
{
    if s.len() > 0 {
        lemma_count_one_time_plan_bounds(cfg, plans, s.drop_last(), k);
    }
}

/// The tenant domains of `s`, one entry per domain that a relevant event
/// carries, in order of first appearance.
pub open spec fn doms(cfg: MatchCfg, s: Seq<AppEvent>) -> Seq<Seq<char>>
    decreases s.len(),
{
    if s.len() == 0 {
        Seq::empty()
    } else {
        let prev = doms(cfg, s.drop_last());
        let e = s.last();
        if relevant(cfg, e) && !prev.contains(e.shop_domain@) {
            prev.push(e.shop_domain@)
        } else {
            prev
        }
    }
}

pub proof fn lemma_doms_len(cfg: MatchCfg, s: Seq<AppEvent>)
    ensures
        doms(cfg, s).len() <= s.len(),
    decreases s.len(),
{
    if s.len() > 0 {
        lemma_doms_len(cfg, s.drop_last());
    }
}

pub proof fn lemma_doms_distinct(cfg: MatchCfg, s: Seq<AppEvent>)
    ensures
        forall|i: int, j: int|
            0 <= i < j < doms(cfg, s).len() ==> doms(cfg, s)[i] != doms(cfg, s)[j],
    decreases s.len(),
{
    if s.len() > 0 {
        lemma_doms_distinct(cfg, s.drop_last());
        let prev = doms(cfg, s.drop_last());
        let e = s.last();
        if relevant(cfg, e) && !prev.contains(e.shop_domain@) {
            assert forall|i: int, j: int|
                0 <= i < j < doms(cfg, s).len() implies doms(cfg, s)[i] != doms(cfg, s)[j] by {
                if j < prev.len() {
                } else {
                    assert(doms(cfg, s)[j] == e.shop_domain@);
                    assert(prev.contains(prev[i])) by {
                        assert(prev[i] == prev[i]);
                    }
                }
            }
        }
    }
}

/// Whether `e` counts for tenant `d` under category `cat`.
pub open spec fn tenant_counted(cfg: MatchCfg, e: AppEvent, d: Seq<char>, cat: Category) -> bool {
    counted(cfg, e, cat) && e.shop_domain@ == d
}

/// How many events of `s` count for tenant `d` under category `cat`.
pub open spec fn tenant_count_cat(cfg: MatchCfg, s: Seq<AppEvent>, d: Seq<char>, cat: Category) -> int
    decreases s.len(),
{
    if s.len() == 0 {
        0
    } else {
        tenant_count_cat(cfg, s.drop_last(), d, cat) + if tenant_counted(cfg, s.last(), d, cat) {
            1int
        } else {
            0int
        }
    }
}

pub proof fn lemma_tenant_count_cat_bounds(
    cfg: MatchCfg,
    s: Seq<AppEvent>,
    d: Seq<char>,
    cat: Category,
)
    ensures
        0 <= tenant_count_cat(cfg, s, d, cat) <= s.len(),
    decreases s.len(),
{
    if s.len() > 0 {
        lemma_tenant_count_cat_bounds(cfg, s.drop_last(), d, cat);
    }
}

/// The install-family events retained for tenant `d`, in arrival order.
pub open spec fn tenant_install_events(cfg: MatchCfg, s: Seq<AppEvent>, d: Seq<char>) -> Seq<
    AppEvent,
>
    decreases s.len(),
{
    if s.len() == 0 {
        Seq::empty()
    } else {
        let prev = tenant_install_events(cfg, s.drop_last(), d);
        let e = s.last();
        if !excluded(cfg, e) && is_install_family(category_of(e)) && e.shop_domain@ == d {
            prev.push(e)
        } else {
            prev
        }
    }
}

/// The subscription events retained for tenant `d`, in arrival order.
pub open spec fn tenant_sub_events(cfg: MatchCfg, s: Seq<AppEvent>, d: Seq<char>) -> Seq<AppEvent>
    decreases s.len(),
{
    if s.len() == 0 {
        Seq::empty()
    } else {
        let prev = tenant_sub_events(cfg, s.drop_last(), d);
        let e = s.last();
        if !excluded(cfg, e) && is_subscription(category_of(e)) && e.shop_domain@ == d {
            prev.push(e)
        } else {
            prev
        }
    }
}

/// The one-time purchase events retained for tenant `d`, in arrival order.
pub open spec fn tenant_one_time_events(cfg: MatchCfg, s: Seq<AppEvent>, d: Seq<char>) -> Seq<
    AppEvent,
>
    decreases s.len(),
{
    if s.len() == 0 {
        Seq::empty()
    } else {
        let prev = tenant_one_time_events(cfg, s.drop_last(), d);
        let e = s.last();
        if !excluded(cfg, e) && category_of(e) == Category::OneTimePurchase && e.shop_domain@
            == d {
            prev.push(e)
        } else {
            prev
        }
    }
}

/// How many one-time purchases of tenant `d` are attributed to plan `k`.
pub open spec fn tenant_one_time_plan_count(
    cfg: MatchCfg,
    plans: Seq<PricingUnit>,
    s: Seq<AppEvent>,
    d: Seq<char>,
    k: int,
) -> int
    decreases s.len(),
{
    if s.len() == 0 {
        0
    } else {
        tenant_one_time_plan_count(cfg, plans, s.drop_last(), d, k) + if counted_one_time_plan(
            cfg,
            plans,
            s.last(),
            k,
        ) && s.last().shop_domain@ == d {
            1int
        } else {
            0int
        }
    }
}

pub proof fn lemma_tenant_one_time_plan_count_bounds(
    cfg: MatchCfg,
    plans: Seq<PricingUnit>,
    s: Seq<AppEvent>,
    d: Seq<char>,
    k: int,
)
    ensures
        0 <= tenant_one_time_plan_count(cfg, plans, s, d, k) <= s.len(),
    decreases s.len(),
{
    if s.len() > 0 {
        lemma_tenant_one_time_plan_count_bounds(cfg, plans, s.drop_last(), d, k);
    }
}

/// A domain no relevant event of `s` carries has empty tenant state: every
/// count zero, every retained list empty.
pub proof fn lemma_absent_domain_empty(
    cfg: MatchCfg,
    plans: Seq<PricingUnit>,
    s: Seq<AppEvent>,
    d: Seq<char>,
)
    requires
        !doms(cfg, s).contains(d),
    ensures
        forall|cat: Category|
            cat != Category::Unclassified ==> tenant_count_cat(cfg, s, d, cat) == 0,
        tenant_install_events(cfg, s, d) == Seq::<AppEvent>::empty(),
        tenant_sub_events(cfg, s, d) == Seq::<AppEvent>::empty(),
        tenant_one_time_events(cfg, s, d) == Seq::<AppEvent>::empty(),
        forall|k: int| tenant_one_time_plan_count(cfg, plans, s, d, k) == 0,
    decreases s.len(),
{
    if s.len() > 0 {
        let prev = doms(cfg, s.drop_last());
        let e = s.last();
        assert(!prev.contains(d)) by {
            if prev.contains(d) {
                let w = choose|w: int| 0 <= w < prev.len() && prev[w] == d;
                if relevant(cfg, e) && !prev.contains(e.shop_domain@) {
                    assert(doms(cfg, s)[w] == d);
                } else {
                    assert(doms(cfg, s)[w] == d);
                }
            }
        }
        lemma_absent_domain_empty(cfg, plans, s.drop_last(), d);
        assert(!(relevant(cfg, e) && e.shop_domain@ == d)) by {
            if relevant(cfg, e) && e.shop_domain@ == d {
                if !prev.contains(e.shop_domain@) {
                    assert(doms(cfg, s).last() == d);
                    assert(doms(cfg, s).contains(d));
                } else {
                    assert(prev.contains(d));
                }
            }
        }
        assert forall|cat: Category|
            cat != Category::Unclassified implies tenant_count_cat(cfg, s, d, cat) == 0 by {
            assert(tenant_count_cat(cfg, s.drop_last(), d, cat) == 0);
            if tenant_counted(cfg, e, d, cat) {
                assert(relevant(cfg, e) && e.shop_domain@ == d);
            }
        }
        assert forall|k: int| tenant_one_time_plan_count(cfg, plans, s, d, k) == 0 by {
            assert(tenant_one_time_plan_count(cfg, plans, s.drop_last(), d, k) == 0);
            if counted_one_time_plan(cfg, plans, e, k) && e.shop_domain@ == d {
                assert(relevant(cfg, e) && e.shop_domain@ == d);
            }
        }
        if !excluded(cfg, e) && is_install_family(category_of(e)) && e.shop_domain@ == d {
            assert(relevant(cfg, e) && e.shop_domain@ == d);
        }
        if !excluded(cfg, e) && is_subscription(category_of(e)) && e.shop_domain@ == d {
            assert(relevant(cfg, e) && e.shop_domain@ == d);
        }
        if !excluded(cfg, e) && category_of(e) == Category::OneTimePurchase && e.shop_domain@
            == d {
            assert(relevant(cfg, e) && e.shop_domain@ == d);
        }
    }
}

/// When no tenant domain was seen at all, no event counted: every global
/// count is zero.
pub proof fn lemma_no_domains(cfg: MatchCfg, plans: Seq<PricingUnit>, s: Seq<AppEvent>)
    requires
        doms(cfg, s).len() == 0,
    ensures
        forall|cat: Category| cat != Category::Unclassified ==> count_cat(cfg, s, cat) == 0,
        forall|k: int| count_one_time_plan(cfg, plans, s, k) == 0,
    decreases s.len(),
{
    if s.len() > 0 {
        let prev = doms(cfg, s.drop_last());
        let e = s.last();
        assert(prev.len() == 0) by {
            if relevant(cfg, e) && !prev.contains(e.shop_domain@) {
                assert(doms(cfg, s) == prev.push(e.shop_domain@));
            }
        }
        lemma_no_domains(cfg, plans, s.drop_last());
        assert(!relevant(cfg, e)) by {
            if relevant(cfg, e) {
                assert(!prev.contains(e.shop_domain@));
                assert(doms(cfg, s).len() > 0);
            }
        }
        assert forall|cat: Category|
            cat != Category::Unclassified implies count_cat(cfg, s, cat) == 0 by {
            assert(count_cat(cfg, s.drop_last(), cat) == 0);
            assert(!counted(cfg, e, cat));
        }
        assert forall|k: int| count_one_time_plan(cfg, plans, s, k) == 0 by {
            assert(count_one_time_plan(cfg, plans, s.drop_last(), k) == 0);
            assert(!counted_one_time_plan(cfg, plans, e, k));
        }
    }
}

/// The install-family delta that decides a tenant's installed status.
pub open spec fn install_delta(m: MerchantData) -> int {
    m.installed_count + m.store_reopened_count - m.uninstalled_count - m.store_closed_count
}

/// The subscription delta that decides a tenant's subscription status.
pub open spec fn sub_delta(m: MerchantData) -> int {
    m.subscription_activated_count - m.subscription_canceled_count
}

/// A pre-existing uninstall: the tenant left before the observation window
/// began, shown by its earliest retained install-family event being itself
/// an uninstall.
pub open spec fn is_old_uninstall(m: MerchantData) -> bool {
    install_delta(m) < 0 && m.installing_events@.len() > 0 && m.installing_events@[0].event@
        == "Uninstalled"@
}

/// The three-way installed-status rule: the sign of the install-family delta
/// decides, and a negative delta is upgraded to `UninstalledOld` for a
/// pre-existing uninstall.
pub open spec fn spec_installed_status(m: MerchantData) -> InstalledStatus {
    if install_delta(m) > 0 {
        InstalledStatus::Installed
    } else if install_delta(m) < 0 {
        if is_old_uninstall(m) {
            InstalledStatus::UninstalledOld
        } else {
            InstalledStatus::Uninstalled
        }
    } else {
        InstalledStatus::Unset
    }
}

/// The three-way subscription-status rule: the sign of the subscription
/// delta decides.
pub open spec fn spec_subscription_status(m: MerchantData) -> SubscriptionStatus {
    if sub_delta(m) > 0 {
        SubscriptionStatus::Active
    } else if sub_delta(m) < 0 {
        SubscriptionStatus::Canceled
    } else {
        SubscriptionStatus::Unset
    }
}

/// The position of the latest activation among the first `i` retained
/// subscription events.
pub open spec fn last_activation_before(s: Seq<AppEvent>, i: int) -> Option<int>
    decreases i,
{
    if i <= 0 || i > s.len() {
        None
    } else if category_of(s[i - 1]) == Category::SubscriptionActivated {
        Some(i - 1)
    } else {
        last_activation_before(s, i - 1)
    }
}

/// The latest activation among the retained subscription events: the event
/// the "new subscription" attribution reads.
pub open spec fn last_activation(s: Seq<AppEvent>) -> Option<int> {
    last_activation_before(s, s.len() as int)
}

/// The position of the earliest cancellation at or after `i`.
pub open spec fn first_cancellation_from(s: Seq<AppEvent>, i: int) -> Option<int>
    decreases s.len() - i,
{
    if i < 0 || i >= s.len() {
        None
    } else if category_of(s[i]) == Category::SubscriptionCanceled {
        Some(i)
    } else {
        first_cancellation_from(s, i + 1)
    }
}

/// The earliest cancellation among the retained subscription events: the
/// event the "canceled subscription" attribution reads.
pub open spec fn first_cancellation(s: Seq<AppEvent>) -> Option<int> {
    first_cancellation_from(s, 0)
}

/// The plan and billing cycle the tenant's latest activation is attributed
/// to, or none when there is no activation or no plan pattern matches it.
pub open spec fn new_sub_attr(
    case_sensitive: bool,
    plans: Seq<PricingUnit>,
    m: MerchantData,
) -> Option<(int, BillingCycle)> {
    match last_activation(m.subscription_events@) {
        None => None,
        Some(i) => {
            let e = m.subscription_events@[i];
            match first_plan(case_sensitive, plans, e.details@) {
                None => None,
                Some(p) => Some(
                    (
                        p,
                        if case_match(case_sensitive, "Year"@, e.details@) {
                            BillingCycle::Yearly
                        } else {
                            BillingCycle::Monthly
                        },
                    ),
                ),
            }
        },
    }
}

/// The plan and billing cycle the tenant's earliest cancellation is
/// attributed to.
pub open spec fn canceled_sub_attr(
    case_sensitive: bool,
    plans: Seq<PricingUnit>,
    m: MerchantData,
) -> Option<(int, BillingCycle)> {
    match first_cancellation(m.subscription_events@) {
        None => None,
        Some(i) => {
            let e = m.subscription_events@[i];
            match first_plan(case_sensitive, plans, e.details@) {
                None => None,
                Some(p) => Some(
                    (
                        p,
                        if case_match(case_sensitive, "Year"@, e.details@) {
                            BillingCycle::Yearly
                        } else {
                            BillingCycle::Monthly
                        },
                    ),
                ),
            }
        },
    }
}

/// What the finalizer makes of one tenant record: statuses set by the delta
/// rules, attribution fields filled from the latest activation and earliest
/// cancellation, everything else untouched.
pub open spec fn finalize_model(
    case_sensitive: bool,
    plans: Seq<PricingUnit>,
    m: MerchantData,
) -> MerchantData {
    MerchantData {
        installed_status: spec_installed_status(m),
        subscription_status: spec_subscription_status(m),
        last_new_sub_plan: match new_sub_attr(case_sensitive, plans, m) {
            Some((p, _)) => Some(plans[p]),
            None => m.last_new_sub_plan,
        },
        last_new_sub_billing_cycle: match new_sub_attr(case_sensitive, plans, m) {
            Some((_, c)) => Some(c),
            None => m.last_new_sub_billing_cycle,
        },
        first_canceled_sub_plan: match canceled_sub_attr(case_sensitive, plans, m) {
            Some((p, _)) => Some(plans[p]),
            None => m.first_canceled_sub_plan,
        },
        first_canceled_sub_billing_cycle: match canceled_sub_attr(case_sensitive, plans, m) {
            Some((_, c)) => Some(c),
            None => m.first_canceled_sub_billing_cycle,
        },
        ..m
    }
}

/// How many tenants of `ms` end with an active subscription.
pub open spec fn count_active(ms: Seq<MerchantData>) -> int
    decreases ms.len(),
{
    if ms.len() == 0 {
        0
    } else {
        count_active(ms.drop_last()) + if sub_delta(ms.last()) > 0 {
            1int
        } else {
            0int
        }
    }
}

/// How many tenants of `ms` end with a canceled subscription.
pub open spec fn count_canceled(ms: Seq<MerchantData>) -> int
    decreases ms.len(),
{
    if ms.len() == 0 {
        0
    } else {
        count_canceled(ms.drop_last()) + if sub_delta(ms.last()) < 0 {
            1int
        } else {
            0int
        }
    }
}

/// How many tenants of `ms` are pre-existing uninstalls.
pub open spec fn count_old_uninstall(ms: Seq<MerchantData>) -> int
    decreases ms.len(),
{
    if ms.len() == 0 {
        0
    } else {
        count_old_uninstall(ms.drop_last()) + if is_old_uninstall(ms.last()) {
            1int
        } else {
            0int
        }
    }
}

/// How many tenants' latest activation is attributed to plan `p` under
/// cycle `cyc`.
pub open spec fn count_attr_new(
    case_sensitive: bool,
    plans: Seq<PricingUnit>,
    ms: Seq<MerchantData>,
    p: int,
    cyc: BillingCycle,
) -> int
    decreases ms.len(),
{
    if ms.len() == 0 {
        0
    } else {
        count_attr_new(case_sensitive, plans, ms.drop_last(), p, cyc) + if new_sub_attr(
            case_sensitive,
            plans,
            ms.last(),
        ) == Some((p, cyc)) {
            1int
        } else {
            0int
        }
    }
}

/// As `count_attr_new`, but only for tenants whose subscription status is
/// active.
pub open spec fn count_attr_new_active(
    case_sensitive: bool,
    plans: Seq<PricingUnit>,
    ms: Seq<MerchantData>,
    p: int,
    cyc: BillingCycle,
) -> int
    decreases ms.len(),
{
    if ms.len() == 0 {
        0
    } else {
        count_attr_new_active(case_sensitive, plans, ms.drop_last(), p, cyc) + if new_sub_attr(
            case_sensitive,
            plans,
            ms.last(),
        ) == Some((p, cyc)) && sub_delta(ms.last()) > 0 {
            1int
        } else {
            0int
        }
    }
}

/// How many tenants' earliest cancellation is attributed to plan `p` under
/// cycle `cyc`.
pub open spec fn count_attr_canceled(
    case_sensitive: bool,
    plans: Seq<PricingUnit>,
    ms: Seq<MerchantData>,
    p: int,
    cyc: BillingCycle,
) -> int
    decreases ms.len(),
{
    if ms.len() == 0 {
        0
    } else {
        count_attr_canceled(case_sensitive, plans, ms.drop_last(), p, cyc) + if canceled_sub_attr(
            case_sensitive,
            plans,
            ms.last(),
        ) == Some((p, cyc)) {
            1int
        } else {
            0int
        }
    }
}

/// As `count_attr_canceled`, but only for tenants whose subscription status
/// is canceled.
pub open spec fn count_attr_canceled_active(
    case_sensitive: bool,
    plans: Seq<PricingUnit>,
    ms: Seq<MerchantData>,
    p: int,
    cyc: BillingCycle,
) -> int
    decreases ms.len(),
{
    if ms.len() == 0 {
        0
    } else {
        count_attr_canceled_active(case_sensitive, plans, ms.drop_last(), p, cyc)
            + if canceled_sub_attr(case_sensitive, plans, ms.last()) == Some((p, cyc)) && sub_delta(
            ms.last(),
        ) < 0 {
            1int
        } else {
            0int
        }
    }
}

pub proof fn lemma_merchant_count_bounds(ms: Seq<MerchantData>)
    ensures
        0 <= count_active(ms) <= ms.len(),
        0 <= count_canceled(ms) <= ms.len(),
        0 <= count_old_uninstall(ms) <= ms.len(),
    decreases ms.len(),
{
    if ms.len() > 0 {
        lemma_merchant_count_bounds(ms.drop_last());
    }
}

pub proof fn lemma_attr_count_bounds(
    case_sensitive: bool,
    plans: Seq<PricingUnit>,
    ms: Seq<MerchantData>,
    p: int,
    cyc: BillingCycle,
)
    ensures
        0 <= count_attr_new(case_sensitive, plans, ms, p, cyc) <= ms.len(),
        0 <= count_attr_new_active(case_sensitive, plans, ms, p, cyc) <= ms.len(),
        0 <= count_attr_canceled(case_sensitive, plans, ms, p, cyc) <= ms.len(),
        0 <= count_attr_canceled_active(case_sensitive, plans, ms, p, cyc) <= ms.len(),
    decreases ms.len(),
{
    if ms.len() > 0 {
        lemma_attr_count_bounds(case_sensitive, plans, ms.drop_last(), p, cyc);
    }
}

} // verus!
