//! The two-pass analysis: the single pass that folds the event stream into
//! per-tenant state and global counts, and the finalizer that derives the
//! final classifications and growth metrics.

use vstd::prelude::*;
use crate::classify::{CompiledDefs, all_patterns_ok};
use crate::dates::pretty_date;
use crate::defs::{ExcludingDef, PricingDefs, PricingUnit};
use crate::error::AnalyzeError;
use crate::event::{AppEvent, Category, MatchCfg, category_of, excluded, is_install_family,
    is_subscription, relevant};
use crate::merchant::{InstalledStatus, MerchantData, MerchantDataList, SubscriptionStatus};
use crate::model::{COUNT_LIMIT, count_attr_canceled, count_attr_canceled_active, count_attr_new,
    count_attr_new_active, count_active, count_canceled, count_cat, count_old_uninstall,
    count_one_time_plan, counted, counted_one_time_plan, doms, finalize_model, first_cancellation,
    first_cancellation_from, install_delta, is_old_uninstall, last_activation,
    last_activation_before, lemma_absent_domain_empty,
    lemma_attr_count_bounds, lemma_count_cat_bounds, lemma_count_one_time_plan_bounds,
    lemma_doms_distinct, lemma_doms_len, lemma_merchant_count_bounds, lemma_no_domains,
    lemma_tenant_count_cat_bounds, lemma_tenant_one_time_plan_count_bounds, new_sub_attr,
    canceled_sub_attr, spec_installed_status, spec_subscription_status, sub_delta,
    tenant_count_cat, tenant_install_events, tenant_one_time_events, tenant_one_time_plan_count,
    tenant_sub_events};
use crate::stats::{BillingCycle, Percent, PlanCount, TotalStats, lemma_find_code_seeded};

verus! {

/// The per-tenant record `m` holds exactly what the model ascribes to its
/// domain after the events `s`: every counter, every retained list, the
/// pre-seeded one-time map, and no derived field set yet.
pub open spec fn merchant_matches_model(
    cfg: MatchCfg,
    ot_plans: Seq<PricingUnit>,
    s: Seq<AppEvent>,
    m: MerchantData,
) -> bool {
    let d = m.shop_domain@;
    &&& m.installed_count == tenant_count_cat(cfg, s, d, Category::Install)
    &&& m.uninstalled_count == tenant_count_cat(cfg, s, d, Category::Uninstall)
    &&& m.store_closed_count == tenant_count_cat(cfg, s, d, Category::StoreClosed)
    &&& m.store_reopened_count == tenant_count_cat(cfg, s, d, Category::StoreReopened)
    &&& m.subscription_activated_count == tenant_count_cat(
        cfg,
        s,
        d,
        Category::SubscriptionActivated,
    )
    &&& m.subscription_canceled_count == tenant_count_cat(
        cfg,
        s,
        d,
        Category::SubscriptionCanceled,
    )
    &&& m.one_time_count == tenant_count_cat(cfg, s, d, Category::OneTimePurchase)
    &&& m.installing_events@ == tenant_install_events(cfg, s, d)
    &&& m.subscription_events@ == tenant_sub_events(cfg, s, d)
    &&& m.one_time_events@ == tenant_one_time_events(cfg, s, d)
    &&& m.one_time_details@.len() == ot_plans.len()
    &&& forall|k: int|
        0 <= k < ot_plans.len() ==> (#[trigger] m.one_time_details@[k]).code@ == ot_plans[k].code@
            && m.one_time_details@[k].count == tenant_one_time_plan_count(cfg, ot_plans, s, d, k)
    &&& m.installed_status == InstalledStatus::Unset
    &&& m.subscription_status == SubscriptionStatus::Unset
    &&& m.last_new_sub_plan is None
    &&& m.last_new_sub_billing_cycle is None
    &&& m.first_canceled_sub_plan is None
    &&& m.first_canceled_sub_billing_cycle is None
}

/// The tenant collection holds one record per domain of the model, in first
/// appearance order, each matching its model.
pub open spec fn merchants_match_model(
    cfg: MatchCfg,
    ot_plans: Seq<PricingUnit>,
    s: Seq<AppEvent>,
    ms: Seq<MerchantData>,
) -> bool {
    &&& ms.len() == doms(cfg, s).len()
    &&& forall|j: int|
        0 <= j < ms.len() ==> (#[trigger] ms[j]).shop_domain@ == doms(cfg, s)[j]
            && merchant_matches_model(cfg, ot_plans, s, ms[j])
}

/// The global counters hold exactly the model counts after the events `s`;
/// the finalizer-owned counters are still untouched.
pub open spec fn totals_match_model(
    cfg: MatchCfg,
    ot_plans: Seq<PricingUnit>,
    sub_plans: Seq<PricingUnit>,
    s: Seq<AppEvent>,
    t: TotalStats,
) -> bool {
    &&& t.installed_count == count_cat(cfg, s, Category::Install)
    &&& t.uninstalled_count == count_cat(cfg, s, Category::Uninstall)
    &&& t.store_closed_count == count_cat(cfg, s, Category::StoreClosed)
    &&& t.store_reopened_count == count_cat(cfg, s, Category::StoreReopened)
    &&& t.one_time_count == count_cat(cfg, s, Category::OneTimePurchase)
    &&& t.one_time_details@.len() == ot_plans.len()
    &&& forall|k: int|
        0 <= k < ot_plans.len() ==> (#[trigger] t.one_time_details@[k]).code@ == ot_plans[k].code@
            && t.one_time_details@[k].count == count_one_time_plan(cfg, ot_plans, s, k)
    &&& t.old_uninstalled_count == 0
    &&& t.new_sub_count == 0
    &&& t.canceled_sub_count == 0
    &&& t.sub_stats_details.seeded(sub_plans)
    &&& t.sub_stats_details.all_zero(sub_plans)
}

/// An event that touches nothing (excluded, or of no category) changes no
/// model quantity.
proof fn lemma_step_skip(cfg: MatchCfg, ot_plans: Seq<PricingUnit>, s: Seq<AppEvent>, e: AppEvent)
    requires
        !relevant(cfg, e),
    ensures
        forall|cat: Category|
            cat != Category::Unclassified ==> #[trigger] count_cat(cfg, s.push(e), cat)
                == count_cat(cfg, s, cat),
        forall|k: int|
            #[trigger] count_one_time_plan(cfg, ot_plans, s.push(e), k) == count_one_time_plan(
                cfg,
                ot_plans,
                s,
                k,
            ),
        doms(cfg, s.push(e)) == doms(cfg, s),
        forall|d: Seq<char>, cat: Category|
            cat != Category::Unclassified ==> #[trigger] tenant_count_cat(cfg, s.push(e), d, cat)
                == tenant_count_cat(cfg, s, d, cat),
        forall|d: Seq<char>|
            #[trigger] tenant_install_events(cfg, s.push(e), d) == tenant_install_events(
                cfg,
                s,
                d,
            ),
        forall|d: Seq<char>|
            #[trigger] tenant_sub_events(cfg, s.push(e), d) == tenant_sub_events(cfg, s, d),
        forall|d: Seq<char>|
            #[trigger] tenant_one_time_events(cfg, s.push(e), d) == tenant_one_time_events(
                cfg,
                s,
                d,
            ),
        forall|d: Seq<char>, k: int|
            #[trigger] tenant_one_time_plan_count(cfg, ot_plans, s.push(e), d, k)
                == tenant_one_time_plan_count(cfg, ot_plans, s, d, k),
{
    let s2 = s.push(e);
    assert(s2.drop_last() =~= s);
    assert(s2.last() == e);
}

/// How one relevant event moves every model quantity: its own category's
/// counts step by one, everything else stays; its domain is appended to the
/// domain list exactly when it is new.
proof fn lemma_step_relevant(
    cfg: MatchCfg,
    ot_plans: Seq<PricingUnit>,
    s: Seq<AppEvent>,
    e: AppEvent,
)
    requires
        relevant(cfg, e),
    ensures
        forall|cat: Category|
            #[trigger] count_cat(cfg, s.push(e), cat) == count_cat(cfg, s, cat) + if counted(
                cfg,
                e,
                cat,
            ) {
                1int
            } else {
                0int
            },
        forall|k: int|
            #[trigger] count_one_time_plan(cfg, ot_plans, s.push(e), k) == count_one_time_plan(
                cfg,
                ot_plans,
                s,
                k,
            ) + if counted_one_time_plan(cfg, ot_plans, e, k) {
                1int
            } else {
                0int
            },
        doms(cfg, s).contains(e.shop_domain@) ==> doms(cfg, s.push(e)) == doms(cfg, s),
        !doms(cfg, s).contains(e.shop_domain@) ==> doms(cfg, s.push(e)) == doms(cfg, s).push(
            e.shop_domain@,
        ),
        forall|cat: Category|
            #[trigger] tenant_count_cat(cfg, s.push(e), e.shop_domain@, cat) == tenant_count_cat(
                cfg,
                s,
                e.shop_domain@,
                cat,
            ) + if counted(cfg, e, cat) {
                1int
            } else {
                0int
            },
        tenant_install_events(cfg, s.push(e), e.shop_domain@) == if is_install_family(
            category_of(e),
        ) {
            tenant_install_events(cfg, s, e.shop_domain@).push(e)
        } else {
            tenant_install_events(cfg, s, e.shop_domain@)
        },
        tenant_sub_events(cfg, s.push(e), e.shop_domain@) == if is_subscription(category_of(e)) {
            tenant_sub_events(cfg, s, e.shop_domain@).push(e)
        } else {
            tenant_sub_events(cfg, s, e.shop_domain@)
        },
        tenant_one_time_events(cfg, s.push(e), e.shop_domain@) == if category_of(e)
            == Category::OneTimePurchase {
            tenant_one_time_events(cfg, s, e.shop_domain@).push(e)
        } else {
            tenant_one_time_events(cfg, s, e.shop_domain@)
        },
        forall|k: int|
            #[trigger] tenant_one_time_plan_count(cfg, ot_plans, s.push(e), e.shop_domain@, k)
                == tenant_one_time_plan_count(cfg, ot_plans, s, e.shop_domain@, k)
                + if counted_one_time_plan(cfg, ot_plans, e, k) {
                1int
            } else {
                0int
            },
        forall|d: Seq<char>, cat: Category|
            d != e.shop_domain@ ==> #[trigger] tenant_count_cat(cfg, s.push(e), d, cat)
                == tenant_count_cat(cfg, s, d, cat),
        forall|d: Seq<char>|
            d != e.shop_domain@ ==> #[trigger] tenant_install_events(cfg, s.push(e), d)
                == tenant_install_events(cfg, s, d),
        forall|d: Seq<char>|
            d != e.shop_domain@ ==> #[trigger] tenant_sub_events(cfg, s.push(e), d)
                == tenant_sub_events(cfg, s, d),
        forall|d: Seq<char>|
            d != e.shop_domain@ ==> #[trigger] tenant_one_time_events(cfg, s.push(e), d)
                == tenant_one_time_events(cfg, s, d),
        forall|d: Seq<char>, k: int|
            d != e.shop_domain@ ==> #[trigger] tenant_one_time_plan_count(
                cfg,
                ot_plans,
                s.push(e),
                d,
                k,
            ) == tenant_one_time_plan_count(cfg, ot_plans, s, d, k),
{
    let s2 = s.push(e);
    assert(s2.drop_last() =~= s);
    assert(s2.last() == e);
}

/// Skipping an event leaves a matching tenant collection matching.
proof fn lemma_merchants_skip(
    cfg: MatchCfg,
    ot_plans: Seq<PricingUnit>,
    s: Seq<AppEvent>,
    e: AppEvent,
    ms: Seq<MerchantData>,
)
    requires
        !relevant(cfg, e),
        merchants_match_model(cfg, ot_plans, s, ms),
    ensures
        merchants_match_model(cfg, ot_plans, s.push(e), ms),
{
    lemma_step_skip(cfg, ot_plans, s, e);
    let s2 = s.push(e);
    assert forall|j: int|
        0 <= j < ms.len() implies (#[trigger] ms[j]).shop_domain@ == doms(cfg, s2)[j]
        && merchant_matches_model(cfg, ot_plans, s2, ms[j]) by {
        let d = ms[j].shop_domain@;
        assert(merchant_matches_model(cfg, ot_plans, s, ms[j]));
        assert forall|k: int|
            0 <= k < ot_plans.len() implies (#[trigger] ms[j].one_time_details@[k]).code@
            == ot_plans[k].code@ && ms[j].one_time_details@[k].count == tenant_one_time_plan_count(
            cfg,
            ot_plans,
            s2,
            d,
            k,
        ) by {
            assert(tenant_one_time_plan_count(cfg, ot_plans, s2, d, k)
                == tenant_one_time_plan_count(cfg, ot_plans, s, d, k));
        }
    }
}

/// Skipping an event leaves matching totals matching.
proof fn lemma_totals_skip(
    cfg: MatchCfg,
    ot_plans: Seq<PricingUnit>,
    sub_plans: Seq<PricingUnit>,
    s: Seq<AppEvent>,
    e: AppEvent,
    t: TotalStats,
)
    requires
        !relevant(cfg, e),
        totals_match_model(cfg, ot_plans, sub_plans, s, t),
    ensures
        totals_match_model(cfg, ot_plans, sub_plans, s.push(e), t),
{
    lemma_step_skip(cfg, ot_plans, s, e);
    let s2 = s.push(e);
    assert forall|k: int|
        0 <= k < ot_plans.len() implies (#[trigger] t.one_time_details@[k]).code@
        == ot_plans[k].code@ && t.one_time_details@[k].count == count_one_time_plan(
        cfg,
        ot_plans,
        s2,
        k,
    ) by {
        assert(count_one_time_plan(cfg, ot_plans, s2, k) == count_one_time_plan(cfg, ot_plans, s, k));
    }
}

/// Apply one event to both aggregate structures: evaluate exclusion,
/// classify, and per category step the counters of both scopes and retain
/// the event on the tenant, creating the tenant record on its first event.
fn apply_event(
    total_stats: &mut TotalStats,
    merchant_list: &mut MerchantDataList,
    e: &AppEvent,
    cdefs: &CompiledDefs,
    prefix: Ghost<Seq<AppEvent>>,
) -> (r: Result<(), AnalyzeError>)
    requires
        cdefs.wf(),
        prefix@.len() < COUNT_LIMIT,
        totals_match_model(
            cdefs.cfg(),
            cdefs.one_times@,
            cdefs.subscriptions@,
            prefix@,
            *old(total_stats),
        ),
        merchants_match_model(cdefs.cfg(), cdefs.one_times@, prefix@, old(merchant_list).merchants@),
    ensures
        r is Ok,
        totals_match_model(
            cdefs.cfg(),
            cdefs.one_times@,
            cdefs.subscriptions@,
            prefix@.push(*e),
            *final(total_stats),
        ),
        merchants_match_model(
            cdefs.cfg(),
            cdefs.one_times@,
            prefix@.push(*e),
            final(merchant_list).merchants@,
        ),
        final(total_stats).start_time == old(total_stats).start_time,
        final(total_stats).end_time == old(total_stats).end_time,
        final(total_stats).start_time_str == old(total_stats).start_time_str,
        final(total_stats).end_time_str == old(total_stats).end_time_str,
        final(total_stats).total_churn_rate == old(total_stats).total_churn_rate,
        final(total_stats).churn_rate == old(total_stats).churn_rate,
        final(total_stats).merchant_growth == old(total_stats).merchant_growth,
        final(total_stats).sub_growth == old(total_stats).sub_growth,
        final(total_stats).paid_growth == old(total_stats).paid_growth,
        final(merchant_list).start_time == old(merchant_list).start_time,
        final(merchant_list).end_time == old(merchant_list).end_time,
{
    let ghost cfg = cdefs.cfg();
    let ghost ot = cdefs.one_times@;
    let ghost subp = cdefs.subscriptions@;
    let ghost p = prefix@;
    let ghost p2 = prefix@.push(*e);

    // Exclusion comes first: a dropped record touches no state at all.
    if cdefs.is_excluded(e) {
        proof {
            lemma_totals_skip(cfg, ot, subp, p, *e, *total_stats);
            lemma_merchants_skip(cfg, ot, p, *e, merchant_list.merchants@);
        }
        return Ok(());
    }
    let cat = cdefs.classify(e);
    if cat == Category::Unclassified {
        proof {
            lemma_totals_skip(cfg, ot, subp, p, *e, *total_stats);
            lemma_merchants_skip(cfg, ot, p, *e, merchant_list.merchants@);
        }
        return Ok(());
    }
    let ghost d0 = e.shop_domain@;
    proof {
        assert(relevant(cfg, *e));
        lemma_step_relevant(cfg, ot, p, *e);
        lemma_doms_distinct(cfg, p);
    }

    // Look up the tenant record, creating it on the tenant's first event.
    let j: usize = match merchant_list.find_index(e.shop_domain.as_str()) {
        Some(j) => {
            proof {
                crate::merchant::lemma_find_domain_some(merchant_list.merchants@, d0, 0);
                assert(doms(cfg, p)[j as int] == d0);
                assert(doms(cfg, p).contains(d0));
            }
            j
        },
        None => {
            proof {
                crate::merchant::lemma_find_domain_none(merchant_list.merchants@, d0, 0);
                assert(!doms(cfg, p).contains(d0)) by {
                    if doms(cfg, p).contains(d0) {
                        let w = choose|w: int|
                            0 <= w < doms(cfg, p).len() && doms(cfg, p)[w] == d0;
                        assert(merchant_list.merchants@[w].shop_domain@ == doms(cfg, p)[w]);
                    }
                }
                lemma_absent_domain_empty(cfg, ot, p, d0);
            }
            let nm = MerchantData::new(&e.shop_domain, &cdefs.one_times);
            proof {
                assert(merchant_matches_model(cfg, ot, p, nm)) by {
                    assert(nm.installing_events@ =~= tenant_install_events(cfg, p, d0));
                    assert(nm.subscription_events@ =~= tenant_sub_events(cfg, p, d0));
                    assert(nm.one_time_events@ =~= tenant_one_time_events(cfg, p, d0));
                }
            }
            merchant_list.merchants.push(nm);
            merchant_list.merchants.len() - 1
        },
    };
    let ghost ms_b = merchant_list.merchants@;
    proof {
        // In both cases the record at `j` is the tenant of this event and
        // matches the model of the processed prefix, every record's domain
        // still mirrors the (possibly extended) domain list of `p2`, and
        // the domains of the other records differ from this event's.
        assert(ms_b.len() == doms(cfg, p2).len());
        assert(forall|j2: int|
            0 <= j2 < ms_b.len() ==> (#[trigger] ms_b[j2]).shop_domain@ == doms(cfg, p2)[j2]);
        assert(ms_b[j as int].shop_domain@ == d0);
        assert(forall|j2: int|
            0 <= j2 < ms_b.len() ==> merchant_matches_model(cfg, ot, p, ms_b[j2]));
        assert forall|j2: int| 0 <= j2 < ms_b.len() && j2 != j implies (#[trigger] ms_b[j2]).shop_domain@
            != d0 by {
            if doms(cfg, p).contains(d0) {
                assert(doms(cfg, p2) == doms(cfg, p));
            } else {
                assert(doms(cfg, p2) == doms(cfg, p).push(d0));
                if j2 < ms_b.len() - 1 {
                    assert(doms(cfg, p2)[j2] == doms(cfg, p)[j2]);
                    assert(doms(cfg, p).contains(doms(cfg, p)[j2]));
                }
            }
        }
        lemma_count_cat_bounds(cfg, p, category_of(*e));
        lemma_tenant_count_cat_bounds(cfg, p, d0, category_of(*e));
    }

    match cat {
        Category::Install => {
            total_stats.increase_installed_count(1);
            let m = &mut merchant_list.merchants[j];
            m.increase_installed_count(1);
            m.push_installing_event(e);
            proof {
                assert(merchant_matches_model(cfg, ot, p2, merchant_list.merchants@[j as int]))
                    by {
                    step_plan_counts_unchanged(cfg, ot, p, *e, d0);
                }
            }
        },
        Category::Uninstall => {
            total_stats.increase_uninstalled_count(1);
            let m = &mut merchant_list.merchants[j];
            m.increase_uninstalled_count(1);
            m.push_installing_event(e);
            proof {
                assert(merchant_matches_model(cfg, ot, p2, merchant_list.merchants@[j as int]))
                    by {
                    step_plan_counts_unchanged(cfg, ot, p, *e, d0);
                }
            }
        },
        Category::StoreClosed => {
            total_stats.increase_store_closed_count(1);
            let m = &mut merchant_list.merchants[j];
            m.increase_store_closed_count(1);
            m.push_installing_event(e);
            proof {
                assert(merchant_matches_model(cfg, ot, p2, merchant_list.merchants@[j as int]))
                    by {
                    step_plan_counts_unchanged(cfg, ot, p, *e, d0);
                }
            }
        },
        Category::StoreReopened => {
            total_stats.increase_store_reopened_count(1);
            let m = &mut merchant_list.merchants[j];
            m.increase_store_reopened_count(1);
            m.push_installing_event(e);
            proof {
                assert(merchant_matches_model(cfg, ot, p2, merchant_list.merchants@[j as int]))
                    by {
                    step_plan_counts_unchanged(cfg, ot, p, *e, d0);
                }
            }
        },
        Category::OneTimePurchase => {
            total_stats.increase_one_time_count(1);
            let plan_idx = cdefs.find_one_time_plan(e.details.as_str());
            let m = &mut merchant_list.merchants[j];
            m.increase_one_time_count(1);
            m.push_one_time_event(e);
            match plan_idx {
                Some(k) => {
                    proof {
                        lemma_find_code_seeded(total_stats.one_time_details@, ot, k as int);
                        lemma_find_code_seeded(m.one_time_details@, ot, k as int);
                        lemma_count_one_time_plan_bounds(cfg, ot, p, k as int);
                        lemma_tenant_one_time_plan_count_bounds(cfg, ot, p, d0, k as int);
                    }
                    let res1 = total_stats.increase_one_time_pack_count(&cdefs.one_times[k], 1);
                    if let Err(err) = res1 {
                        return Err(err);
                    }
                    let res2 = m.increase_one_time_pack_count(&cdefs.one_times[k], 1);
                    if let Err(err) = res2 {
                        return Err(err);
                    }
                },
                None => {},
            }
            proof {
                assert(merchant_matches_model(cfg, ot, p2, merchant_list.merchants@[j as int]))
                    by {
                    assert forall|k2: int| 0 <= k2 < ot.len() implies (#[trigger] merchant_list
                        .merchants@[j as int].one_time_details@[k2]).code@ == ot[k2].code@
                        && merchant_list.merchants@[j as int].one_time_details@[k2].count
                        == tenant_one_time_plan_count(cfg, ot, p2, d0, k2) by {
                        assert(tenant_one_time_plan_count(cfg, ot, p2, d0, k2)
                            == tenant_one_time_plan_count(cfg, ot, p, d0, k2)
                            + if counted_one_time_plan(cfg, ot, *e, k2) {
                            1int
                        } else {
                            0int
                        });
                    }
                }
            }
        },
        Category::SubscriptionActivated => {
            let m = &mut merchant_list.merchants[j];
            m.increase_subscription_activated_count(1);
            m.push_subscription_event(e);
            proof {
                assert(merchant_matches_model(cfg, ot, p2, merchant_list.merchants@[j as int]))
                    by {
                    step_plan_counts_unchanged(cfg, ot, p, *e, d0);
                }
            }
        },
        Category::SubscriptionCanceled => {
            let m = &mut merchant_list.merchants[j];
            m.increase_subscription_canceled_count(1);
            m.push_subscription_event(e);
            proof {
                assert(merchant_matches_model(cfg, ot, p2, merchant_list.merchants@[j as int]))
                    by {
                    step_plan_counts_unchanged(cfg, ot, p, *e, d0);
                }
            }
        },
        Category::Unclassified => {
            // Ruled out before the tenant lookup.
            proof {
                assert(false);
            }
        },
    }

    proof {
        let ms2 = merchant_list.merchants@;
        assert(ms2.len() == ms_b.len());
        assert(merchants_match_model(cfg, ot, p2, ms2)) by {
            assert forall|j2: int|
                0 <= j2 < ms2.len() implies (#[trigger] ms2[j2]).shop_domain@ == doms(cfg, p2)[j2]
                && merchant_matches_model(cfg, ot, p2, ms2[j2]) by {
                if j2 != j {
                    assert(ms2[j2] == ms_b[j2]);
                    let d = ms_b[j2].shop_domain@;
                    assert(d != d0);
                    assert(merchant_matches_model(cfg, ot, p, ms_b[j2]));
                    assert forall|k: int|
                        0 <= k < ot.len() implies (#[trigger] ms2[j2].one_time_details@[k]).code@
                        == ot[k].code@ && ms2[j2].one_time_details@[k].count
                        == tenant_one_time_plan_count(cfg, ot, p2, d, k) by {
                        assert(tenant_one_time_plan_count(cfg, ot, p2, d, k)
                            == tenant_one_time_plan_count(cfg, ot, p, d, k));
                    }
                }
            }
        }
        assert(totals_match_model(cfg, ot, subp, p2, *total_stats)) by {
            assert forall|k: int|
                0 <= k < ot.len() implies (#[trigger] total_stats.one_time_details@[k]).code@
                == ot[k].code@ && total_stats.one_time_details@[k].count == count_one_time_plan(
                cfg,
                ot,
                p2,
                k,
            ) by {
                assert(count_one_time_plan(cfg, ot, p2, k) == count_one_time_plan(cfg, ot, p, k)
                    + if counted_one_time_plan(cfg, ot, *e, k) {
                    1int
                } else {
                    0int
                });
            }
        }
    }
    Ok(())
}

/// The total churn rate the single pass derives: uninstalls over installs,
/// zero when nothing was installed.
pub open spec fn spec_total_churn_rate(installed: int, uninstalled: int) -> Percent {
    if installed > 0 {
        Percent { num: uninstalled as i64, den: installed as u64 }
    } else {
        Percent { num: 0, den: 0 }
    }
}

/// Everything the single pass promises of its two results.
pub open spec fn base_data_ok(
    cdefs: CompiledDefs,
    s: Seq<AppEvent>,
    t: TotalStats,
    list: MerchantDataList,
) -> bool {
    let cfg = cdefs.cfg();
    &&& totals_match_model(cfg, cdefs.one_times@, cdefs.subscriptions@, s, t)
    &&& merchants_match_model(cfg, cdefs.one_times@, s, list.merchants@)
    &&& s.len() > 0
    &&& t.start_time == s[0].time
    &&& t.end_time == s[s.len() - 1].time
    &&& t.start_time_str@ == (match s[0].time {
        Some(dt) => pretty_date(dt),
        None => "None"@,
    })
    &&& t.end_time_str@ == (match s[s.len() - 1].time {
        Some(dt) => pretty_date(dt),
        None => "None"@,
    })
    &&& list.start_time == s[0].time
    &&& list.end_time == s[s.len() - 1].time
    &&& t.merchant_growth == count_cat(cfg, s, Category::Install) + count_cat(
        cfg,
        s,
        Category::StoreReopened,
    ) - count_cat(cfg, s, Category::Uninstall) - count_cat(cfg, s, Category::StoreClosed)
    &&& t.total_churn_rate == spec_total_churn_rate(
        count_cat(cfg, s, Category::Install),
        count_cat(cfg, s, Category::Uninstall),
    )
    &&& t.churn_rate == (Percent { num: 0, den: 0 })
    &&& t.sub_growth == 0
    &&& t.paid_growth == 0
}

/// The single pass: fold the event stream, in arrival order, into fresh
/// global and per-tenant state, then derive the two global-only metrics
/// that need no per-tenant detail. Fails exactly on an empty event list.
pub fn build_base_data(app_event_list: &Vec<AppEvent>, cdefs: &CompiledDefs) -> (r: Result<
    (TotalStats, MerchantDataList),
    AnalyzeError,
>)
    requires
        cdefs.wf(),
        app_event_list@.len() <= COUNT_LIMIT,
    ensures
        r is Ok <==> app_event_list@.len() > 0,
        r matches Err(err) ==> err == AnalyzeError::EmptyEventList,
        r matches Ok(t) ==> base_data_ok(*cdefs, app_event_list@, t.0, t.1),
{
    let ghost cfg = cdefs.cfg();
    let ghost s = app_event_list@;
    let n = app_event_list.len();
    if n == 0 {
        return Err(AnalyzeError::EmptyEventList);
    }
    let mut merchant_list = MerchantDataList::new();
    let mut total_stats = crate::stats::fresh_total_stats(&cdefs.subscriptions, &cdefs.one_times);

    total_stats.start_time = app_event_list[0].time;
    total_stats.end_time = app_event_list[n - 1].time;
    merchant_list.start_time = app_event_list[0].time;
    merchant_list.end_time = app_event_list[n - 1].time;
    total_stats.build_pretty_time_str();

    proof {
        assert(s.take(0) =~= Seq::<AppEvent>::empty());
    }
    for i in 0..n
        invariant
            s == app_event_list@,
            n == s.len(),
            0 < n <= COUNT_LIMIT,
            cdefs.wf(),
            totals_match_model(
                cdefs.cfg(),
                cdefs.one_times@,
                cdefs.subscriptions@,
                s.take(i as int),
                total_stats,
            ),
            merchants_match_model(
                cdefs.cfg(),
                cdefs.one_times@,
                s.take(i as int),
                merchant_list.merchants@,
            ),
            total_stats.start_time == s[0].time,
            total_stats.end_time == s[n - 1].time,
            total_stats.start_time_str@ == (match s[0].time {
                Some(dt) => pretty_date(dt),
                None => "None"@,
            }),
            total_stats.end_time_str@ == (match s[n - 1].time {
                Some(dt) => pretty_date(dt),
                None => "None"@,
            }),
            total_stats.total_churn_rate == (Percent { num: 0, den: 0 }),
            total_stats.churn_rate == (Percent { num: 0, den: 0 }),
            total_stats.merchant_growth == 0,
            total_stats.sub_growth == 0,
            total_stats.paid_growth == 0,
            merchant_list.start_time == s[0].time,
            merchant_list.end_time == s[n - 1].time,
    {
        let res = apply_event(
            &mut total_stats,
            &mut merchant_list,
            &app_event_list[i],
            cdefs,
            Ghost(s.take(i as int)),
        );
        if let Err(err) = res {
            return Err(err);
        }
        proof {
            assert(s.take(i as int).push(s[i as int]) =~= s.take(i as int + 1));
        }
    }
    proof {
        assert(s.take(n as int) =~= s);
        lemma_count_cat_bounds(cfg, s, Category::Install);
        lemma_count_cat_bounds(cfg, s, Category::Uninstall);
        lemma_count_cat_bounds(cfg, s, Category::StoreClosed);
        lemma_count_cat_bounds(cfg, s, Category::StoreReopened);
    }

    // The two global-only metrics that need no per-tenant detail.
    let growth: i64 = total_stats.installed_count as i64 + total_stats.store_reopened_count as i64
        - total_stats.uninstalled_count as i64 - total_stats.store_closed_count as i64;
    total_stats.merchant_growth = growth;
    total_stats.total_churn_rate = if total_stats.installed_count > 0 {
        Percent { num: total_stats.uninstalled_count as i64, den: total_stats.installed_count }
    } else {
        Percent { num: 0, den: 0 }
    };

    Ok((total_stats, merchant_list))
}

/// The churn rate the finalizer derives: uninstalls that happened inside
/// the observation window (pre-existing uninstalls excluded) over installs,
/// zero when nothing was installed.
pub open spec fn spec_churn_rate(installed: int, uninstalled: int, old_uninstalled: int) -> Percent {
    if installed > 0 {
        Percent { num: (uninstalled - old_uninstalled) as i64, den: installed as u64 }
    } else {
        Percent { num: 0, den: 0 }
    }
}

/// The derived global metrics, recomputed from the accumulated counters: a
/// pure function of them, so recomputing is idempotent.
pub open spec fn with_derived(t: TotalStats) -> TotalStats {
    TotalStats {
        churn_rate: spec_churn_rate(
            t.installed_count as int,
            t.uninstalled_count as int,
            t.old_uninstalled_count as int,
        ),
        sub_growth: (t.new_sub_count - t.canceled_sub_count) as i64,
        paid_growth: (t.new_sub_count - t.canceled_sub_count + t.one_time_count) as i64,
        ..t
    }
}

/// Recompute the derived scalar metrics from the accumulated counters.
fn recompute_derived(total_stats: &mut TotalStats)
    requires
        old(total_stats).installed_count <= COUNT_LIMIT,
        old(total_stats).uninstalled_count <= COUNT_LIMIT,
        old(total_stats).old_uninstalled_count <= 2 * COUNT_LIMIT,
        old(total_stats).new_sub_count <= 2 * COUNT_LIMIT,
        old(total_stats).canceled_sub_count <= 2 * COUNT_LIMIT,
        old(total_stats).one_time_count <= COUNT_LIMIT,
    ensures
        *final(total_stats) == with_derived(*old(total_stats)),
{
    total_stats.churn_rate = if total_stats.installed_count > 0 {
        Percent {
            num: total_stats.uninstalled_count as i64 - total_stats.old_uninstalled_count as i64,
            den: total_stats.installed_count,
        }
    } else {
        Percent { num: 0, den: 0 }
    };
    total_stats.sub_growth = total_stats.new_sub_count as i64
        - total_stats.canceled_sub_count as i64;
    total_stats.paid_growth = total_stats.sub_growth + total_stats.one_time_count as i64;
}

/// Overwrite one cycle's growth map with all-new minus all-canceled,
/// pointwise over the pre-seeded plan codes.
fn growth_counts(all_new: &Vec<PlanCount>, all_canceled: &Vec<PlanCount>) -> (r: Vec<PlanCount>)
    requires
        all_new@.len() == all_canceled@.len(),
        crate::stats::counts_bounded(all_new@, 2 * COUNT_LIMIT),
        crate::stats::counts_bounded(all_canceled@, 2 * COUNT_LIMIT),
    ensures
        r@.len() == all_new@.len(),
        forall|k: int|
            0 <= k < r@.len() ==> (#[trigger] r@[k]).code@ == all_new@[k].code@ && r@[k].count
                == all_new@[k].count - all_canceled@[k].count,
{
    let mut out: Vec<PlanCount> = Vec::new();
    let n = all_new.len();
    for i in 0..n
        invariant
            n == all_new@.len(),
            all_new@.len() == all_canceled@.len(),
            crate::stats::counts_bounded(all_new@, 2 * COUNT_LIMIT),
            crate::stats::counts_bounded(all_canceled@, 2 * COUNT_LIMIT),
            out@.len() == i,
            forall|k: int|
                0 <= k < i ==> (#[trigger] out@[k]).code@ == all_new@[k].code@ && out@[k].count
                    == all_new@[k].count - all_canceled@[k].count,
    {
        out.push(
            PlanCount {
                code: all_new[i].code.clone(),
                count: all_new[i].count - all_canceled[i].count,
            },
        );
    }
    out
}

/// Recompute the per-plan net growth breakdown, monthly and yearly
/// independently, overwriting the growth maps.
fn recompute_sub_growth(details: &mut crate::stats::DetailedSubscriptionStats)
    requires
        ({
            let o = *old(details);
            &&& o.all_new_sub.monthly_counts@.len() == o.all_canceled_sub.monthly_counts@.len()
            &&& o.all_new_sub.yearly_counts@.len() == o.all_canceled_sub.yearly_counts@.len()
            &&& o.all_new_sub.bounded(2 * COUNT_LIMIT)
            &&& o.all_canceled_sub.bounded(2 * COUNT_LIMIT)
        }),
    ensures
        *final(details) == (crate::stats::DetailedSubscriptionStats {
            sub_growth: final(details).sub_growth,
            ..*old(details)
        }),
        ({
            let o = *old(details);
            let g = final(details).sub_growth;
            &&& g.monthly_counts@.len() == o.all_new_sub.monthly_counts@.len()
            &&& g.yearly_counts@.len() == o.all_new_sub.yearly_counts@.len()
            &&& forall|k: int|
                0 <= k < g.monthly_counts@.len() ==> (#[trigger] g.monthly_counts@[k]).code@
                    == o.all_new_sub.monthly_counts@[k].code@ && g.monthly_counts@[k].count
                    == o.all_new_sub.monthly_counts@[k].count
                    - o.all_canceled_sub.monthly_counts@[k].count
            &&& forall|k: int|
                0 <= k < g.yearly_counts@.len() ==> (#[trigger] g.yearly_counts@[k]).code@
                    == o.all_new_sub.yearly_counts@[k].code@ && g.yearly_counts@[k].count
                    == o.all_new_sub.yearly_counts@[k].count
                    - o.all_canceled_sub.yearly_counts@[k].count
        }),
{
    let monthly = growth_counts(
        &details.all_new_sub.monthly_counts,
        &details.all_canceled_sub.monthly_counts,
    );
    let yearly = growth_counts(
        &details.all_new_sub.yearly_counts,
        &details.all_canceled_sub.yearly_counts,
    );
    details.sub_growth = crate::stats::SubscriptionStatsCounter {
        monthly_counts: monthly,
        yearly_counts: yearly,
    };
}

/// The per-tenant counter bounds under which the finalizer's arithmetic
/// cannot overflow.
pub open spec fn merchant_counts_bounded(m: MerchantData, b: int) -> bool {
    &&& m.installed_count <= b
    &&& m.uninstalled_count <= b
    &&& m.store_closed_count <= b
    &&& m.store_reopened_count <= b
    &&& m.subscription_activated_count <= b
    &&& m.subscription_canceled_count <= b
}

/// One attribution step on a per-plan counter pair: the codes and lengths
/// are kept, and exactly the attributed (plan, cycle) entry, if any, grew by
/// one.
pub open spec fn counter_stepped(
    c0: crate::stats::SubscriptionStatsCounter,
    c1: crate::stats::SubscriptionStatsCounter,
    nplans: int,
    attr: Option<(int, BillingCycle)>,
) -> bool {
    &&& c1.monthly_counts@.len() == c0.monthly_counts@.len()
    &&& c1.yearly_counts@.len() == c0.yearly_counts@.len()
    &&& forall|k: int|
        0 <= k < c0.monthly_counts@.len() ==> (#[trigger] c1.monthly_counts@[k]).code
            == c0.monthly_counts@[k].code
    &&& forall|k: int|
        0 <= k < c0.yearly_counts@.len() ==> (#[trigger] c1.yearly_counts@[k]).code
            == c0.yearly_counts@[k].code
    &&& forall|k: int, cyc: BillingCycle|
        0 <= k < nplans ==> #[trigger] c1.at(cyc, k) == c0.at(cyc, k) + if attr == Some((k, cyc)) {
            1int
        } else {
            0int
        }
}

/// The finalizer's first step on one tenant: set both status labels by the
/// delta rules, stepping the global status counters.
fn set_statuses(m: &mut MerchantData, total_stats: &mut TotalStats)
    requires
        merchant_counts_bounded(*old(m), COUNT_LIMIT as int),
        old(total_stats).old_uninstalled_count <= 2 * COUNT_LIMIT,
        old(total_stats).new_sub_count <= 2 * COUNT_LIMIT,
        old(total_stats).canceled_sub_count <= 2 * COUNT_LIMIT,
    ensures
        *final(m) == (MerchantData {
            installed_status: spec_installed_status(*old(m)),
            subscription_status: spec_subscription_status(*old(m)),
            ..*old(m)
        }),
        *final(total_stats) == (TotalStats {
            old_uninstalled_count: final(total_stats).old_uninstalled_count,
            new_sub_count: final(total_stats).new_sub_count,
            canceled_sub_count: final(total_stats).canceled_sub_count,
            ..*old(total_stats)
        }),
        final(total_stats).old_uninstalled_count == old(total_stats).old_uninstalled_count
            + if is_old_uninstall(*old(m)) {
            1int
        } else {
            0int
        },
        final(total_stats).new_sub_count == old(total_stats).new_sub_count + if sub_delta(
            *old(m),
        ) > 0 {
            1int
        } else {
            0int
        },
        final(total_stats).canceled_sub_count == old(total_stats).canceled_sub_count
            + if sub_delta(*old(m)) < 0 {
            1int
        } else {
            0int
        },
{
    // Installed status from the install-family delta, with the
    // pre-existing-uninstall upgrade.
    let delta: i64 = m.installed_count as i64 + m.store_reopened_count as i64
        - m.uninstalled_count as i64 - m.store_closed_count as i64;
    if delta > 0 {
        m.installed_status = InstalledStatus::Installed;
    } else if delta < 0 {
        m.installed_status = InstalledStatus::Uninstalled;
        if m.installing_events.len() > 0 && crate::pattern::str_eq(
            m.installing_events[0].event.as_str(),
            "Uninstalled",
        ) {
            m.installed_status = InstalledStatus::UninstalledOld;
            total_stats.increase_old_uninstalled_count(1);
        }
    } else {
        m.installed_status = InstalledStatus::Unset;
    }

    // Subscription status from the subscription delta.
    let sdelta: i64 = m.subscription_activated_count as i64
        - m.subscription_canceled_count as i64;
    if sdelta > 0 {
        m.subscription_status = SubscriptionStatus::Active;
        total_stats.increase_new_sub_count(1);
    } else if sdelta < 0 {
        m.subscription_status = SubscriptionStatus::Canceled;
        total_stats.increase_canceled_sub_count(1);
    } else {
        m.subscription_status = SubscriptionStatus::Unset;
    }
}

/// Attribute the tenant's latest activation: scan the retained subscription
/// events in reverse arrival order, stop at the first activation, attribute
/// it to the first matching subscription plan and a billing cycle, and step
/// the all-new counter, plus the net-new counter for an active tenant.
#[verifier::rlimit(100)]
fn attribute_new(
    m: &mut MerchantData,
    total_stats: &mut TotalStats,
    cdefs: &CompiledDefs,
) -> (r: Result<(), AnalyzeError>)
    requires
        cdefs.wf(),
        old(total_stats).sub_stats_details.seeded(cdefs.subscriptions@),
        old(total_stats).sub_stats_details.all_new_sub.bounded(2 * COUNT_LIMIT),
        old(total_stats).sub_stats_details.new_sub.bounded(2 * COUNT_LIMIT),
    ensures
        r is Ok,
        ({
            let m0 = *old(m);
            let attr = new_sub_attr(cdefs.case_sensitive, cdefs.subscriptions@, m0);
            &&& *final(m) == (MerchantData {
                last_new_sub_plan: match attr {
                    Some((p, _)) => Some(cdefs.subscriptions@[p]),
                    None => m0.last_new_sub_plan,
                },
                last_new_sub_billing_cycle: match attr {
                    Some((_, c)) => Some(c),
                    None => m0.last_new_sub_billing_cycle,
                },
                ..m0
            })
        }),
        ({
            let t0 = *old(total_stats);
            let t1 = *final(total_stats);
            let np = cdefs.subscriptions@.len() as int;
            let attr = new_sub_attr(cdefs.case_sensitive, cdefs.subscriptions@, *old(m));
            &&& t1 == (TotalStats { sub_stats_details: t1.sub_stats_details, ..t0 })
            &&& t1.sub_stats_details == (crate::stats::DetailedSubscriptionStats {
                new_sub: t1.sub_stats_details.new_sub,
                all_new_sub: t1.sub_stats_details.all_new_sub,
                ..t0.sub_stats_details
            })
            &&& counter_stepped(
                t0.sub_stats_details.all_new_sub,
                t1.sub_stats_details.all_new_sub,
                np,
                attr,
            )
            &&& counter_stepped(
                t0.sub_stats_details.new_sub,
                t1.sub_stats_details.new_sub,
                np,
                if old(m).subscription_status == SubscriptionStatus::Active {
                    attr
                } else {
                    None
                },
            )
        }),
{
    let ghost subp = cdefs.subscriptions@;
    let ghost subs = m.subscription_events@;
    let ns = m.subscription_events.len();
    let mut act_idx: Option<usize> = None;
    let mut ii: usize = ns;
    while act_idx.is_none() && ii > 0
        invariant
            cdefs.wf(),
            subs == m.subscription_events@,
            ns == subs.len(),
            ii <= ns,
            match act_idx {
                Some(a) => a < ns && last_activation(subs) == Some(a as int),
                None => last_activation(subs) == last_activation_before(subs, ii as int),
            },
        decreases ii,
    {
        let probe = ii - 1;
        let c = cdefs.classify(&m.subscription_events[probe]);
        if c == Category::SubscriptionActivated {
            act_idx = Some(probe);
        }
        ii = probe;
    }
    if let Some(a) = act_idx {
        let details_str = m.subscription_events[a].details.clone();
        let plan_idx = cdefs.find_subscription_plan(details_str.as_str());
        if let Some(p) = plan_idx {
            let cyc = if cdefs.is_yearly(details_str.as_str()) {
                BillingCycle::Yearly
            } else {
                BillingCycle::Monthly
            };
            m.last_new_sub_plan = Some(cdefs.subscriptions[p].duplicate());
            m.last_new_sub_billing_cycle = Some(cyc);
            proof {
                lemma_find_code_seeded(
                    total_stats.sub_stats_details.all_new_sub.monthly_counts@,
                    subp,
                    p as int,
                );
                lemma_find_code_seeded(
                    total_stats.sub_stats_details.all_new_sub.yearly_counts@,
                    subp,
                    p as int,
                );
            }
            let res = total_stats.sub_stats_details.all_new_sub.increase(
                &cdefs.subscriptions[p],
                &cyc,
                1,
            );
            if let Err(err) = res {
                return Err(err);
            }
            if m.subscription_status == SubscriptionStatus::Active {
                proof {
                    lemma_find_code_seeded(
                        total_stats.sub_stats_details.new_sub.monthly_counts@,
                        subp,
                        p as int,
                    );
                    lemma_find_code_seeded(
                        total_stats.sub_stats_details.new_sub.yearly_counts@,
                        subp,
                        p as int,
                    );
                }
                let res2 = total_stats.sub_stats_details.new_sub.increase(
                    &cdefs.subscriptions[p],
                    &cyc,
                    1,
                );
                if let Err(err) = res2 {
                    return Err(err);
                }
            }
        }
    }
    Ok(())
}

/// Attribute the tenant's earliest cancellation: the mirror of the latest
/// activation, scanning forward, stepping the all-canceled counter, plus the
/// net-canceled counter for a canceled tenant.
#[verifier::rlimit(100)]
fn attribute_canceled(
    m: &mut MerchantData,
    total_stats: &mut TotalStats,
    cdefs: &CompiledDefs,
) -> (r: Result<(), AnalyzeError>)
    requires
        cdefs.wf(),
        old(total_stats).sub_stats_details.seeded(cdefs.subscriptions@),
        old(total_stats).sub_stats_details.all_canceled_sub.bounded(2 * COUNT_LIMIT),
        old(total_stats).sub_stats_details.canceled_sub.bounded(2 * COUNT_LIMIT),
    ensures
        r is Ok,
        ({
            let m0 = *old(m);
            let cattr = canceled_sub_attr(cdefs.case_sensitive, cdefs.subscriptions@, m0);
            &&& *final(m) == (MerchantData {
                first_canceled_sub_plan: match cattr {
                    Some((p, _)) => Some(cdefs.subscriptions@[p]),
                    None => m0.first_canceled_sub_plan,
                },
                first_canceled_sub_billing_cycle: match cattr {
                    Some((_, c)) => Some(c),
                    None => m0.first_canceled_sub_billing_cycle,
                },
                ..m0
            })
        }),
        ({
            let t0 = *old(total_stats);
            let t1 = *final(total_stats);
            let np = cdefs.subscriptions@.len() as int;
            let cattr = canceled_sub_attr(cdefs.case_sensitive, cdefs.subscriptions@, *old(m));
            &&& t1 == (TotalStats { sub_stats_details: t1.sub_stats_details, ..t0 })
            &&& t1.sub_stats_details == (crate::stats::DetailedSubscriptionStats {
                canceled_sub: t1.sub_stats_details.canceled_sub,
                all_canceled_sub: t1.sub_stats_details.all_canceled_sub,
                ..t0.sub_stats_details
            })
            &&& counter_stepped(
                t0.sub_stats_details.all_canceled_sub,
                t1.sub_stats_details.all_canceled_sub,
                np,
                cattr,
            )
            &&& counter_stepped(
                t0.sub_stats_details.canceled_sub,
                t1.sub_stats_details.canceled_sub,
                np,
                if old(m).subscription_status == SubscriptionStatus::Canceled {
                    cattr
                } else {
                    None
                },
            )
        }),
{
    let ghost subp = cdefs.subscriptions@;
    let ghost subs = m.subscription_events@;
    let ns = m.subscription_events.len();
    let mut canc_idx: Option<usize> = None;
    let mut fi: usize = 0;
    while canc_idx.is_none() && fi < ns
        invariant
            cdefs.wf(),
            subs == m.subscription_events@,
            ns == subs.len(),
            fi <= ns,
            match canc_idx {
                Some(a) => a < ns && first_cancellation(subs) == Some(a as int),
                None => first_cancellation(subs) == first_cancellation_from(subs, fi as int),
            },
        decreases ns - fi,
    {
        let c = cdefs.classify(&m.subscription_events[fi]);
        if c == Category::SubscriptionCanceled {
            canc_idx = Some(fi);
        }
        fi = fi + 1;
    }
    if let Some(a) = canc_idx {
        let details_str = m.subscription_events[a].details.clone();
        let plan_idx = cdefs.find_subscription_plan(details_str.as_str());
        if let Some(p) = plan_idx {
            let cyc = if cdefs.is_yearly(details_str.as_str()) {
                BillingCycle::Yearly
            } else {
                BillingCycle::Monthly
            };
            m.first_canceled_sub_plan = Some(cdefs.subscriptions[p].duplicate());
            m.first_canceled_sub_billing_cycle = Some(cyc);
            proof {
                lemma_find_code_seeded(
                    total_stats.sub_stats_details.all_canceled_sub.monthly_counts@,
                    subp,
                    p as int,
                );
                lemma_find_code_seeded(
                    total_stats.sub_stats_details.all_canceled_sub.yearly_counts@,
                    subp,
                    p as int,
                );
            }
            let res = total_stats.sub_stats_details.all_canceled_sub.increase(
                &cdefs.subscriptions[p],
                &cyc,
                1,
            );
            if let Err(err) = res {
                return Err(err);
            }
            if m.subscription_status == SubscriptionStatus::Canceled {
                proof {
                    lemma_find_code_seeded(
                        total_stats.sub_stats_details.canceled_sub.monthly_counts@,
                        subp,
                        p as int,
                    );
                    lemma_find_code_seeded(
                        total_stats.sub_stats_details.canceled_sub.yearly_counts@,
                        subp,
                        p as int,
                    );
                }
                let res2 = total_stats.sub_stats_details.canceled_sub.increase(
                    &cdefs.subscriptions[p],
                    &cyc,
                    1,
                );
                if let Err(err) = res2 {
                    return Err(err);
                }
            }
        }
    }
    Ok(())
}

/// The finalizer's work on one tenant: set the two status labels by the
/// delta rules, attribute the latest activation and the earliest
/// cancellation to a plan and billing cycle, and step the global counters
/// accordingly.
#[verifier::rlimit(100)]
fn finalize_merchant(
    m: &mut MerchantData,
    total_stats: &mut TotalStats,
    cdefs: &CompiledDefs,
) -> (r: Result<(), AnalyzeError>)
    requires
        cdefs.wf(),
        old(total_stats).sub_stats_details.seeded(cdefs.subscriptions@),
        old(total_stats).sub_stats_details.all_new_sub.bounded(2 * COUNT_LIMIT),
        old(total_stats).sub_stats_details.new_sub.bounded(2 * COUNT_LIMIT),
        old(total_stats).sub_stats_details.all_canceled_sub.bounded(2 * COUNT_LIMIT),
        old(total_stats).sub_stats_details.canceled_sub.bounded(2 * COUNT_LIMIT),
        old(total_stats).old_uninstalled_count <= 2 * COUNT_LIMIT,
        old(total_stats).new_sub_count <= 2 * COUNT_LIMIT,
        old(total_stats).canceled_sub_count <= 2 * COUNT_LIMIT,
        merchant_counts_bounded(*old(m), COUNT_LIMIT as int),
    ensures
        r is Ok,
        *final(m) == finalize_model(cdefs.case_sensitive, cdefs.subscriptions@, *old(m)),
        ({
            let t0 = *old(total_stats);
            let t1 = *final(total_stats);
            let m0 = *old(m);
            let np = cdefs.subscriptions@.len() as int;
            let attr = new_sub_attr(cdefs.case_sensitive, cdefs.subscriptions@, m0);
            let cattr = canceled_sub_attr(cdefs.case_sensitive, cdefs.subscriptions@, m0);
            &&& t1 == (TotalStats {
                old_uninstalled_count: t1.old_uninstalled_count,
                new_sub_count: t1.new_sub_count,
                canceled_sub_count: t1.canceled_sub_count,
                sub_stats_details: t1.sub_stats_details,
                ..t0
            })
            &&& t1.sub_stats_details == (crate::stats::DetailedSubscriptionStats {
                new_sub: t1.sub_stats_details.new_sub,
                all_new_sub: t1.sub_stats_details.all_new_sub,
                canceled_sub: t1.sub_stats_details.canceled_sub,
                all_canceled_sub: t1.sub_stats_details.all_canceled_sub,
                ..t0.sub_stats_details
            })
            &&& t1.old_uninstalled_count == t0.old_uninstalled_count + if is_old_uninstall(m0) {
                1int
            } else {
                0int
            }
            &&& t1.new_sub_count == t0.new_sub_count + if sub_delta(m0) > 0 {
                1int
            } else {
                0int
            }
            &&& t1.canceled_sub_count == t0.canceled_sub_count + if sub_delta(m0) < 0 {
                1int
            } else {
                0int
            }
            &&& counter_stepped(
                t0.sub_stats_details.all_new_sub,
                t1.sub_stats_details.all_new_sub,
                np,
                attr,
            )
            &&& counter_stepped(
                t0.sub_stats_details.new_sub,
                t1.sub_stats_details.new_sub,
                np,
                if sub_delta(m0) > 0 {
                    attr
                } else {
                    None
                },
            )
            &&& counter_stepped(
                t0.sub_stats_details.all_canceled_sub,
                t1.sub_stats_details.all_canceled_sub,
                np,
                cattr,
            )
            &&& counter_stepped(
                t0.sub_stats_details.canceled_sub,
                t1.sub_stats_details.canceled_sub,
                np,
                if sub_delta(m0) < 0 {
                    cattr
                } else {
                    None
                },
            )
        }),
{
    let ghost m0 = *m;
    let ghost subp = cdefs.subscriptions@;
    let ghost cs = cdefs.case_sensitive;

    set_statuses(m, total_stats);
    proof {
        assert(new_sub_attr(cs, subp, *m) == new_sub_attr(cs, subp, m0));
        assert(canceled_sub_attr(cs, subp, *m) == canceled_sub_attr(cs, subp, m0));
    }
    let res = attribute_new(m, total_stats, cdefs);
    if let Err(err) = res {
        return Err(err);
    }
    proof {
        assert(canceled_sub_attr(cs, subp, *m) == canceled_sub_attr(cs, subp, m0));
    }
    let res2 = attribute_canceled(m, total_stats, cdefs);
    if let Err(err) = res2 {
        return Err(err);
    }
    Ok(())
}

/// How one tenant moves the per-merchant counts.
proof fn lemma_mstep(cs: bool, subp: Seq<PricingUnit>, ms: Seq<MerchantData>, m: MerchantData)
    ensures
        count_active(ms.push(m)) == count_active(ms) + if sub_delta(m) > 0 {
            1int
        } else {
            0int
        },
        count_canceled(ms.push(m)) == count_canceled(ms) + if sub_delta(m) < 0 {
            1int
        } else {
            0int
        },
        count_old_uninstall(ms.push(m)) == count_old_uninstall(ms) + if is_old_uninstall(m) {
            1int
        } else {
            0int
        },
        forall|p: int, cyc: BillingCycle|
            #[trigger] count_attr_new(cs, subp, ms.push(m), p, cyc) == count_attr_new(
                cs,
                subp,
                ms,
                p,
                cyc,
            ) + if new_sub_attr(cs, subp, m) == Some((p, cyc)) {
                1int
            } else {
                0int
            },
        forall|p: int, cyc: BillingCycle|
            #[trigger] count_attr_new_active(cs, subp, ms.push(m), p, cyc) == count_attr_new_active(
                cs,
                subp,
                ms,
                p,
                cyc,
            ) + if new_sub_attr(cs, subp, m) == Some((p, cyc)) && sub_delta(m) > 0 {
                1int
            } else {
                0int
            },
        forall|p: int, cyc: BillingCycle|
            #[trigger] count_attr_canceled(cs, subp, ms.push(m), p, cyc) == count_attr_canceled(
                cs,
                subp,
                ms,
                p,
                cyc,
            ) + if canceled_sub_attr(cs, subp, m) == Some((p, cyc)) {
                1int
            } else {
                0int
            },
        forall|p: int, cyc: BillingCycle|
            #[trigger] count_attr_canceled_active(cs, subp, ms.push(m), p, cyc)
                == count_attr_canceled_active(cs, subp, ms, p, cyc) + if canceled_sub_attr(
                cs,
                subp,
                m,
            ) == Some((p, cyc)) && sub_delta(m) < 0 {
                1int
            } else {
                0int
            },
{
    assert(ms.push(m).drop_last() =~= ms);
    assert(ms.push(m).last() == m);
}

/// The four attribution counters stay within bounds while the finalizer
/// walks the tenants.
proof fn lemma_details_bounded(
    cs: bool,
    subp: Seq<PricingUnit>,
    ms: Seq<MerchantData>,
    d0: crate::stats::DetailedSubscriptionStats,
    d1: crate::stats::DetailedSubscriptionStats,
)
    requires
        d0.bounded(COUNT_LIMIT as int),
        d0.seeded(subp),
        d1.seeded(subp),
        ms.len() <= COUNT_LIMIT,
        forall|p: int, cyc: BillingCycle|
            0 <= p < subp.len() ==> #[trigger] d1.all_new_sub.at(cyc, p) == d0.all_new_sub.at(
                cyc,
                p,
            ) + count_attr_new(cs, subp, ms, p, cyc),
        forall|p: int, cyc: BillingCycle|
            0 <= p < subp.len() ==> #[trigger] d1.new_sub.at(cyc, p) == d0.new_sub.at(cyc, p)
                + count_attr_new_active(cs, subp, ms, p, cyc),
        forall|p: int, cyc: BillingCycle|
            0 <= p < subp.len() ==> #[trigger] d1.all_canceled_sub.at(cyc, p)
                == d0.all_canceled_sub.at(cyc, p) + count_attr_canceled(cs, subp, ms, p, cyc),
        forall|p: int, cyc: BillingCycle|
            0 <= p < subp.len() ==> #[trigger] d1.canceled_sub.at(cyc, p) == d0.canceled_sub.at(
                cyc,
                p,
            ) + count_attr_canceled_active(cs, subp, ms, p, cyc),
    ensures
        d1.all_new_sub.bounded(2 * COUNT_LIMIT),
        d1.new_sub.bounded(2 * COUNT_LIMIT),
        d1.all_canceled_sub.bounded(2 * COUNT_LIMIT),
        d1.canceled_sub.bounded(2 * COUNT_LIMIT),
{
    assert forall|k: int|
        0 <= k < d1.all_new_sub.monthly_counts@.len() implies -(2 * COUNT_LIMIT)
        <= (#[trigger] d1.all_new_sub.monthly_counts@[k].count) <= 2 * COUNT_LIMIT by {
        lemma_attr_count_bounds(cs, subp, ms, k, BillingCycle::Monthly);
        assert(d1.all_new_sub.at(BillingCycle::Monthly, k) == d0.all_new_sub.at(
            BillingCycle::Monthly,
            k,
        ) + count_attr_new(cs, subp, ms, k, BillingCycle::Monthly));
    }
    assert forall|k: int|
        0 <= k < d1.all_new_sub.yearly_counts@.len() implies -(2 * COUNT_LIMIT)
        <= (#[trigger] d1.all_new_sub.yearly_counts@[k].count) <= 2 * COUNT_LIMIT by {
        lemma_attr_count_bounds(cs, subp, ms, k, BillingCycle::Yearly);
        assert(d1.all_new_sub.at(BillingCycle::Yearly, k) == d0.all_new_sub.at(
            BillingCycle::Yearly,
            k,
        ) + count_attr_new(cs, subp, ms, k, BillingCycle::Yearly));
    }
    assert forall|k: int|
        0 <= k < d1.new_sub.monthly_counts@.len() implies -(2 * COUNT_LIMIT)
        <= (#[trigger] d1.new_sub.monthly_counts@[k].count) <= 2 * COUNT_LIMIT by {
        lemma_attr_count_bounds(cs, subp, ms, k, BillingCycle::Monthly);
        assert(d1.new_sub.at(BillingCycle::Monthly, k) == d0.new_sub.at(BillingCycle::Monthly, k)
            + count_attr_new_active(cs, subp, ms, k, BillingCycle::Monthly));
    }
    assert forall|k: int|
        0 <= k < d1.new_sub.yearly_counts@.len() implies -(2 * COUNT_LIMIT)
        <= (#[trigger] d1.new_sub.yearly_counts@[k].count) <= 2 * COUNT_LIMIT by {
        lemma_attr_count_bounds(cs, subp, ms, k, BillingCycle::Yearly);
        assert(d1.new_sub.at(BillingCycle::Yearly, k) == d0.new_sub.at(BillingCycle::Yearly, k)
            + count_attr_new_active(cs, subp, ms, k, BillingCycle::Yearly));
    }
    assert forall|k: int|
        0 <= k < d1.all_canceled_sub.monthly_counts@.len() implies -(2 * COUNT_LIMIT)
        <= (#[trigger] d1.all_canceled_sub.monthly_counts@[k].count) <= 2 * COUNT_LIMIT by {
        lemma_attr_count_bounds(cs, subp, ms, k, BillingCycle::Monthly);
        assert(d1.all_canceled_sub.at(BillingCycle::Monthly, k) == d0.all_canceled_sub.at(
            BillingCycle::Monthly,
            k,
        ) + count_attr_canceled(cs, subp, ms, k, BillingCycle::Monthly));
    }
    assert forall|k: int|
        0 <= k < d1.all_canceled_sub.yearly_counts@.len() implies -(2 * COUNT_LIMIT)
        <= (#[trigger] d1.all_canceled_sub.yearly_counts@[k].count) <= 2 * COUNT_LIMIT by {
        lemma_attr_count_bounds(cs, subp, ms, k, BillingCycle::Yearly);
        assert(d1.all_canceled_sub.at(BillingCycle::Yearly, k) == d0.all_canceled_sub.at(
            BillingCycle::Yearly,
            k,
        ) + count_attr_canceled(cs, subp, ms, k, BillingCycle::Yearly));
    }
    assert forall|k: int|
        0 <= k < d1.canceled_sub.monthly_counts@.len() implies -(2 * COUNT_LIMIT)
        <= (#[trigger] d1.canceled_sub.monthly_counts@[k].count) <= 2 * COUNT_LIMIT by {
        lemma_attr_count_bounds(cs, subp, ms, k, BillingCycle::Monthly);
        assert(d1.canceled_sub.at(BillingCycle::Monthly, k) == d0.canceled_sub.at(
            BillingCycle::Monthly,
            k,
        ) + count_attr_canceled_active(cs, subp, ms, k, BillingCycle::Monthly));
    }
    assert forall|k: int|
        0 <= k < d1.canceled_sub.yearly_counts@.len() implies -(2 * COUNT_LIMIT)
        <= (#[trigger] d1.canceled_sub.yearly_counts@[k].count) <= 2 * COUNT_LIMIT by {
        lemma_attr_count_bounds(cs, subp, ms, k, BillingCycle::Yearly);
        assert(d1.canceled_sub.at(BillingCycle::Yearly, k) == d0.canceled_sub.at(
            BillingCycle::Yearly,
            k,
        ) + count_attr_canceled_active(cs, subp, ms, k, BillingCycle::Yearly));
    }
}

/// The finalizer's promise on the global state: status counts stepped by
/// the per-tenant classification counts, attribution counters stepped by
/// the per-tenant attribution counts, everything else untouched.
pub open spec fn details_counters_ok(
    cs: bool,
    subp: Seq<PricingUnit>,
    ms0: Seq<MerchantData>,
    t0: TotalStats,
    t1: TotalStats,
) -> bool {
    &&& t1.old_uninstalled_count == t0.old_uninstalled_count + count_old_uninstall(ms0)
    &&& t1.new_sub_count == t0.new_sub_count + count_active(ms0)
    &&& t1.canceled_sub_count == t0.canceled_sub_count + count_canceled(ms0)
    &&& t1.sub_stats_details.seeded(subp)
    &&& forall|p: int, cyc: BillingCycle|
        0 <= p < subp.len() ==> #[trigger] t1.sub_stats_details.all_new_sub.at(cyc, p)
            == t0.sub_stats_details.all_new_sub.at(cyc, p) + count_attr_new(cs, subp, ms0, p, cyc)
    &&& forall|p: int, cyc: BillingCycle|
        0 <= p < subp.len() ==> #[trigger] t1.sub_stats_details.new_sub.at(cyc, p)
            == t0.sub_stats_details.new_sub.at(cyc, p) + count_attr_new_active(
            cs,
            subp,
            ms0,
            p,
            cyc,
        )
    &&& forall|p: int, cyc: BillingCycle|
        0 <= p < subp.len() ==> #[trigger] t1.sub_stats_details.all_canceled_sub.at(cyc, p)
            == t0.sub_stats_details.all_canceled_sub.at(cyc, p) + count_attr_canceled(
            cs,
            subp,
            ms0,
            p,
            cyc,
        )
    &&& forall|p: int, cyc: BillingCycle|
        0 <= p < subp.len() ==> #[trigger] t1.sub_stats_details.canceled_sub.at(cyc, p)
            == t0.sub_stats_details.canceled_sub.at(cyc, p) + count_attr_canceled_active(
            cs,
            subp,
            ms0,
            p,
            cyc,
        )
    &&& t1.installed_count == t0.installed_count
    &&& t1.uninstalled_count == t0.uninstalled_count
    &&& t1.store_closed_count == t0.store_closed_count
    &&& t1.store_reopened_count == t0.store_reopened_count
    &&& t1.one_time_count == t0.one_time_count
    &&& t1.one_time_details@ == t0.one_time_details@
    &&& t1.start_time == t0.start_time
    &&& t1.end_time == t0.end_time
    &&& t1.start_time_str == t0.start_time_str
    &&& t1.end_time_str == t0.end_time_str
    &&& t1.total_churn_rate == t0.total_churn_rate
    &&& t1.merchant_growth == t0.merchant_growth
}

/// The derived metrics of `t` are exactly the formulas over its own
/// accumulated counters, and the growth maps are all-new minus all-canceled
/// pointwise.
pub open spec fn derived_metrics_ok(t: TotalStats) -> bool {
    let an = t.sub_stats_details.all_new_sub;
    let ac = t.sub_stats_details.all_canceled_sub;
    let g = t.sub_stats_details.sub_growth;
    &&& t.churn_rate == spec_churn_rate(
        t.installed_count as int,
        t.uninstalled_count as int,
        t.old_uninstalled_count as int,
    )
    &&& t.sub_growth == t.new_sub_count - t.canceled_sub_count
    &&& t.paid_growth == t.new_sub_count - t.canceled_sub_count + t.one_time_count
    &&& g.monthly_counts@.len() == an.monthly_counts@.len()
    &&& g.yearly_counts@.len() == an.yearly_counts@.len()
    &&& forall|k: int|
        0 <= k < g.monthly_counts@.len() ==> (#[trigger] g.monthly_counts@[k]).code@
            == an.monthly_counts@[k].code@ && g.monthly_counts@[k].count
            == an.monthly_counts@[k].count - ac.monthly_counts@[k].count
    &&& forall|k: int|
        0 <= k < g.yearly_counts@.len() ==> (#[trigger] g.yearly_counts@[k]).code@
            == an.yearly_counts@[k].code@ && g.yearly_counts@[k].count
            == an.yearly_counts@[k].count - ac.yearly_counts@[k].count
}

/// The second pass: walk every tenant exactly once, derive its final
/// statuses and attributions, roll them into the global counters, and
/// recompute the derived global metrics after each tenant.
#[verifier::rlimit(100)]
pub fn analyze_details(
    total_stats: &mut TotalStats,
    merchant_list: &mut MerchantDataList,
    cdefs: &CompiledDefs,
) -> (r: Result<(), AnalyzeError>)
    requires
        cdefs.wf(),
        old(total_stats).sub_stats_details.seeded(cdefs.subscriptions@),
        old(total_stats).sub_stats_details.bounded(COUNT_LIMIT as int),
        old(merchant_list).merchants@.len() <= COUNT_LIMIT,
        forall|j: int|
            0 <= j < old(merchant_list).merchants@.len() ==> merchant_counts_bounded(
                #[trigger] old(merchant_list).merchants@[j],
                COUNT_LIMIT as int,
            ),
        old(total_stats).old_uninstalled_count <= COUNT_LIMIT,
        old(total_stats).new_sub_count <= COUNT_LIMIT,
        old(total_stats).canceled_sub_count <= COUNT_LIMIT,
        old(total_stats).installed_count <= COUNT_LIMIT,
        old(total_stats).uninstalled_count <= COUNT_LIMIT,
        old(total_stats).one_time_count <= COUNT_LIMIT,
    ensures
        r is Ok,
        final(merchant_list).merchants@.len() == old(merchant_list).merchants@.len(),
        forall|j: int|
            0 <= j < old(merchant_list).merchants@.len() ==> final(merchant_list).merchants@[j]
                == finalize_model(
                cdefs.case_sensitive,
                cdefs.subscriptions@,
                #[trigger] old(merchant_list).merchants@[j],
            ),
        final(merchant_list).start_time == old(merchant_list).start_time,
        final(merchant_list).end_time == old(merchant_list).end_time,
        details_counters_ok(
            cdefs.case_sensitive,
            cdefs.subscriptions@,
            old(merchant_list).merchants@,
            *old(total_stats),
            *final(total_stats),
        ),
        old(merchant_list).merchants@.len() > 0 ==> derived_metrics_ok(*final(total_stats)),
        ({
            let t0 = *old(total_stats);
            let t1 = *final(total_stats);
            old(merchant_list).merchants@.len() == 0 ==> t1.churn_rate == t0.churn_rate
                && t1.sub_growth == t0.sub_growth && t1.paid_growth == t0.paid_growth
                && t1.sub_stats_details.sub_growth == t0.sub_stats_details.sub_growth
        }),
{
    let ghost cs = cdefs.case_sensitive;
    let ghost subp = cdefs.subscriptions@;
    let ghost np = cdefs.subscriptions@.len() as int;
    let ghost oms = merchant_list.merchants@;
    let ghost t_base = *total_stats;
    let n = merchant_list.merchants.len();
    proof {
        assert(oms.take(0) =~= Seq::<MerchantData>::empty());
    }
    for j in 0..n
        invariant
            cdefs.wf(),
            cs == cdefs.case_sensitive,
            subp == cdefs.subscriptions@,
            np == subp.len() as int,
            oms == old(merchant_list).merchants@,
            t_base == *old(total_stats),
            n == oms.len(),
            n <= COUNT_LIMIT,
            t_base.sub_stats_details.bounded(COUNT_LIMIT as int),
            t_base.sub_stats_details.seeded(subp),
            t_base.old_uninstalled_count <= COUNT_LIMIT,
            t_base.new_sub_count <= COUNT_LIMIT,
            t_base.canceled_sub_count <= COUNT_LIMIT,
            t_base.installed_count <= COUNT_LIMIT,
            t_base.uninstalled_count <= COUNT_LIMIT,
            t_base.one_time_count <= COUNT_LIMIT,
            forall|j2: int|
                0 <= j2 < n ==> merchant_counts_bounded(#[trigger] oms[j2], COUNT_LIMIT as int),
            merchant_list.merchants@.len() == n,
            merchant_list.start_time == old(merchant_list).start_time,
            merchant_list.end_time == old(merchant_list).end_time,
            forall|j2: int|
                0 <= j2 < j ==> #[trigger] merchant_list.merchants@[j2] == finalize_model(
                    cs,
                    subp,
                    oms[j2],
                ),
            forall|j2: int| j <= j2 < n ==> #[trigger] merchant_list.merchants@[j2] == oms[j2],
            details_counters_ok(cs, subp, oms.take(j as int), t_base, *total_stats),
            j > 0 ==> derived_metrics_ok(*total_stats),
            j == 0 ==> total_stats.churn_rate == t_base.churn_rate && total_stats.sub_growth
                == t_base.sub_growth && total_stats.paid_growth == t_base.paid_growth
                && total_stats.sub_stats_details.sub_growth
                == t_base.sub_stats_details.sub_growth,
    {
        let ghost pre = oms.take(j as int);
        let ghost t_pre = *total_stats;
        proof {
            assert(merchant_list.merchants@[j as int] == oms[j as int]);
            lemma_merchant_count_bounds(pre);
            lemma_details_bounded(
                cs,
                subp,
                pre,
                t_base.sub_stats_details,
                total_stats.sub_stats_details,
            );
        }
        let res = finalize_merchant(&mut merchant_list.merchants[j], total_stats, cdefs);
        if let Err(err) = res {
            return Err(err);
        }
        proof {
            assert(pre.push(oms[j as int]) =~= oms.take(j as int + 1));
            lemma_mstep(cs, subp, pre, oms[j as int]);
            lemma_merchant_count_bounds(oms.take(j as int + 1));
            assert(details_counters_ok(cs, subp, oms.take(j as int + 1), t_base, *total_stats))
                by {
                assert forall|p: int, cyc: BillingCycle|
                    0 <= p < np implies #[trigger] total_stats.sub_stats_details.all_new_sub.at(
                    cyc,
                    p,
                ) == t_base.sub_stats_details.all_new_sub.at(cyc, p) + count_attr_new(
                    cs,
                    subp,
                    oms.take(j as int + 1),
                    p,
                    cyc,
                ) by {
                    assert(t_pre.sub_stats_details.all_new_sub.at(cyc, p)
                        == t_base.sub_stats_details.all_new_sub.at(cyc, p) + count_attr_new(
                        cs,
                        subp,
                        pre,
                        p,
                        cyc,
                    ));
                }
                assert forall|p: int, cyc: BillingCycle|
                    0 <= p < np implies #[trigger] total_stats.sub_stats_details.new_sub.at(
                    cyc,
                    p,
                ) == t_base.sub_stats_details.new_sub.at(cyc, p) + count_attr_new_active(
                    cs,
                    subp,
                    oms.take(j as int + 1),
                    p,
                    cyc,
                ) by {
                    assert(t_pre.sub_stats_details.new_sub.at(cyc, p)
                        == t_base.sub_stats_details.new_sub.at(cyc, p) + count_attr_new_active(
                        cs,
                        subp,
                        pre,
                        p,
                        cyc,
                    ));
                }
                assert forall|p: int, cyc: BillingCycle|
                    0 <= p < np implies #[trigger] total_stats.sub_stats_details.all_canceled_sub.at(
                    cyc,
                    p,
                ) == t_base.sub_stats_details.all_canceled_sub.at(cyc, p) + count_attr_canceled(
                    cs,
                    subp,
                    oms.take(j as int + 1),
                    p,
                    cyc,
                ) by {
                    assert(t_pre.sub_stats_details.all_canceled_sub.at(cyc, p)
                        == t_base.sub_stats_details.all_canceled_sub.at(cyc, p)
                        + count_attr_canceled(cs, subp, pre, p, cyc));
                }
                assert forall|p: int, cyc: BillingCycle|
                    0 <= p < np implies #[trigger] total_stats.sub_stats_details.canceled_sub.at(
                    cyc,
                    p,
                ) == t_base.sub_stats_details.canceled_sub.at(cyc, p)
                    + count_attr_canceled_active(cs, subp, oms.take(j as int + 1), p, cyc) by {
                    assert(t_pre.sub_stats_details.canceled_sub.at(cyc, p)
                        == t_base.sub_stats_details.canceled_sub.at(cyc, p)
                        + count_attr_canceled_active(cs, subp, pre, p, cyc));
                }
            }
            lemma_details_bounded(
                cs,
                subp,
                oms.take(j as int + 1),
                t_base.sub_stats_details,
                total_stats.sub_stats_details,
            );
        }
        // The derived global metrics are recomputed after each tenant: a
        // pure function of the accumulated counters, so the final values
        // after the last tenant are the authoritative totals.
        recompute_derived(total_stats);
        recompute_sub_growth(&mut total_stats.sub_stats_details);
    }
    proof {
        assert(oms.take(n as int) =~= oms);
    }
    Ok(())
}

/// An event of no one-time category moves no per-plan one-time count of its
/// tenant.
proof fn step_plan_counts_unchanged(
    cfg: MatchCfg,
    ot_plans: Seq<PricingUnit>,
    s: Seq<AppEvent>,
    e: AppEvent,
    d: Seq<char>,
)
    requires
        relevant(cfg, e),
        category_of(e) != Category::OneTimePurchase,
    ensures
        forall|k: int|
            #[trigger] tenant_one_time_plan_count(cfg, ot_plans, s.push(e), d, k)
                == tenant_one_time_plan_count(cfg, ot_plans, s, d, k),
{
    let s2 = s.push(e);
    assert(s2.drop_last() =~= s);
    assert(s2.last() == e);
}

/// Finalizing touches no field the per-merchant counts read, so every count
/// over the finalized tenants equals the count over the records as they
/// stood before finalizing.
proof fn lemma_finalized_counts(
    cs: bool,
    subp: Seq<PricingUnit>,
    ms0: Seq<MerchantData>,
    ms1: Seq<MerchantData>,
)
    requires
        ms1.len() == ms0.len(),
        forall|j: int| 0 <= j < ms0.len() ==> ms1[j] == finalize_model(cs, subp, #[trigger] ms0[j]),
    ensures
        count_active(ms1) == count_active(ms0),
        count_canceled(ms1) == count_canceled(ms0),
        count_old_uninstall(ms1) == count_old_uninstall(ms0),
        forall|p: int, cyc: BillingCycle|
            #[trigger] count_attr_new(cs, subp, ms1, p, cyc) == count_attr_new(
                cs,
                subp,
                ms0,
                p,
                cyc,
            ),
        forall|p: int, cyc: BillingCycle|
            #[trigger] count_attr_new_active(cs, subp, ms1, p, cyc) == count_attr_new_active(
                cs,
                subp,
                ms0,
                p,
                cyc,
            ),
        forall|p: int, cyc: BillingCycle|
            #[trigger] count_attr_canceled(cs, subp, ms1, p, cyc) == count_attr_canceled(
                cs,
                subp,
                ms0,
                p,
                cyc,
            ),
        forall|p: int, cyc: BillingCycle|
            #[trigger] count_attr_canceled_active(cs, subp, ms1, p, cyc)
                == count_attr_canceled_active(cs, subp, ms0, p, cyc),
    decreases ms0.len(),
{
    if ms0.len() > 0 {
        let p0 = ms0.drop_last();
        let p1 = ms1.drop_last();
        assert forall|j: int| 0 <= j < p0.len() implies p1[j] == finalize_model(
            cs,
            subp,
            #[trigger] p0[j],
        ) by {
            assert(p0[j] == ms0[j]);
            assert(p1[j] == ms1[j]);
        }
        lemma_finalized_counts(cs, subp, p0, p1);
        let l0 = ms0.last();
        let l1 = ms1.last();
        assert(l1 == finalize_model(cs, subp, l0));
        assert(sub_delta(l1) == sub_delta(l0));
        assert(is_old_uninstall(l1) == is_old_uninstall(l0));
        assert(l1.subscription_events@ == l0.subscription_events@);
        assert(new_sub_attr(cs, subp, l1) == new_sub_attr(cs, subp, l0));
        assert(canceled_sub_attr(cs, subp, l1) == canceled_sub_attr(cs, subp, l0));
        assert forall|p: int, cyc: BillingCycle|
            #[trigger] count_attr_new(cs, subp, ms1, p, cyc) == count_attr_new(
            cs,
            subp,
            ms0,
            p,
            cyc,
        ) by {
            assert(count_attr_new(cs, subp, p1, p, cyc) == count_attr_new(cs, subp, p0, p, cyc));
        }
        assert forall|p: int, cyc: BillingCycle|
            #[trigger] count_attr_new_active(cs, subp, ms1, p, cyc) == count_attr_new_active(
            cs,
            subp,
            ms0,
            p,
            cyc,
        ) by {
            assert(count_attr_new_active(cs, subp, p1, p, cyc) == count_attr_new_active(
                cs,
                subp,
                p0,
                p,
                cyc,
            ));
        }
        assert forall|p: int, cyc: BillingCycle|
            #[trigger] count_attr_canceled(cs, subp, ms1, p, cyc) == count_attr_canceled(
            cs,
            subp,
            ms0,
            p,
            cyc,
        ) by {
            assert(count_attr_canceled(cs, subp, p1, p, cyc) == count_attr_canceled(
                cs,
                subp,
                p0,
                p,
                cyc,
            ));
        }
        assert forall|p: int, cyc: BillingCycle|
            #[trigger] count_attr_canceled_active(cs, subp, ms1, p, cyc)
            == count_attr_canceled_active(cs, subp, ms0, p, cyc) by {
            assert(count_attr_canceled_active(cs, subp, p1, p, cyc) == count_attr_canceled_active(
                cs,
                subp,
                p0,
                p,
                cyc,
            ));
        }
    }
}

/// A counter seeded at zero lies within any non-negative bound.
proof fn lemma_zero_counter_bounded(
    d: crate::stats::DetailedSubscriptionStats,
    subp: Seq<PricingUnit>,
)
    requires
        d.seeded(subp),
        d.all_zero(subp),
    ensures
        d.bounded(COUNT_LIMIT as int),
{
    assert forall|k: int|
        0 <= k < d.new_sub.monthly_counts@.len() implies -(COUNT_LIMIT as int)
        <= (#[trigger] d.new_sub.monthly_counts@[k].count) <= COUNT_LIMIT as int by {
        assert(d.new_sub.at(BillingCycle::Monthly, k) == 0);
    }
    assert forall|k: int|
        0 <= k < d.new_sub.yearly_counts@.len() implies -(COUNT_LIMIT as int)
        <= (#[trigger] d.new_sub.yearly_counts@[k].count) <= COUNT_LIMIT as int by {
        assert(d.new_sub.at(BillingCycle::Yearly, k) == 0);
    }
    assert forall|k: int|
        0 <= k < d.canceled_sub.monthly_counts@.len() implies -(COUNT_LIMIT as int)
        <= (#[trigger] d.canceled_sub.monthly_counts@[k].count) <= COUNT_LIMIT as int by {
        assert(d.canceled_sub.at(BillingCycle::Monthly, k) == 0);
    }
    assert forall|k: int|
        0 <= k < d.canceled_sub.yearly_counts@.len() implies -(COUNT_LIMIT as int)
        <= (#[trigger] d.canceled_sub.yearly_counts@[k].count) <= COUNT_LIMIT as int by {
        assert(d.canceled_sub.at(BillingCycle::Yearly, k) == 0);
    }
    assert forall|k: int|
        0 <= k < d.sub_growth.monthly_counts@.len() implies -(COUNT_LIMIT as int)
        <= (#[trigger] d.sub_growth.monthly_counts@[k].count) <= COUNT_LIMIT as int by {
        assert(d.sub_growth.at(BillingCycle::Monthly, k) == 0);
    }
    assert forall|k: int|
        0 <= k < d.sub_growth.yearly_counts@.len() implies -(COUNT_LIMIT as int)
        <= (#[trigger] d.sub_growth.yearly_counts@[k].count) <= COUNT_LIMIT as int by {
        assert(d.sub_growth.at(BillingCycle::Yearly, k) == 0);
    }
    assert forall|k: int|
        0 <= k < d.all_new_sub.monthly_counts@.len() implies -(COUNT_LIMIT as int)
        <= (#[trigger] d.all_new_sub.monthly_counts@[k].count) <= COUNT_LIMIT as int by {
        assert(d.all_new_sub.at(BillingCycle::Monthly, k) == 0);
    }
    assert forall|k: int|
        0 <= k < d.all_new_sub.yearly_counts@.len() implies -(COUNT_LIMIT as int)
        <= (#[trigger] d.all_new_sub.yearly_counts@[k].count) <= COUNT_LIMIT as int by {
        assert(d.all_new_sub.at(BillingCycle::Yearly, k) == 0);
    }
    assert forall|k: int|
        0 <= k < d.all_canceled_sub.monthly_counts@.len() implies -(COUNT_LIMIT as int)
        <= (#[trigger] d.all_canceled_sub.monthly_counts@[k].count) <= COUNT_LIMIT as int by {
        assert(d.all_canceled_sub.at(BillingCycle::Monthly, k) == 0);
    }
    assert forall|k: int|
        0 <= k < d.all_canceled_sub.yearly_counts@.len() implies -(COUNT_LIMIT as int)
        <= (#[trigger] d.all_canceled_sub.yearly_counts@[k].count) <= COUNT_LIMIT as int by {
        assert(d.all_canceled_sub.at(BillingCycle::Yearly, k) == 0);
    }
}

/// One finalized tenant record: its counters and retained lists are exactly
/// the model of its domain over the event stream, its status labels follow
/// the delta rules on its own counters, and its attribution fields carry
/// exactly what its latest activation and earliest cancellation are
/// attributed to.
pub open spec fn merchant_final_ok(
    cfg: MatchCfg,
    ot_plans: Seq<PricingUnit>,
    sub_plans: Seq<PricingUnit>,
    s: Seq<AppEvent>,
    m: MerchantData,
) -> bool {
    let d = m.shop_domain@;
    &&& m.installed_count == tenant_count_cat(cfg, s, d, Category::Install)
    &&& m.uninstalled_count == tenant_count_cat(cfg, s, d, Category::Uninstall)
    &&& m.store_closed_count == tenant_count_cat(cfg, s, d, Category::StoreClosed)
    &&& m.store_reopened_count == tenant_count_cat(cfg, s, d, Category::StoreReopened)
    &&& m.subscription_activated_count == tenant_count_cat(
        cfg,
        s,
        d,
        Category::SubscriptionActivated,
    )
    &&& m.subscription_canceled_count == tenant_count_cat(
        cfg,
        s,
        d,
        Category::SubscriptionCanceled,
    )
    &&& m.one_time_count == tenant_count_cat(cfg, s, d, Category::OneTimePurchase)
    &&& m.installing_events@ == tenant_install_events(cfg, s, d)
    &&& m.subscription_events@ == tenant_sub_events(cfg, s, d)
    &&& m.one_time_events@ == tenant_one_time_events(cfg, s, d)
    &&& m.one_time_details@.len() == ot_plans.len()
    &&& forall|k: int|
        0 <= k < ot_plans.len() ==> (#[trigger] m.one_time_details@[k]).code@ == ot_plans[k].code@
            && m.one_time_details@[k].count == tenant_one_time_plan_count(cfg, ot_plans, s, d, k)
    &&& m.installed_status == spec_installed_status(m)
    &&& m.subscription_status == spec_subscription_status(m)
    &&& (match new_sub_attr(cfg.case_sensitive, sub_plans, m) {
        Some((p, c)) => m.last_new_sub_plan == Some(sub_plans[p])
            && m.last_new_sub_billing_cycle == Some(c),
        None => m.last_new_sub_plan is None && m.last_new_sub_billing_cycle is None,
    })
    &&& (match canceled_sub_attr(cfg.case_sensitive, sub_plans, m) {
        Some((p, c)) => m.first_canceled_sub_plan == Some(sub_plans[p])
            && m.first_canceled_sub_billing_cycle == Some(c),
        None => m.first_canceled_sub_plan is None && m.first_canceled_sub_billing_cycle is None,
    })
}

/// Everything the whole analysis promises of its two result structures, for
/// the event stream `s` under the given definitions and toggle.
pub open spec fn analysis_ok(
    case_sensitive: bool,
    defs: PricingDefs,
    excluding_pattern: Seq<char>,
    s: Seq<AppEvent>,
    t: TotalStats,
    list: MerchantDataList,
) -> bool {
    let cfg = MatchCfg { case_sensitive, excluding_pattern };
    let subp = defs.subscriptions@;
    let otp = defs.one_times@;
    let ms = list.merchants@;
    let g = t.sub_stats_details.sub_growth;
    // Global counts of the single pass.
    &&& t.installed_count == count_cat(cfg, s, Category::Install)
    &&& t.uninstalled_count == count_cat(cfg, s, Category::Uninstall)
    &&& t.store_closed_count == count_cat(cfg, s, Category::StoreClosed)
    &&& t.store_reopened_count == count_cat(cfg, s, Category::StoreReopened)
    &&& t.one_time_count == count_cat(cfg, s, Category::OneTimePurchase)
    &&& t.one_time_details@.len() == otp.len()
    &&& forall|k: int|
        0 <= k < otp.len() ==> (#[trigger] t.one_time_details@[k]).code@ == otp[k].code@
            && t.one_time_details@[k].count == count_one_time_plan(cfg, otp, s, k)
    // The observation window.
    &&& t.start_time == s[0].time
    &&& t.end_time == s[s.len() - 1].time
    &&& t.start_time_str@ == (match s[0].time {
        Some(dt) => pretty_date(dt),
        None => "None"@,
    })
    &&& t.end_time_str@ == (match s[s.len() - 1].time {
        Some(dt) => pretty_date(dt),
        None => "None"@,
    })
    &&& list.start_time == s[0].time
    &&& list.end_time == s[s.len() - 1].time
    // One finalized record per tenant domain, in first appearance order.
    &&& ms.len() == doms(cfg, s).len()
    &&& forall|j: int|
        0 <= j < ms.len() ==> (#[trigger] ms[j]).shop_domain@ == doms(cfg, s)[j]
            && merchant_final_ok(cfg, otp, subp, s, ms[j])
    // The global status counts agree with the per-tenant classification:
    // every active tenant contributes exactly one to the new-subscription
    // count, every canceled one exactly one to the canceled count.
    &&& t.new_sub_count == count_active(ms)
    &&& t.canceled_sub_count == count_canceled(ms)
    &&& t.old_uninstalled_count == count_old_uninstall(ms)
    // The attribution counters count the tenants attributed to each plan
    // and cycle.
    &&& t.sub_stats_details.seeded(subp)
    &&& forall|p: int, cyc: BillingCycle|
        0 <= p < subp.len() ==> #[trigger] t.sub_stats_details.all_new_sub.at(cyc, p)
            == count_attr_new(case_sensitive, subp, ms, p, cyc)
    &&& forall|p: int, cyc: BillingCycle|
        0 <= p < subp.len() ==> #[trigger] t.sub_stats_details.new_sub.at(cyc, p)
            == count_attr_new_active(case_sensitive, subp, ms, p, cyc)
    &&& forall|p: int, cyc: BillingCycle|
        0 <= p < subp.len() ==> #[trigger] t.sub_stats_details.all_canceled_sub.at(cyc, p)
            == count_attr_canceled(case_sensitive, subp, ms, p, cyc)
    &&& forall|p: int, cyc: BillingCycle|
        0 <= p < subp.len() ==> #[trigger] t.sub_stats_details.canceled_sub.at(cyc, p)
            == count_attr_canceled_active(case_sensitive, subp, ms, p, cyc)
    // The derived metrics, exact formulas over the counts above.
    &&& t.merchant_growth == count_cat(cfg, s, Category::Install) + count_cat(
        cfg,
        s,
        Category::StoreReopened,
    ) - count_cat(cfg, s, Category::Uninstall) - count_cat(cfg, s, Category::StoreClosed)
    &&& t.total_churn_rate == spec_total_churn_rate(
        count_cat(cfg, s, Category::Install),
        count_cat(cfg, s, Category::Uninstall),
    )
    &&& t.churn_rate == spec_churn_rate(
        t.installed_count as int,
        t.uninstalled_count as int,
        t.old_uninstalled_count as int,
    )
    &&& t.sub_growth == t.new_sub_count - t.canceled_sub_count
    &&& t.paid_growth == t.new_sub_count - t.canceled_sub_count + t.one_time_count
    // The per-plan net growth breakdown: all-new minus all-canceled, for
    // every known plan code under both cycles, zero-activity codes
    // included.
    &&& g.monthly_counts@.len() == subp.len()
    &&& g.yearly_counts@.len() == subp.len()
    &&& forall|p: int|
        0 <= p < subp.len() ==> (#[trigger] g.monthly_counts@[p]).code@ == subp[p].code@
            && g.monthly_counts@[p].count == t.sub_stats_details.all_new_sub.at(
            BillingCycle::Monthly,
            p,
        ) - t.sub_stats_details.all_canceled_sub.at(BillingCycle::Monthly, p)
    &&& forall|p: int|
        0 <= p < subp.len() ==> (#[trigger] g.yearly_counts@[p]).code@ == subp[p].code@
            && g.yearly_counts@[p].count == t.sub_stats_details.all_new_sub.at(
            BillingCycle::Yearly,
            p,
        ) - t.sub_stats_details.all_canceled_sub.at(BillingCycle::Yearly, p)
}

/// Analyze one event list under the given definitions: compile the
/// patterns, run the single pass, then the finalizer. Succeeds exactly on a
/// non-empty list whose configured patterns all compile; an empty list is
/// reported before the patterns are looked at.
#[verifier::rlimit(100)]
pub fn analyze_events_list(
    event_list: &Vec<AppEvent>,
    pricing_defs: &PricingDefs,
    excluding_defs: &ExcludingDef,
    case_sensitive_regex: bool,
) -> (r: Result<(TotalStats, MerchantDataList), AnalyzeError>)
    requires
        event_list@.len() <= COUNT_LIMIT,
        pricing_defs.codes_distinct(),
    ensures
        r is Ok <==> event_list@.len() > 0 && all_patterns_ok(
            case_sensitive_regex,
            *pricing_defs,
            excluding_defs.excluding_pattern@,
        ),
        event_list@.len() == 0 ==> (r matches Err(err) && err == AnalyzeError::EmptyEventList),
        event_list@.len() > 0 && !all_patterns_ok(
            case_sensitive_regex,
            *pricing_defs,
            excluding_defs.excluding_pattern@,
        ) ==> (r matches Err(err) && err matches AnalyzeError::InvalidPattern(p) && (
        !crate::pattern::regex_accepts(
            crate::pattern::effective_pattern(case_sensitive_regex, p@),
        ) || !crate::pattern::regex_accepts(p@))),
        r matches Ok(out) ==> analysis_ok(
            case_sensitive_regex,
            *pricing_defs,
            excluding_defs.excluding_pattern@,
            event_list@,
            out.0,
            out.1,
        ),
{
    let ghost s = event_list@;
    if event_list.len() == 0 {
        return Err(AnalyzeError::EmptyEventList);
    }
    let cdefs = match CompiledDefs::new(pricing_defs, excluding_defs, case_sensitive_regex) {
        Ok(c) => c,
        Err(err) => {
            return Err(err);
        },
    };
    let ghost cfg = cdefs.cfg();
    let ghost otp = cdefs.one_times@;
    let ghost subp = cdefs.subscriptions@;
    let built = build_base_data(event_list, &cdefs);
    let (mut total_stats, mut merchant_list) = match built {
        Ok(pair) => pair,
        Err(err) => {
            return Err(err);
        },
    };
    let ghost t_b = total_stats;
    let ghost ms_b = merchant_list.merchants@;
    proof {
        // The single pass's results satisfy the finalizer's bounds: every
        // count is at most the number of events, every tenant count too,
        // and there are no more tenants than events.
        lemma_doms_len(cfg, s);
        lemma_count_cat_bounds(cfg, s, Category::Install);
        lemma_count_cat_bounds(cfg, s, Category::Uninstall);
        lemma_count_cat_bounds(cfg, s, Category::StoreClosed);
        lemma_count_cat_bounds(cfg, s, Category::StoreReopened);
        lemma_count_cat_bounds(cfg, s, Category::OneTimePurchase);
        lemma_zero_counter_bounded(total_stats.sub_stats_details, subp);
        assert forall|j: int|
            0 <= j < ms_b.len() implies merchant_counts_bounded(
            #[trigger] ms_b[j],
            COUNT_LIMIT as int,
        ) by {
            let d = ms_b[j].shop_domain@;
            assert(merchant_matches_model(cfg, otp, s, ms_b[j]));
            lemma_tenant_count_cat_bounds(cfg, s, d, Category::Install);
            lemma_tenant_count_cat_bounds(cfg, s, d, Category::Uninstall);
            lemma_tenant_count_cat_bounds(cfg, s, d, Category::StoreClosed);
            lemma_tenant_count_cat_bounds(cfg, s, d, Category::StoreReopened);
            lemma_tenant_count_cat_bounds(cfg, s, d, Category::SubscriptionActivated);
            lemma_tenant_count_cat_bounds(cfg, s, d, Category::SubscriptionCanceled);
        }
    }
    let res = analyze_details(&mut total_stats, &mut merchant_list, &cdefs);
    if let Err(err) = res {
        return Err(err);
    }
    proof {
        let t1 = total_stats;
        let ms1 = merchant_list.merchants@;
        lemma_finalized_counts(cdefs.case_sensitive, subp, ms_b, ms1);
        assert forall|j: int|
            0 <= j < ms1.len() implies (#[trigger] ms1[j]).shop_domain@ == doms(cfg, s)[j]
            && merchant_final_ok(cfg, otp, subp, s, ms1[j]) by {
            let m0 = ms_b[j];
            let m1 = ms1[j];
            assert(merchant_matches_model(cfg, otp, s, m0));
            assert(m1 == finalize_model(cdefs.case_sensitive, subp, m0));
            assert(sub_delta(m1) == sub_delta(m0));
            assert(install_delta(m1) == install_delta(m0));
            assert(is_old_uninstall(m1) == is_old_uninstall(m0));
            assert(spec_installed_status(m1) == spec_installed_status(m0));
            assert(spec_subscription_status(m1) == spec_subscription_status(m0));
            assert(new_sub_attr(cdefs.case_sensitive, subp, m1) == new_sub_attr(
                cdefs.case_sensitive,
                subp,
                m0,
            ));
            assert(canceled_sub_attr(cdefs.case_sensitive, subp, m1) == canceled_sub_attr(
                cdefs.case_sensitive,
                subp,
                m0,
            ));
        }
        if ms_b.len() == 0 {
            lemma_no_domains(cfg, otp, s);
        }
        assert(analysis_ok(
            case_sensitive_regex,
            *pricing_defs,
            excluding_defs.excluding_pattern@,
            s,
            total_stats,
            merchant_list,
        ));
    }
    Ok((total_stats, merchant_list))
}

} // verus!
