//! The general laws of the analysis, stated and proved over the same spec
//! functions the passes' contracts use.

use vstd::prelude::*;
use crate::analyze::with_derived;
use crate::defs::PricingUnit;
use crate::merchant::{InstalledStatus, MerchantData, SubscriptionStatus};
use crate::model::{canceled_sub_attr, count_active, count_canceled, finalize_model, install_delta,
    new_sub_attr, spec_installed_status, spec_subscription_status, sub_delta};

verus! {

/// How many tenants of `ms` carry the Active subscription label.
pub open spec fn count_status_active(ms: Seq<MerchantData>) -> int
    decreases ms.len(),
{
    if ms.len() == 0 {
        0
    } else {
        count_status_active(ms.drop_last()) + if ms.last().subscription_status
            == SubscriptionStatus::Active {
            1int
        } else {
            0int
        }
    }
}

/// How many tenants of `ms` carry the Canceled subscription label.
pub open spec fn count_status_canceled(ms: Seq<MerchantData>) -> int
    decreases ms.len(),
{
    if ms.len() == 0 {
        0
    } else {
        count_status_canceled(ms.drop_last()) + if ms.last().subscription_status
            == SubscriptionStatus::Canceled {
            1int
        } else {
            0int
        }
    }
}

/// Law: the install-family delta fully determines the installed status.
/// The status is Installed exactly on a positive delta, Uninstalled or
/// UninstalledOld exactly on a negative one — UninstalledOld exactly when
/// the earliest retained install-family event is itself an uninstall — and
/// unset (serialized "None") exactly on a zero delta.
pub proof fn installed_status_sign_rule(m: MerchantData)
    ensures
        spec_installed_status(m) == InstalledStatus::Installed <==> install_delta(m) > 0,
        (spec_installed_status(m) == InstalledStatus::Uninstalled || spec_installed_status(m)
            == InstalledStatus::UninstalledOld) <==> install_delta(m) < 0,
        spec_installed_status(m) == InstalledStatus::Unset <==> install_delta(m) == 0,
        spec_installed_status(m) == InstalledStatus::UninstalledOld <==> (install_delta(m) < 0
            && m.installing_events@.len() > 0 && m.installing_events@[0].event@
            == "Uninstalled"@),
{
}

/// Law: the subscription delta fully determines the subscription status.
pub proof fn subscription_status_sign_rule(m: MerchantData)
    ensures
        spec_subscription_status(m) == SubscriptionStatus::Active <==> sub_delta(m) > 0,
        spec_subscription_status(m) == SubscriptionStatus::Canceled <==> sub_delta(m) < 0,
        spec_subscription_status(m) == SubscriptionStatus::Unset <==> sub_delta(m) == 0,
{
}

/// Law: over tenants whose subscription label follows the delta rule — as
/// the finalizer guarantees — the delta-based counts that feed the global
/// new/canceled subscription counters equal the label-based counts: every
/// Active tenant contributes exactly one to the new-subscription count,
/// every Canceled tenant exactly one to the canceled count, and an unset
/// label to neither.
pub proof fn status_counts_agree(ms: Seq<MerchantData>)
    requires
        forall|j: int|
            0 <= j < ms.len() ==> (#[trigger] ms[j]).subscription_status
                == spec_subscription_status(ms[j]),
    ensures
        count_active(ms) == count_status_active(ms),
        count_canceled(ms) == count_status_canceled(ms),
    decreases ms.len(),
{
    if ms.len() > 0 {
        assert forall|j: int|
            0 <= j < ms.drop_last().len() implies (#[trigger] ms.drop_last()[j]).subscription_status
            == spec_subscription_status(ms.drop_last()[j]) by {
            assert(ms.drop_last()[j] == ms[j]);
        }
        status_counts_agree(ms.drop_last());
        assert(ms.last() == ms[ms.len() - 1]);
    }
}

/// Law: recomputing the derived global metrics is idempotent — they are a
/// pure function of the accumulated counters, which the recomputation does
/// not touch.
pub proof fn derived_recompute_idempotent(t: crate::stats::TotalStats)
    ensures
        with_derived(with_derived(t)) == with_derived(t),
{
}

/// Law: two global states with the same accumulated counters derive the
/// same metrics, whatever their derived fields held before.
pub proof fn derived_pure_in_counters(t1: crate::stats::TotalStats, t2: crate::stats::TotalStats)
    requires
        t1.installed_count == t2.installed_count,
        t1.uninstalled_count == t2.uninstalled_count,
        t1.old_uninstalled_count == t2.old_uninstalled_count,
        t1.new_sub_count == t2.new_sub_count,
        t1.canceled_sub_count == t2.canceled_sub_count,
        t1.one_time_count == t2.one_time_count,
    ensures
        with_derived(t1).churn_rate == with_derived(t2).churn_rate,
        with_derived(t1).sub_growth == with_derived(t2).sub_growth,
        with_derived(t1).paid_growth == with_derived(t2).paid_growth,
{
}

/// Law: finalizing an already-finalized tenant record changes nothing: the
/// statuses and attributions are recomputed from fields the finalizer never
/// writes.
pub proof fn finalize_model_idempotent(cs: bool, subp: Seq<PricingUnit>, m: MerchantData)
    ensures
        finalize_model(cs, subp, finalize_model(cs, subp, m)) == finalize_model(cs, subp, m),
{
    let m1 = finalize_model(cs, subp, m);
    assert(m1.subscription_events@ == m.subscription_events@);
    assert(new_sub_attr(cs, subp, m1) == new_sub_attr(cs, subp, m));
    assert(canceled_sub_attr(cs, subp, m1) == canceled_sub_attr(cs, subp, m));
    assert(install_delta(m1) == install_delta(m));
    assert(sub_delta(m1) == sub_delta(m));
}

} // verus!
