//! End-to-end scenarios through `analyze_events_list`, run with the real
//! regex engine linked.

use jisrot::analyze::analyze_events_list;
use jisrot::defs::{ExcludingDef, PricingDefs, PricingUnit};
use jisrot::dates::DateTime;
use jisrot::error::AnalyzeError;
use jisrot::event::AppEvent;
use jisrot::merchant::{InstalledStatus, SubscriptionStatus};
use jisrot::stats::Percent;

fn plan(code: &str, name: &str, pattern: &str, cents: u64) -> PricingUnit {
    PricingUnit {
        code: code.to_string(),
        name: name.to_string(),
        regex_pattern: pattern.to_string(),
        price_minor_units: cents,
        currency: "USD".to_string(),
    }
}

fn defs() -> PricingDefs {
    PricingDefs {
        subscriptions: vec![
            plan("standard", "Standard", "standard", 799),
            plan("pro", "Pro", "pro", 2799),
        ],
        one_times: vec![
            plan("pack2k", "2000 Labels", "2000", 1199),
            plan("pack5k", "5000 Labels", "5000", 2299),
            plan("pack15k", "15000 Labels", "15000", 4499),
        ],
    }
}

fn excl() -> ExcludingDef {
    ExcludingDef {
        excluding_field: "Shop email".to_string(),
        excluding_pattern: "magestore".to_string(),
    }
}

fn ev(event: &str, details: &str, domain: &str) -> AppEvent {
    let email = format!("owner@{}", domain);
    AppEvent {
        time: None,
        event: event.to_string(),
        details: details.to_string(),
        billing_on: None,
        shop_name: String::new(),
        shop_country: String::new(),
        shop_email: email.clone(),
        shop_domain: domain.to_string(),
        excluding_check_data: email,
    }
}

fn pct(p: &Percent) -> f64 {
    if p.den == 0 {
        0.0
    } else {
        p.num as f64 / p.den as f64 * 100.0
    }
}

fn code_count(counts: &[jisrot::stats::PlanCount], code: &str) -> i64 {
    counts.iter().find(|c| c.code == code).expect("code must be seeded").count
}

#[test]
fn install_then_uninstall_scenario() {
    let events = vec![
        ev("Installed", "", "a.myshopify.com"),
        ev("Uninstalled", "", "a.myshopify.com"),
    ];
    let (total, list) = analyze_events_list(&events, &defs(), &excl(), false).unwrap();
    assert_eq!(total.installed_count, 1);
    assert_eq!(total.uninstalled_count, 1);
    assert_eq!(total.merchant_growth, 0);
    assert_eq!(pct(&total.total_churn_rate), 100.0);
    assert_eq!(total.old_uninstalled_count, 0);
    assert_eq!(list.merchants.len(), 1);
    let m = &list.merchants[0];
    assert_eq!(m.shop_domain, "a.myshopify.com");
    // One install and one uninstall balance out: the three-way delta rule
    // leaves the status unset ("None"), and in particular not a
    // pre-existing uninstall, since the earliest retained event is the
    // install.
    assert_eq!(m.installed_status, InstalledStatus::Unset);
    assert_eq!(m.installed_status.label(), "None");
    assert_eq!(m.installing_events.len(), 2);
}

#[test]
fn fresh_uninstall_is_not_pre_existing() {
    let events = vec![
        ev("Installed", "", "a.myshopify.com"),
        ev("Uninstalled", "", "a.myshopify.com"),
        ev("Uninstalled", "", "a.myshopify.com"),
    ];
    let (total, list) = analyze_events_list(&events, &defs(), &excl(), false).unwrap();
    let m = &list.merchants[0];
    // The delta is negative, but the earliest retained install-family event
    // is the install, so this is a fresh uninstall, not a pre-existing one.
    assert_eq!(m.installed_status, InstalledStatus::Uninstalled);
    assert_eq!(m.installed_status.label(), "Uninstalled");
    assert_eq!(total.old_uninstalled_count, 0);
}

#[test]
fn lone_uninstall_is_pre_existing() {
    let events = vec![ev("Uninstalled", "", "b.myshopify.com")];
    let (total, list) = analyze_events_list(&events, &defs(), &excl(), false).unwrap();
    let m = &list.merchants[0];
    assert_eq!(m.installed_status, InstalledStatus::UninstalledOld);
    assert_eq!(m.installed_status.label(), "UninstalledOld");
    assert_eq!(total.old_uninstalled_count, 1);
    assert_eq!(pct(&total.churn_rate), 0.0);
}

#[test]
fn churn_excludes_old_uninstalls() {
    let events = vec![
        ev("Installed", "", "c.myshopify.com"),
        ev("Uninstalled", "", "b.myshopify.com"),
    ];
    let (total, _list) = analyze_events_list(&events, &defs(), &excl(), false).unwrap();
    assert_eq!(total.installed_count, 1);
    assert_eq!(total.uninstalled_count, 1);
    assert_eq!(total.old_uninstalled_count, 1);
    // The pre-existing uninstall leaves the windowed churn numerator.
    assert_eq!(total.churn_rate, Percent { num: 0, den: 1 });
    assert_eq!(pct(&total.churn_rate), 0.0);
    // The raw total churn rate still counts it.
    assert_eq!(pct(&total.total_churn_rate), 100.0);
}

#[test]
fn exclusion_drops_everything() {
    let mut e1 = ev("Installed", "", "a.myshopify.com");
    e1.excluding_check_data = "team@magestore.com".to_string();
    let mut e2 = ev("Charge activated", "2000 Labels", "b.myshopify.com");
    e2.excluding_check_data = "qa@Magestore.com".to_string();
    let events = vec![e1, e2];
    let (total, list) = analyze_events_list(&events, &defs(), &excl(), false).unwrap();
    assert_eq!(total.installed_count, 0);
    assert_eq!(total.uninstalled_count, 0);
    assert_eq!(total.one_time_count, 0);
    assert_eq!(total.new_sub_count, 0);
    assert_eq!(total.merchant_growth, 0);
    assert_eq!(pct(&total.total_churn_rate), 0.0);
    assert!(list.merchants.is_empty());
    // Zero-activity codes are still present, at zero.
    let g = &total.sub_stats_details.sub_growth;
    assert_eq!(code_count(&g.monthly_counts, "standard"), 0);
    assert_eq!(code_count(&g.monthly_counts, "pro"), 0);
    assert_eq!(code_count(&g.yearly_counts, "standard"), 0);
    assert_eq!(code_count(&g.yearly_counts, "pro"), 0);
}

#[test]
fn one_time_purchase_attributed_first_match() {
    let events = vec![ev("Charge activated", "2000 Labels pack", "d.myshopify.com")];
    let (total, list) = analyze_events_list(&events, &defs(), &excl(), false).unwrap();
    assert_eq!(total.one_time_count, 1);
    assert_eq!(code_count(&total.one_time_details, "pack2k"), 1);
    assert_eq!(code_count(&total.one_time_details, "pack5k"), 0);
    assert_eq!(code_count(&total.one_time_details, "pack15k"), 0);
    let m = &list.merchants[0];
    assert_eq!(m.one_time_count, 1);
    assert_eq!(code_count(&m.one_time_details, "pack2k"), 1);
    assert_eq!(m.one_time_events.len(), 1);
}

#[test]
fn one_time_purchase_without_plan_match() {
    let events = vec![ev("Charge activated", "123 Labels", "d.myshopify.com")];
    let (total, list) = analyze_events_list(&events, &defs(), &excl(), false).unwrap();
    assert_eq!(total.one_time_count, 1);
    assert_eq!(code_count(&total.one_time_details, "pack2k"), 0);
    assert_eq!(code_count(&total.one_time_details, "pack5k"), 0);
    assert_eq!(code_count(&total.one_time_details, "pack15k"), 0);
    assert_eq!(list.merchants[0].one_time_count, 1);
}

#[test]
fn plan_scan_order_first_match_wins() {
    // "15000 Labels" contains "5000", and the 5000-pack stands earlier in
    // definition order than the 15000-pack: the first match takes it.
    let events = vec![ev("Charge activated", "15000 Labels", "d.myshopify.com")];
    let (total, _list) = analyze_events_list(&events, &defs(), &excl(), false).unwrap();
    assert_eq!(code_count(&total.one_time_details, "pack5k"), 1);
    assert_eq!(code_count(&total.one_time_details, "pack15k"), 0);
}

#[test]
fn latest_activation_attributed() {
    let events = vec![
        ev("Subscription charge activated", "Standard plan", "s.myshopify.com"),
        ev("Subscription charge activated", "Pro plan Year", "s.myshopify.com"),
    ];
    let (total, list) = analyze_events_list(&events, &defs(), &excl(), false).unwrap();
    let m = &list.merchants[0];
    assert_eq!(m.subscription_activated_count, 2);
    assert_eq!(m.subscription_status, SubscriptionStatus::Active);
    assert_eq!(m.subscription_status.label(), "Active");
    assert_eq!(m.last_new_sub_plan.as_ref().unwrap().code, "pro");
    assert_eq!(
        m.last_new_sub_billing_cycle,
        Some(jisrot::stats::BillingCycle::Yearly)
    );
    assert_eq!(total.new_sub_count, 1);
    let d = &total.sub_stats_details;
    assert_eq!(code_count(&d.all_new_sub.yearly_counts, "pro"), 1);
    assert_eq!(code_count(&d.all_new_sub.monthly_counts, "pro"), 0);
    assert_eq!(code_count(&d.new_sub.yearly_counts, "pro"), 1);
    assert_eq!(code_count(&d.sub_growth.yearly_counts, "pro"), 1);
}

#[test]
fn unfrozen_counts_as_activation() {
    let events = vec![
        ev("Subscription charge unfrozen", "standard plan", "s.myshopify.com"),
    ];
    let (total, list) = analyze_events_list(&events, &defs(), &excl(), false).unwrap();
    let m = &list.merchants[0];
    assert_eq!(m.subscription_activated_count, 1);
    assert_eq!(m.subscription_status, SubscriptionStatus::Active);
    assert_eq!(m.last_new_sub_plan.as_ref().unwrap().code, "standard");
    assert_eq!(
        m.last_new_sub_billing_cycle,
        Some(jisrot::stats::BillingCycle::Monthly)
    );
    assert_eq!(total.new_sub_count, 1);
}

#[test]
fn earliest_cancellation_attributed() {
    let events = vec![
        ev("Subscription charge activated", "pro plan", "s.myshopify.com"),
        ev("Subscription charge canceled", "standard plan", "s.myshopify.com"),
        ev("Subscription charge frozen", "pro plan", "s.myshopify.com"),
    ];
    let (total, list) = analyze_events_list(&events, &defs(), &excl(), false).unwrap();
    let m = &list.merchants[0];
    assert_eq!(m.subscription_activated_count, 1);
    assert_eq!(m.subscription_canceled_count, 2);
    assert_eq!(m.subscription_status, SubscriptionStatus::Canceled);
    assert_eq!(m.first_canceled_sub_plan.as_ref().unwrap().code, "standard");
    assert_eq!(
        m.first_canceled_sub_billing_cycle,
        Some(jisrot::stats::BillingCycle::Monthly)
    );
    assert_eq!(total.canceled_sub_count, 1);
    let d = &total.sub_stats_details;
    // The single activation is still attributed, but the tenant is not
    // active, so only the all-new counter moves.
    assert_eq!(code_count(&d.all_new_sub.monthly_counts, "pro"), 1);
    assert_eq!(code_count(&d.new_sub.monthly_counts, "pro"), 0);
    assert_eq!(code_count(&d.all_canceled_sub.monthly_counts, "standard"), 1);
    assert_eq!(code_count(&d.canceled_sub.monthly_counts, "standard"), 1);
    // Net growth per plan: all-new minus all-canceled, negatives included.
    assert_eq!(code_count(&d.sub_growth.monthly_counts, "pro"), 1);
    assert_eq!(code_count(&d.sub_growth.monthly_counts, "standard"), -1);
    assert_eq!(total.sub_growth, -1);
    assert_eq!(total.paid_growth, -1);
}

#[test]
fn case_toggle_applies_to_plan_patterns() {
    let events = vec![
        ev("Subscription charge activated", "STANDARD PLAN", "s.myshopify.com"),
    ];
    let (_, list_sensitive) = analyze_events_list(&events, &defs(), &excl(), true).unwrap();
    assert!(list_sensitive.merchants[0].last_new_sub_plan.is_none());
    let (_, list_insensitive) = analyze_events_list(&events, &defs(), &excl(), false).unwrap();
    assert_eq!(
        list_insensitive.merchants[0].last_new_sub_plan.as_ref().unwrap().code,
        "standard"
    );
}

#[test]
fn case_toggle_applies_to_exclusion() {
    let mut e = ev("Installed", "", "a.myshopify.com");
    e.excluding_check_data = "team@MAGESTORE.com".to_string();
    let events = vec![e];
    let (total_ci, _) = analyze_events_list(&events, &defs(), &excl(), false).unwrap();
    assert_eq!(total_ci.installed_count, 0);
    let (total_cs, _) = analyze_events_list(&events, &defs(), &excl(), true).unwrap();
    assert_eq!(total_cs.installed_count, 1);
}

#[test]
fn merchant_growth_and_total_churn() {
    let events = vec![
        ev("Installed", "", "a.myshopify.com"),
        ev("Installed", "", "b.myshopify.com"),
        ev("Store re-opened", "", "a.myshopify.com"),
        ev("Uninstalled", "", "b.myshopify.com"),
        ev("Store closed", "", "c.myshopify.com"),
    ];
    let (total, list) = analyze_events_list(&events, &defs(), &excl(), false).unwrap();
    assert_eq!(total.installed_count, 2);
    assert_eq!(total.store_reopened_count, 1);
    assert_eq!(total.uninstalled_count, 1);
    assert_eq!(total.store_closed_count, 1);
    assert_eq!(total.merchant_growth, 1);
    assert_eq!(pct(&total.total_churn_rate), 50.0);
    assert_eq!(list.merchants.len(), 3);
    assert_eq!(list.merchants[0].installed_status, InstalledStatus::Installed);
}

#[test]
fn empty_event_list_is_error() {
    let events: Vec<AppEvent> = Vec::new();
    let err = analyze_events_list(&events, &defs(), &excl(), false).unwrap_err();
    assert_eq!(err, AnalyzeError::EmptyEventList);
    assert_eq!(err.message(), "the event list holds no event");
}

#[test]
fn invalid_pattern_is_error() {
    let bad = ExcludingDef {
        excluding_field: "Shop email".to_string(),
        excluding_pattern: "(".to_string(),
    };
    let events = vec![ev("Installed", "", "a.myshopify.com")];
    let err = analyze_events_list(&events, &defs(), &bad, false).unwrap_err();
    assert!(matches!(err, AnalyzeError::InvalidPattern(ref p) if p == "("));
    assert_eq!(err.message(), "invalid pattern: (");
}

#[test]
fn run_window_labels() {
    let mut first = ev("Installed", "", "a.myshopify.com");
    first.time = Some(DateTime { year: 2024, month: 10, day: 5, hour: 9, minute: 30, second: 0 });
    let mut last = ev("Uninstalled", "", "a.myshopify.com");
    last.time = Some(DateTime { year: 2024, month: 12, day: 31, hour: 23, minute: 59, second: 59 });
    let events = vec![first.clone(), last.clone()];
    let (total, list) = analyze_events_list(&events, &defs(), &excl(), false).unwrap();
    assert_eq!(total.start_time, first.time);
    assert_eq!(total.end_time, last.time);
    assert_eq!(total.start_time_str, "Oct05");
    assert_eq!(total.end_time_str, "Dec31");
    assert_eq!(list.start_time, first.time);
    assert_eq!(list.end_time, last.time);
}

#[test]
fn unknown_event_types_are_ignored() {
    let events = vec![
        ev("Installed", "", "a.myshopify.com"),
        ev("Credit applied", "", "a.myshopify.com"),
        ev("Something else", "", "z.myshopify.com"),
    ];
    let (total, list) = analyze_events_list(&events, &defs(), &excl(), false).unwrap();
    assert_eq!(total.installed_count, 1);
    // The unknown events create no tenant record.
    assert_eq!(list.merchants.len(), 1);
}

#[test]
fn tenants_kept_in_first_appearance_order() {
    let events = vec![
        ev("Installed", "", "b.myshopify.com"),
        ev("Installed", "", "a.myshopify.com"),
        ev("Uninstalled", "", "b.myshopify.com"),
        ev("Installed", "", "c.myshopify.com"),
    ];
    let (_, list) = analyze_events_list(&events, &defs(), &excl(), false).unwrap();
    let order: Vec<&str> = list.merchants.iter().map(|m| m.shop_domain.as_str()).collect();
    assert_eq!(order, vec!["b.myshopify.com", "a.myshopify.com", "c.myshopify.com"]);
}

#[test]
fn status_counts_sum_over_tenants() {
    // Three tenants: one ends active, one ends canceled, one balances out.
    let events = vec![
        ev("Subscription charge activated", "standard", "a.myshopify.com"),
        ev("Subscription charge canceled", "standard", "b.myshopify.com"),
        ev("Subscription charge activated", "pro", "c.myshopify.com"),
        ev("Subscription charge canceled", "pro", "c.myshopify.com"),
    ];
    let (total, list) = analyze_events_list(&events, &defs(), &excl(), false).unwrap();
    let active = list
        .merchants
        .iter()
        .filter(|m| m.subscription_status == SubscriptionStatus::Active)
        .count();
    let canceled = list
        .merchants
        .iter()
        .filter(|m| m.subscription_status == SubscriptionStatus::Canceled)
        .count();
    assert_eq!(active, 1);
    assert_eq!(canceled, 1);
    assert_eq!(total.new_sub_count, 1);
    assert_eq!(total.canceled_sub_count, 1);
    assert_eq!(total.sub_growth, 0);
}

#[test]
fn rerun_gives_identical_results() {
    let events = vec![
        ev("Installed", "", "a.myshopify.com"),
        ev("Subscription charge activated", "pro plan Year", "a.myshopify.com"),
        ev("Charge activated", "5000 Labels", "b.myshopify.com"),
        ev("Subscription charge canceled", "standard", "c.myshopify.com"),
    ];
    let (t1, l1) = analyze_events_list(&events, &defs(), &excl(), false).unwrap();
    let (t2, l2) = analyze_events_list(&events, &defs(), &excl(), false).unwrap();
    assert_eq!(t1, t2);
    assert_eq!(l1.merchants, l2.merchants);
}
