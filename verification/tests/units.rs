//! Unit-level checks of the library's types: counters, per-plan maps,
//! errors, labels, dates, and the definition helpers.

use jisrot::dates::{DateTime, format_month_day};
use jisrot::defs::{ExcludingDef, PricingDefs, PricingUnit, UiOption};
use jisrot::error::AnalyzeError;
use jisrot::event::AppEvent;
use jisrot::merchant::{InstalledStatus, MerchantData, MerchantDataList, SubscriptionStatus};
use jisrot::stats::{BillingCycle, Percent, SubscriptionStatsCounter, TotalStats};

fn plan(code: &str, pattern: &str) -> PricingUnit {
    PricingUnit {
        code: code.to_string(),
        name: code.to_string(),
        regex_pattern: pattern.to_string(),
        price_minor_units: 100,
        currency: "USD".to_string(),
    }
}

fn defs() -> PricingDefs {
    PricingDefs {
        subscriptions: vec![plan("standard", "standard"), plan("pro", "pro")],
        one_times: vec![plan("pack2k", "2000"), plan("pack5k", "5000")],
    }
}

#[test]
fn status_labels() {
    assert_eq!(InstalledStatus::Installed.label(), "Installed");
    assert_eq!(InstalledStatus::Uninstalled.label(), "Uninstalled");
    assert_eq!(InstalledStatus::UninstalledOld.label(), "UninstalledOld");
    assert_eq!(InstalledStatus::Unset.label(), "None");
    assert_eq!(SubscriptionStatus::Active.label(), "Active");
    assert_eq!(SubscriptionStatus::Canceled.label(), "Canceled");
    assert_eq!(SubscriptionStatus::Unset.label(), "None");
}

#[test]
fn error_messages() {
    assert_eq!(
        AnalyzeError::UnknownPlanCode("ghost".to_string()).message(),
        "plan code ghost not found in initialized count stats"
    );
    assert_eq!(AnalyzeError::EmptyEventList.message(), "the event list holds no event");
    assert_eq!(
        AnalyzeError::InvalidPattern("[".to_string()).message(),
        "invalid pattern: ["
    );
}

#[test]
fn month_day_formatting() {
    let t = DateTime { year: 2024, month: 1, day: 5, hour: 0, minute: 0, second: 0 };
    assert_eq!(format_month_day(&t), "Jan05");
    let t2 = DateTime { year: 2023, month: 12, day: 31, hour: 1, minute: 2, second: 3 };
    assert_eq!(format_month_day(&t2), "Dec31");
    let t3 = DateTime { year: 2025, month: 7, day: 10, hour: 0, minute: 0, second: 0 };
    assert_eq!(format_month_day(&t3), "Jul10");
}

#[test]
fn app_event_new_is_empty() {
    let e = AppEvent::new();
    assert!(e.time.is_none());
    assert!(e.billing_on.is_none());
    assert_eq!(e.event, "");
    assert_eq!(e.details, "");
    assert_eq!(e.shop_domain, "");
    assert_eq!(e.excluding_check_data, "");
}

#[test]
fn merchant_new_is_seeded() {
    let d = defs();
    let m = MerchantData::new(&"x.myshopify.com".to_string(), &d.one_times);
    assert_eq!(m.shop_domain, "x.myshopify.com");
    assert_eq!(m.installed_count, 0);
    assert_eq!(m.one_time_details.len(), 2);
    assert_eq!(m.one_time_details[0].code, "pack2k");
    assert_eq!(m.one_time_details[0].count, 0);
    assert_eq!(m.one_time_details[1].code, "pack5k");
    assert_eq!(m.installed_status, InstalledStatus::Unset);
    assert_eq!(m.subscription_status, SubscriptionStatus::Unset);
    assert!(m.last_new_sub_plan.is_none());
}

#[test]
fn merchant_counters_step() {
    let d = defs();
    let mut m = MerchantData::new(&"x.myshopify.com".to_string(), &d.one_times);
    m.increase_installed_count(1);
    m.increase_installed_count(2);
    m.increase_uninstalled_count(1);
    m.increase_store_closed_count(1);
    m.increase_store_reopened_count(1);
    m.increase_subscription_activated_count(1);
    m.increase_subscription_canceled_count(1);
    m.increase_one_time_count(1);
    assert_eq!(m.installed_count, 3);
    assert_eq!(m.uninstalled_count, 1);
    assert_eq!(m.store_closed_count, 1);
    assert_eq!(m.store_reopened_count, 1);
    assert_eq!(m.subscription_activated_count, 1);
    assert_eq!(m.subscription_canceled_count, 1);
    assert_eq!(m.one_time_count, 1);
    m.increase_one_time_pack_count(&d.one_times[1], 2).unwrap();
    assert_eq!(m.one_time_details[1].count, 2);
    assert_eq!(m.one_time_details[0].count, 0);
}

#[test]
fn unknown_plan_code_is_error() {
    let d = defs();
    let ghost_pack = plan("ghost", "ghost");
    let mut m = MerchantData::new(&"x.myshopify.com".to_string(), &d.one_times);
    let before = m.clone();
    let err = m.increase_one_time_pack_count(&ghost_pack, 1).unwrap_err();
    assert!(matches!(err, AnalyzeError::UnknownPlanCode(ref c) if c == "ghost"));
    assert_eq!(m, before);

    let mut t = TotalStats::new(&d);
    let t_before = t.clone();
    let err2 = t.increase_one_time_pack_count(&ghost_pack, 2).unwrap_err();
    assert!(matches!(err2, AnalyzeError::UnknownPlanCode(_)));
    assert_eq!(t, t_before);

    let mut c = SubscriptionStatsCounter::new(&d.subscriptions);
    let c_before = c.clone();
    let err3 = c.increase(&ghost_pack, &BillingCycle::Monthly, 1).unwrap_err();
    assert!(matches!(err3, AnalyzeError::UnknownPlanCode(_)));
    assert_eq!(c, c_before);
}

#[test]
fn subscription_counter_tracks_cycles() {
    let d = defs();
    let mut c = SubscriptionStatsCounter::new(&d.subscriptions);
    c.increase(&d.subscriptions[0], &BillingCycle::Monthly, 1).unwrap();
    c.increase(&d.subscriptions[1], &BillingCycle::Yearly, 3).unwrap();
    c.increase(&d.subscriptions[1], &BillingCycle::Yearly, -1).unwrap();
    assert_eq!(c.monthly_counts[0].count, 1);
    assert_eq!(c.monthly_counts[1].count, 0);
    assert_eq!(c.yearly_counts[0].count, 0);
    assert_eq!(c.yearly_counts[1].count, 2);
}

#[test]
fn total_stats_new_is_zeroed() {
    let d = defs();
    let mut t = TotalStats::new(&d);
    assert_eq!(t.installed_count, 0);
    assert_eq!(t.start_time_str, "None");
    assert_eq!(t.end_time_str, "None");
    assert_eq!(t.total_churn_rate, Percent { num: 0, den: 0 });
    assert_eq!(t.one_time_details.len(), 2);
    assert_eq!(t.sub_stats_details.all_new_sub.monthly_counts.len(), 2);
    t.increase_installed_count(4);
    t.increase_uninstalled_count(1);
    t.increase_old_uninstalled_count(1);
    t.increase_store_closed_count(1);
    t.increase_store_reopened_count(1);
    t.increase_new_sub_count(2);
    t.increase_canceled_sub_count(1);
    t.increase_one_time_count(1);
    assert_eq!(t.installed_count, 4);
    assert_eq!(t.new_sub_count, 2);
    assert_eq!(t.canceled_sub_count, 1);
    assert_eq!(t.old_uninstalled_count, 1);
}

#[test]
fn pretty_time_str_fills_both_labels() {
    let d = defs();
    let mut t = TotalStats::new(&d);
    t.start_time = Some(DateTime { year: 2024, month: 3, day: 1, hour: 0, minute: 0, second: 0 });
    t.end_time = Some(DateTime { year: 2024, month: 11, day: 9, hour: 0, minute: 0, second: 0 });
    t.build_pretty_time_str();
    assert_eq!(t.start_time_str, "Mar01");
    assert_eq!(t.end_time_str, "Nov09");
}

#[test]
fn update_merchant_replaces_or_appends() {
    let d = defs();
    let mut list = MerchantDataList::new();
    let mut a = MerchantData::new(&"a.myshopify.com".to_string(), &d.one_times);
    list.update_merchant(a.clone());
    assert_eq!(list.merchants.len(), 1);
    a.increase_installed_count(1);
    list.update_merchant(a.clone());
    assert_eq!(list.merchants.len(), 1);
    assert_eq!(list.merchants[0].installed_count, 1);
    let b = MerchantData::new(&"b.myshopify.com".to_string(), &d.one_times);
    list.update_merchant(b);
    assert_eq!(list.merchants.len(), 2);
    assert_eq!(list.find_index("a.myshopify.com"), Some(0));
    assert_eq!(list.find_index("b.myshopify.com"), Some(1));
    assert_eq!(list.find_index("c.myshopify.com"), None);
}

#[test]
fn codes_distinct_check() {
    let good = defs();
    assert!(good.check_codes_distinct());
    let bad = PricingDefs {
        subscriptions: vec![plan("standard", "standard"), plan("standard", "std")],
        one_times: vec![],
    };
    assert!(!bad.check_codes_distinct());
}

#[test]
fn ui_option_value_check() {
    let opt = UiOption {
        value: "custom".to_string(),
        text: "Custom".to_string(),
        connected_data: None,
    };
    assert!(opt.has_value("custom"));
    assert!(!opt.has_value("sbm"));
}

#[test]
fn excluding_def_fields() {
    let e = ExcludingDef {
        excluding_field: "Shop email".to_string(),
        excluding_pattern: "magestore".to_string(),
    };
    assert_eq!(e.excluding_field, "Shop email");
    assert_eq!(e.excluding_pattern, "magestore");
}

#[test]
fn percent_zero_guard() {
    let z = Percent::zero();
    assert_eq!(z, Percent { num: 0, den: 0 });
}

#[test]
fn event_duplicate_is_equal() {
    let mut e = AppEvent::new();
    e.event = "Installed".to_string();
    e.shop_domain = "a.myshopify.com".to_string();
    e.time = Some(DateTime { year: 2024, month: 5, day: 2, hour: 1, minute: 2, second: 3 });
    let copy = e.duplicate();
    assert_eq!(copy, e);
}
