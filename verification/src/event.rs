//! The event record: one normalized lifecycle event, and the category an
//! event belongs to.

use vstd::prelude::*;
use crate::dates::DateTime;
use crate::pattern::{case_match, regex_match};

verus! {

/// One lifecycle event, immutable once parsed. The external reader fills
/// `excluding_check_data` with the value of the configured exclusion-check
/// field of the raw record; an unparsable date is tolerated as `None`.
#[derive(Debug, Clone, PartialEq, Eq)]
pub struct AppEvent {
    pub time: Option<DateTime>,
    pub event: String,
    pub details: String,
    pub billing_on: Option<DateTime>,
    pub shop_name: String,
    pub shop_country: String,
    pub shop_email: String,
    pub shop_domain: String,
    pub excluding_check_data: String,
}

impl AppEvent {
    /// An empty event: no timestamps, every text field blank.
    pub fn new() -> (r: AppEvent)
        ensures
            r.time is None,
            r.billing_on is None,
            r.event@ == Seq::<char>::empty(),
            r.details@ == Seq::<char>::empty(),
            r.shop_name@ == Seq::<char>::empty(),
            r.shop_country@ == Seq::<char>::empty(),
            r.shop_email@ == Seq::<char>::empty(),
            r.shop_domain@ == Seq::<char>::empty(),
            r.excluding_check_data@ == Seq::<char>::empty(),
    {
        AppEvent {
            time: None,
            event: String::new(),
            details: String::new(),
            billing_on: None,
            shop_name: String::new(),
            shop_country: String::new(),
            shop_email: String::new(),
            shop_domain: String::new(),
            excluding_check_data: String::new(),
        }
    }

    /// An owned copy equal to `self`.
    pub fn duplicate(&self) -> (r: AppEvent)
        ensures
            r == *self,
    {
        AppEvent {
            time: self.time,
            event: self.event.clone(),
            details: self.details.clone(),
            billing_on: self.billing_on,
            shop_name: self.shop_name.clone(),
            shop_country: self.shop_country.clone(),
            shop_email: self.shop_email.clone(),
            shop_domain: self.shop_domain.clone(),
            excluding_check_data: self.excluding_check_data.clone(),
        }
    }
}

/// The category of an event. Every event belongs to exactly one; events that
/// match no rule are `Unclassified` and silently ignored.
#[derive(Clone, Copy, Debug, PartialEq, Eq, Structural)]
pub enum Category {
    Install,
    Uninstall,
    StoreClosed,
    StoreReopened,
    OneTimePurchase,
    SubscriptionActivated,
    SubscriptionCanceled,
    Unclassified,
}

/// The category of an event, decided on its event-type string alone, first
/// match winning. The install-family rules are patterns matched
/// case-sensitively; the purchase and subscription rules are fixed string
/// sets ("unfrozen" counts as activation, "frozen" as cancellation).
pub open spec fn category_of(e: AppEvent) -> Category {
    if regex_match("Installed"@, e.event@) {
        Category::Install
    } else if regex_match("Uninstalled"@, e.event@) {
        Category::Uninstall
    } else if regex_match("Store closed"@, e.event@) {
        Category::StoreClosed
    } else if regex_match("Store re-opened"@, e.event@) {
        Category::StoreReopened
    } else if e.event@ == "Charge activated"@ {
        Category::OneTimePurchase
    } else if e.event@ == "Subscription charge activated"@ || e.event@
        == "Subscription charge unfrozen"@ {
        Category::SubscriptionActivated
    } else if e.event@ == "Subscription charge canceled"@ || e.event@
        == "Subscription charge frozen"@ {
        Category::SubscriptionCanceled
    } else {
        Category::Unclassified
    }
}

/// The two inputs the exclusion check runs on: the global case-sensitivity
/// toggle and the configured exclusion pattern.
pub struct MatchCfg {
    pub case_sensitive: bool,
    pub excluding_pattern: Seq<char>,
}

/// Whether the exclusion rule drops the event: its designated
/// exclusion-check value matches the exclusion pattern.
pub open spec fn excluded(cfg: MatchCfg, e: AppEvent) -> bool {
    case_match(cfg.case_sensitive, cfg.excluding_pattern, e.excluding_check_data@)
}

/// Whether the event touches any aggregate state: it survives exclusion and
/// falls in some category.
pub open spec fn relevant(cfg: MatchCfg, e: AppEvent) -> bool {
    !excluded(cfg, e) && category_of(e) != Category::Unclassified
}

/// The categories whose events go to a tenant's install-family list.
pub open spec fn is_install_family(c: Category) -> bool {
    c == Category::Install || c == Category::Uninstall || c == Category::StoreClosed || c
        == Category::StoreReopened
}

/// The categories whose events go to a tenant's subscription list.
pub open spec fn is_subscription(c: Category) -> bool {
    c == Category::SubscriptionActivated || c == Category::SubscriptionCanceled
}

} // verus!
