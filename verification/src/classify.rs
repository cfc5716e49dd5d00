//! The classifier's working form of the definitions: every configured
//! pattern compiled exactly once, reused across the whole run.

use vstd::prelude::*;
use vstd::string::StringExecFns;
use crate::defs::{ExcludingDef, PricingDefs, PricingUnit, distinct_codes, duplicate_plans};
use crate::error::AnalyzeError;
use crate::event::{AppEvent, Category, MatchCfg, category_of, excluded};
use crate::model::{first_plan, lemma_first_plan_hits, lemma_first_plan_misses, plan_matches};
use crate::pattern::{Matcher, case_match, effective_pattern, regex_accepts};

verus! {

/// Every pattern the run needs compiles: the exclusion pattern, the fixed
/// install-family patterns, the yearly pattern, and each plan's pattern
/// (lowercased first when matching case-insensitively).
pub open spec fn all_patterns_ok(
    case_sensitive: bool,
    defs: PricingDefs,
    excluding_pattern: Seq<char>,
) -> bool {
    &&& regex_accepts(effective_pattern(case_sensitive, excluding_pattern))
    &&& regex_accepts("Installed"@)
    &&& regex_accepts("Uninstalled"@)
    &&& regex_accepts("Store closed"@)
    &&& regex_accepts("Store re-opened"@)
    &&& regex_accepts(effective_pattern(case_sensitive, "Year"@))
    &&& forall|k: int|
        0 <= k < defs.subscriptions@.len() ==> regex_accepts(
            effective_pattern(case_sensitive, defs.subscriptions@[k].regex_pattern@),
        )
    &&& forall|k: int|
        0 <= k < defs.one_times@.len() ==> regex_accepts(
            effective_pattern(case_sensitive, defs.one_times@[k].regex_pattern@),
        )
}

/// The definitions with every pattern compiled: what both passes read.
pub struct CompiledDefs {
    pub case_sensitive: bool,
    pub excluding_field: String,
    pub excluding_pattern: String,
    pub excluding_m: Matcher,
    pub installed_m: Matcher,
    pub uninstalled_m: Matcher,
    pub store_closed_m: Matcher,
    pub store_reopened_m: Matcher,
    pub yearly_m: Matcher,
    pub subscriptions: Vec<PricingUnit>,
    pub subscription_ms: Vec<Matcher>,
    pub one_times: Vec<PricingUnit>,
    pub one_time_ms: Vec<Matcher>,
}

impl CompiledDefs {
    /// The spec-level view of the classification configuration.
    pub open spec fn cfg(self) -> MatchCfg {
        MatchCfg {
            case_sensitive: self.case_sensitive,
            excluding_pattern: self.excluding_pattern@,
        }
    }

    pub open spec fn wf(self) -> bool {
        &&& self.excluding_m.wf() && self.excluding_m.pattern() == self.excluding_pattern@
            && self.excluding_m.case_sensitive == self.case_sensitive
        &&& self.installed_m.wf() && self.installed_m.pattern() == "Installed"@
            && self.installed_m.case_sensitive
        &&& self.uninstalled_m.wf() && self.uninstalled_m.pattern() == "Uninstalled"@
            && self.uninstalled_m.case_sensitive
        &&& self.store_closed_m.wf() && self.store_closed_m.pattern() == "Store closed"@
            && self.store_closed_m.case_sensitive
        &&& self.store_reopened_m.wf() && self.store_reopened_m.pattern() == "Store re-opened"@
            && self.store_reopened_m.case_sensitive
        &&& self.yearly_m.wf() && self.yearly_m.pattern() == "Year"@
            && self.yearly_m.case_sensitive == self.case_sensitive
        &&& self.subscription_ms@.len() == self.subscriptions@.len()
        &&& forall|k: int|
            0 <= k < self.subscription_ms@.len() ==> (#[trigger] self.subscription_ms@[k]).wf()
                && self.subscription_ms@[k].pattern() == self.subscriptions@[k].regex_pattern@
                && self.subscription_ms@[k].case_sensitive == self.case_sensitive
        &&& self.one_time_ms@.len() == self.one_times@.len()
        &&& forall|k: int|
            0 <= k < self.one_time_ms@.len() ==> (#[trigger] self.one_time_ms@[k]).wf()
                && self.one_time_ms@[k].pattern() == self.one_times@[k].regex_pattern@
                && self.one_time_ms@[k].case_sensitive == self.case_sensitive
        &&& distinct_codes(self.subscriptions@)
        &&& distinct_codes(self.one_times@)
    }

    /// Compile every pattern of the definitions once. Fails exactly when
    /// some pattern is rejected by the regex engine, naming a rejected
    /// pattern.
    pub fn new(pricing_defs: &PricingDefs, excluding_def: &ExcludingDef, case_sensitive: bool) -> (r:
        Result<CompiledDefs, AnalyzeError>)
        requires
            pricing_defs.codes_distinct(),
        ensures
            r is Ok <==> all_patterns_ok(
                case_sensitive,
                *pricing_defs,
                excluding_def.excluding_pattern@,
            ),
            r matches Ok(c) ==> c.wf() && c.case_sensitive == case_sensitive && c.subscriptions@
                == pricing_defs.subscriptions@ && c.one_times@ == pricing_defs.one_times@
                && c.excluding_pattern@ == excluding_def.excluding_pattern@ && c.excluding_field@
                == excluding_def.excluding_field@,
            r matches Err(e) ==> e matches AnalyzeError::InvalidPattern(p) && (!regex_accepts(
                effective_pattern(case_sensitive, p@),
            ) || !regex_accepts(p@)),
    {
        let excluding_m = match Matcher::new(excluding_def.excluding_pattern.as_str(), case_sensitive) {
            Some(m) => m,
            None => {
                return Err(
                    AnalyzeError::InvalidPattern(excluding_def.excluding_pattern.clone()),
                );
            },
        };
        let installed_m = match Matcher::new("Installed", true) {
            Some(m) => m,
            None => { return Err(AnalyzeError::InvalidPattern(String::from_str("Installed"))); },
        };
        let uninstalled_m = match Matcher::new("Uninstalled", true) {
            Some(m) => m,
            None => { return Err(AnalyzeError::InvalidPattern(String::from_str("Uninstalled"))); },
        };
        let store_closed_m = match Matcher::new("Store closed", true) {
            Some(m) => m,
            None => {
                return Err(AnalyzeError::InvalidPattern(String::from_str("Store closed")));
            },
        };
        let store_reopened_m = match Matcher::new("Store re-opened", true) {
            Some(m) => m,
            None => {
                return Err(AnalyzeError::InvalidPattern(String::from_str("Store re-opened")));
            },
        };
        let yearly_m = match Matcher::new("Year", case_sensitive) {
            Some(m) => m,
            None => { return Err(AnalyzeError::InvalidPattern(String::from_str("Year"))); },
        };
        let subscription_ms = match compile_plan_matchers(&pricing_defs.subscriptions, case_sensitive) {
            Ok(ms) => ms,
            Err(e) => { return Err(e); },
        };
        let one_time_ms = match compile_plan_matchers(&pricing_defs.one_times, case_sensitive) {
            Ok(ms) => ms,
            Err(e) => { return Err(e); },
        };
        Ok(
            CompiledDefs {
                case_sensitive,
                excluding_field: excluding_def.excluding_field.clone(),
                excluding_pattern: excluding_def.excluding_pattern.clone(),
                excluding_m,
                installed_m,
                uninstalled_m,
                store_closed_m,
                store_reopened_m,
                yearly_m,
                subscriptions: duplicate_plans(&pricing_defs.subscriptions),
                subscription_ms,
                one_times: duplicate_plans(&pricing_defs.one_times),
                one_time_ms,
            },
        )
    }

    /// Whether the exclusion rule drops this event.
    pub fn is_excluded(&self, e: &AppEvent) -> (r: bool)
        requires
            self.wf(),
        ensures
            r == excluded(self.cfg(), *e),
    {
        self.excluding_m.is_match(e.excluding_check_data.as_str())
    }

    /// The category of this event: the fixed rules tried in priority order,
    /// first match winning.
    pub fn classify(&self, e: &AppEvent) -> (c: Category)
        requires
            self.wf(),
        ensures
            c == category_of(*e),
    {
        if self.installed_m.is_match(e.event.as_str()) {
            Category::Install
        } else if self.uninstalled_m.is_match(e.event.as_str()) {
            Category::Uninstall
        } else if self.store_closed_m.is_match(e.event.as_str()) {
            Category::StoreClosed
        } else if self.store_reopened_m.is_match(e.event.as_str()) {
            Category::StoreReopened
        } else if crate::pattern::str_eq(e.event.as_str(), "Charge activated") {
            Category::OneTimePurchase
        } else if crate::pattern::str_eq(e.event.as_str(), "Subscription charge activated")
            || crate::pattern::str_eq(e.event.as_str(), "Subscription charge unfrozen") {
            Category::SubscriptionActivated
        } else if crate::pattern::str_eq(e.event.as_str(), "Subscription charge canceled")
            || crate::pattern::str_eq(e.event.as_str(), "Subscription charge frozen") {
            Category::SubscriptionCanceled
        } else {
            Category::Unclassified
        }
    }

    /// The first one-time plan whose pattern matches the purchase details.
    pub fn find_one_time_plan(&self, details: &str) -> (r: Option<usize>)
        requires
            self.wf(),
        ensures
            match r {
                Some(k) => k < self.one_times@.len() && first_plan(
                    self.case_sensitive,
                    self.one_times@,
                    details@,
                ) == Some(k as int),
                None => first_plan(self.case_sensitive, self.one_times@, details@) is None,
            },
    {
        find_plan_match(&self.one_time_ms, Ghost(self.one_times@), details)
    }

    /// The first subscription plan whose pattern matches the purchase
    /// details.
    pub fn find_subscription_plan(&self, details: &str) -> (r: Option<usize>)
        requires
            self.wf(),
        ensures
            match r {
                Some(k) => k < self.subscriptions@.len() && first_plan(
                    self.case_sensitive,
                    self.subscriptions@,
                    details@,
                ) == Some(k as int),
                None => first_plan(self.case_sensitive, self.subscriptions@, details@) is None,
            },
    {
        find_plan_match(&self.subscription_ms, Ghost(self.subscriptions@), details)
    }

    /// Whether the yearly pattern matches the purchase details.
    pub fn is_yearly(&self, details: &str) -> (r: bool)
        requires
            self.wf(),
        ensures
            r == case_match(self.case_sensitive, "Year"@, details@),
    {
        self.yearly_m.is_match(details)
    }
}

fn compile_plan_matchers(plans: &Vec<PricingUnit>, case_sensitive: bool) -> (r: Result<
    Vec<Matcher>,
    AnalyzeError,
>)
    ensures
        r is Ok <==> forall|k: int|
            0 <= k < plans@.len() ==> regex_accepts(
                effective_pattern(case_sensitive, plans@[k].regex_pattern@),
            ),
        r matches Ok(ms) ==> ms@.len() == plans@.len() && forall|k: int|
            0 <= k < ms@.len() ==> (#[trigger] ms@[k]).wf() && ms@[k].pattern()
                == plans@[k].regex_pattern@ && ms@[k].case_sensitive == case_sensitive,
        r matches Err(e) ==> e matches AnalyzeError::InvalidPattern(p) && !regex_accepts(
            effective_pattern(case_sensitive, p@),
        ),
{
    let mut out: Vec<Matcher> = Vec::new();
    let n = plans.len();
    for i in 0..n
        invariant
            n == plans@.len(),
            out@.len() == i,
            forall|k: int|
                0 <= k < i ==> (#[trigger] out@[k]).wf() && out@[k].pattern()
                    == plans@[k].regex_pattern@ && out@[k].case_sensitive == case_sensitive,
            forall|k: int|
                0 <= k < i ==> regex_accepts(
                    effective_pattern(case_sensitive, plans@[k].regex_pattern@),
                ),
    {
        match Matcher::new(plans[i].regex_pattern.as_str(), case_sensitive) {
            Some(m) => {
                out.push(m);
            },
            None => {
                return Err(AnalyzeError::InvalidPattern(plans[i].regex_pattern.clone()));
            },
        }
    }
    Ok(out)
}

fn find_plan_match(ms: &Vec<Matcher>, plans: Ghost<Seq<PricingUnit>>, details: &str) -> (r: Option<
    usize,
>)
    requires
        ms@.len() == plans@.len(),
        forall|k: int|
            0 <= k < ms@.len() ==> (#[trigger] ms@[k]).wf() && ms@[k].pattern()
                == plans@[k].regex_pattern@,
        forall|k: int, l: int|
            0 <= k < ms@.len() && 0 <= l < ms@.len() ==> (#[trigger] ms@[k]).case_sensitive
                == (#[trigger] ms@[l]).case_sensitive,
    ensures
        match r {
            Some(k) => k < plans@.len() && ms@.len() > 0 && first_plan(
                ms@[0].case_sensitive,
                plans@,
                details@,
            ) == Some(k as int),
            None => ms@.len() == 0 || first_plan(ms@[0].case_sensitive, plans@, details@) is None,
        },
{
    let n = ms.len();
    for i in 0..n
        invariant
            n == ms@.len(),
            ms@.len() == plans@.len(),
            forall|k: int|
                0 <= k < ms@.len() ==> (#[trigger] ms@[k]).wf() && ms@[k].pattern()
                    == plans@[k].regex_pattern@,
            forall|k: int, l: int|
                0 <= k < ms@.len() && 0 <= l < ms@.len() ==> (#[trigger] ms@[k]).case_sensitive
                    == (#[trigger] ms@[l]).case_sensitive,
            forall|k: int|
                0 <= k < i ==> !plan_matches(ms@[0].case_sensitive, plans@[k], details@),
    {
        if ms[i].is_match(details) {
            proof {
                lemma_first_plan_hits(ms@[0].case_sensitive, plans@, details@, 0, i as int);
            }
            return Some(i);
        }
    }
    proof {
        if ms@.len() > 0 {
            lemma_first_plan_misses(ms@[0].case_sensitive, plans@, details@, 0);
        }
    }
    None
}

} // verus!
