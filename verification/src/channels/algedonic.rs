//! The algedonic channel's vocabulary, classification, routing paths, the checks on
//! its routing rules and filters, and the signal processor's state.
//!
//! Signal priorities and urgencies are floating-point scores and are computed by
//! the actor layer; rule thresholds here are in thousandths.

use vstd::prelude::*;

use crate::text::concat3;

verus! {

/// Kind of algedonic channel signal.
#[derive(Debug, Clone, Copy, PartialEq, Eq, Structural)]
pub enum SignalKind {
    Pain,
    Pleasure,
    Anomaly,
    Opportunity,
    Emergency,
}

/// Severity of an algedonic channel signal, from lowest to highest.
#[derive(Debug, Clone, Copy, PartialEq, Eq, PartialOrd, Ord, Structural)]
pub enum Severity {
    Low,
    Medium,
    High,
    Critical,
}

/// Reads a severity name; anything unrecognized is medium.
pub fn parse_severity(value: &str) -> (r: Severity)
    ensures
        r == (if value@ == "critical"@ {
            Severity::Critical
        } else if value@ == "high"@ {
            Severity::High
        } else if value@ == "low"@ {
            Severity::Low
        } else {
            Severity::Medium
        }),
{
    if text_eq(value, "critical") {
        Severity::Critical
    } else if text_eq(value, "high") {
        Severity::High
    } else if text_eq(value, "low") {
        Severity::Low
    } else {
        Severity::Medium
    }
}

/// Reads the minimum severity of a severity filter; anything unrecognized is low.
pub fn parse_filter_severity(value: &str) -> (r: Severity)
    ensures
        r == (if value@ == "critical"@ {
            Severity::Critical
        } else if value@ == "high"@ {
            Severity::High
        } else if value@ == "medium"@ {
            Severity::Medium
        } else {
            Severity::Low
        }),
{
    if text_eq(value, "critical") {
        Severity::Critical
    } else if text_eq(value, "high") {
        Severity::High
    } else if text_eq(value, "medium") {
        Severity::Medium
    } else {
        Severity::Low
    }
}

/// Compares two texts character by character.
pub fn text_eq(a: &str, b: &str) -> (r: bool)
    ensures
        r == (a@ == b@),
{
    let n = a.unicode_len();
    let m = b.unicode_len();
    if n != m {
        return false;
    }
    let mut i: usize = 0;
    while i < n
        invariant
            n == a@.len(),
            m == b@.len(),
            n == m,
            i <= n,
            a@.take(i as int) == b@.take(i as int),
        decreases n - i,
    {
        if a.get_char(i) != b.get_char(i) {
            assert(a@[i as int] != b@[i as int]);
            return false;
        }
        assert(a@.take(i + 1) =~= a@.take(i as int).push(a@[i as int]));
        assert(b@.take(i + 1) =~= b@.take(i as int).push(b@[i as int]));
        i = i + 1;
    }
    assert(a@.take(n as int) =~= a@);
    assert(b@.take(n as int) =~= b@);
    true
}

/// The snake_case name of a signal kind.
pub open spec fn kind_text(kind: SignalKind) -> Seq<char> {
    match kind {
        SignalKind::Pain => "pain"@,
        SignalKind::Pleasure => "pleasure"@,
        SignalKind::Anomaly => "anomaly"@,
        SignalKind::Opportunity => "opportunity"@,
        SignalKind::Emergency => "emergency"@,
    }
}

/// Returns the snake_case name of a signal kind.
pub fn kind_name(kind: SignalKind) -> (r: &'static str)
    ensures
        r@ == kind_text(kind),
{
    match kind {
        SignalKind::Pain => "pain",
        SignalKind::Pleasure => "pleasure",
        SignalKind::Anomaly => "anomaly",
        SignalKind::Opportunity => "opportunity",
        SignalKind::Emergency => "emergency",
    }
}

/// The class of a signal: emergencies and critical signals are emergencies, high pain is
/// a threat, high pleasure an opportunity, anomalies anomalies, and the rest routine.
pub open spec fn signal_class(kind: SignalKind, severity: Severity) -> Seq<char> {
    if kind == SignalKind::Emergency || severity == Severity::Critical {
        "emergency"@
    } else if kind == SignalKind::Pain && severity == Severity::High {
        "threat"@
    } else if kind == SignalKind::Pleasure && severity == Severity::High {
        "opportunity"@
    } else if kind == SignalKind::Anomaly {
        "anomaly"@
    } else {
        "routine"@
    }
}

/// Classifies a signal by its kind and severity.
pub fn classify_signal(kind: SignalKind, severity: Severity) -> (r: &'static str)
    ensures
        r@ == signal_class(kind, severity),
{
    match (kind, severity) {
        (SignalKind::Emergency, _) | (_, Severity::Critical) => "emergency",
        (SignalKind::Pain, Severity::High) => "threat",
        (SignalKind::Pleasure, Severity::High) => "opportunity",
        (SignalKind::Anomaly, _) => "anomaly",
        _ => "routine",
    }
}

/// The hops a signal takes to a destination: through Systems 3 and 4 for the
/// hierarchical strategy, directly otherwise.
pub open spec fn route_path(destination: Seq<char>, strategy: Seq<char>) -> Seq<Seq<char>> {
    if strategy == "hierarchical"@ {
        seq!["algedonic"@, "system3"@, "system4"@, destination]
    } else {
        seq!["algedonic"@, destination]
    }
}

/// Computes the hops a signal takes to a destination.
pub fn calculate_route_path(destination: &str, strategy: &str) -> (r: Vec<String>)
    ensures
        r@.map_values(|s: String| s@) == route_path(destination@, strategy@),
{
    let mut out: Vec<String> = Vec::new();
    out.push("algedonic".to_owned());
    if text_eq(strategy, "hierarchical") {
        out.push("system3".to_owned());
        out.push("system4".to_owned());
    }
    out.push(destination.to_owned());
    assert(out@.map_values(|s: String| s@) =~= route_path(destination@, strategy@));
    out
}

/// A routing rule for algedonic signals; its threshold is in thousandths.
pub struct RoutingRule {
    pub name: String,
    pub destination: String,
    pub min_priority_milli: u32,
    pub emergency_only: bool,
}

/// The built-in routing rules: critical signals to System 5 from 0.85, high ones to
/// System 5's policy from 0.70, everything else to System 3.
pub fn default_rules() -> (r: Vec<RoutingRule>)
    ensures
        r@.len() == 3,
        r@[0].name@ == "critical_to_system5"@ && r@[0].destination@ == "system5"@ && r@[0].min_priority_milli == 850
            && !r@[0].emergency_only,
        r@[1].name@ == "high_to_policy"@ && r@[1].destination@ == "system5.policy"@ && r@[1].min_priority_milli == 700
            && !r@[1].emergency_only,
        r@[2].name@ == "routine_to_s3"@ && r@[2].destination@ == "system3"@ && r@[2].min_priority_milli == 0
            && !r@[2].emergency_only,
{
    let mut rules: Vec<RoutingRule> = Vec::new();
    rules.push(
        RoutingRule {
            name: "critical_to_system5".to_owned(),
            destination: "system5".to_owned(),
            min_priority_milli: 850,
            emergency_only: false,
        },
    );
    rules.push(
        RoutingRule {
            name: "high_to_policy".to_owned(),
            destination: "system5.policy".to_owned(),
            min_priority_milli: 700,
            emergency_only: false,
        },
    );
    rules.push(
        RoutingRule {
            name: "routine_to_s3".to_owned(),
            destination: "system3".to_owned(),
            min_priority_milli: 0,
            emergency_only: false,
        },
    );
    rules
}

/// A rule applies to a signal of this priority: it is not for emergencies only and the
/// priority reaches its threshold.
pub open spec fn rule_applies(rule: RoutingRule, priority_milli: u32) -> bool {
    !rule.emergency_only && priority_milli >= rule.min_priority_milli
}

/// Among the first `n` rules, the applicable one with the highest threshold; of equal
/// thresholds, the later one.
pub open spec fn best_rule(rules: Seq<RoutingRule>, priority_milli: u32, n: int) -> Option<int>
    decreases n,
{
    if n <= 0 {
        None
    } else {
        let prev = best_rule(rules, priority_milli, n - 1);
        if rule_applies(rules[n - 1], priority_milli) {
            match prev {
                Some(b) => if rules[n - 1].min_priority_milli >= rules[b].min_priority_milli {
                    Some(n - 1)
                } else {
                    Some(b)
                },
                None => Some(n - 1),
            }
        } else {
            prev
        }
    }
}

/// The destination the rules give a signal: that of the best applicable rule, System 3
/// when none applies.
pub open spec fn rule_destination(rules: Seq<RoutingRule>, priority_milli: u32) -> Seq<char> {
    match best_rule(rules, priority_milli, rules.len() as int) {
        Some(i) => rules[i].destination@,
        None => "system3"@,
    }
}

/// What `best_rule` picks: an applicable rule whose threshold no applicable rule
/// exceeds, and no later applicable rule equals.
pub proof fn lemma_best_rule(rules: Seq<RoutingRule>, priority_milli: u32, n: int)
    requires
        0 <= n <= rules.len(),
    ensures
        match best_rule(rules, priority_milli, n) {
            Some(b) => {
                &&& 0 <= b < n
                &&& rule_applies(rules[b], priority_milli)
                &&& forall|j: int|
                    0 <= j < n && rule_applies(#[trigger] rules[j], priority_milli) ==> rules[j].min_priority_milli
                        <= rules[b].min_priority_milli
                &&& forall|j: int|
                    b < j < n && rule_applies(#[trigger] rules[j], priority_milli) ==> rules[j].min_priority_milli
                        < rules[b].min_priority_milli
            },
            None => forall|j: int| 0 <= j < n ==> !rule_applies(#[trigger] rules[j], priority_milli),
        },
    decreases n,
{
    if n > 0 {
        lemma_best_rule(rules, priority_milli, n - 1);
    }
}

/// The route a signal that needs no emergency bypass takes: directly to the destination
/// of the best applicable rule.
pub fn route_by_rules(priority_milli: u32, rules: &[RoutingRule]) -> (r: RouteInfo)
    ensures
        r.destination@ == rule_destination(rules@, priority_milli),
        r.path@.map_values(|s: String| s@) == route_path(rule_destination(rules@, priority_milli), "direct"@),
        !r.bypass,
        r.reason@ == "rule_match"@,
{
    let n = rules.len();
    let mut best: Option<usize> = None;
    let mut i: usize = 0;
    while i < n
        invariant
            n == rules@.len(),
            i <= n,
            match best {
                Some(b) => best_rule(rules@, priority_milli, i as int) == Some(b as int) && b < i,
                None => best_rule(rules@, priority_milli, i as int) is None,
            },
        decreases n - i,
    {
        let rule = &rules[i];
        if !rule.emergency_only && priority_milli >= rule.min_priority_milli {
            best = match best {
                Some(b) => if rule.min_priority_milli >= rules[b].min_priority_milli {
                    Some(i)
                } else {
                    Some(b)
                },
                None => Some(i),
            };
        }
        i = i + 1;
    }
    let destination = match best {
        Some(b) => rules[b].destination.clone(),
        None => "system3".to_owned(),
    };
    rule_route(destination)
}

/// The first rule without a destination, if any.
pub open spec fn first_without_destination(rules: Seq<RoutingRule>, n: int) -> Option<int>
    decreases n,
{
    if n <= 0 {
        None
    } else {
        match first_without_destination(rules, n - 1) {
            Some(i) => Some(i),
            None => if rules[n - 1].destination@.len() == 0 { Some(n - 1) } else { None },
        }
    }
}

/// Once a rule without destination is found, longer prefixes find the same one.
proof fn lemma_first_without_destination_stable(rules: Seq<RoutingRule>, k: int, m: int)
    requires
        k <= m,
        first_without_destination(rules, k) is Some,
    ensures
        first_without_destination(rules, m) == first_without_destination(rules, k),
    decreases m - k,
{
    if k < m {
        lemma_first_without_destination_stable(rules, k, m - 1);
    }
}

/// Checks routing rules: there must be some, and each must name a destination.
pub fn validate_routing_rules(rules: &[RoutingRule]) -> (r: Result<(), String>)
    ensures
        rules@.len() == 0 ==> (r matches Err(e) && e@ == "no routing rules"@),
        rules@.len() > 0 ==> match first_without_destination(rules@, rules@.len() as int) {
            Some(i) => r matches Err(e) && e@ == "rule "@ + rules@[i].name@ + " has no destination"@,
            None => r is Ok,
        },
{
    if rules.len() == 0 {
        return Err("no routing rules".to_owned());
    }
    let n = rules.len();
    let mut i: usize = 0;
    while i < n
        invariant
            n == rules@.len(),
            i <= n,
            first_without_destination(rules@, i as int) is None,
        decreases n - i,
    {
        if rules[i].destination.as_str().is_empty() {
            proof {
                assert(first_without_destination(rules@, i + 1) == Some(i as int));
                lemma_first_without_destination_stable(rules@, i + 1, n as int);
            }
            return Err(concat3("rule ", rules[i].name.as_str(), " has no destination"));
        }
        i = i + 1;
    }
    Ok(())
}

/// The characters Unicode classes as white space, which `char::is_whitespace` accepts.
pub open spec fn white_space(c: char) -> bool {
    let u = c as u32;
    (0x9 <= u <= 0xd) || u == 0x20 || u == 0x85 || u == 0xa0 || u == 0x1680 || (0x2000 <= u <= 0x200a) || u
        == 0x2028 || u == 0x2029 || u == 0x202f || u == 0x205f || u == 0x3000
}

/// Returns true for white space.
pub fn is_white_space(c: char) -> (b: bool)
    ensures
        b == white_space(c),
{
    let u = c as u32;
    (0x9 <= u && u <= 0xd) || u == 0x20 || u == 0x85 || u == 0xa0 || u == 0x1680 || (0x2000 <= u && u <= 0x200a)
        || u == 0x2028 || u == 0x2029 || u == 0x202f || u == 0x205f || u == 0x3000
}

/// A text with nothing but white space: what is left empty after trimming.
pub open spec fn blank(s: Seq<char>) -> bool {
    forall|i: int| 0 <= i < s.len() ==> white_space(#[trigger] s[i])
}

/// Returns true when the text is empty after trimming white space.
pub fn is_blank(s: &str) -> (b: bool)
    ensures
        b == blank(s@),
{
    let n = s.unicode_len();
    let mut i: usize = 0;
    while i < n
        invariant
            n == s@.len(),
            i <= n,
            forall|j: int| 0 <= j < i ==> white_space(#[trigger] s@[j]),
        decreases n - i,
    {
        if !is_white_space(s.get_char(i)) {
            return false;
        }
        i = i + 1;
    }
    true
}

/// What an algedonic filter tests.
#[derive(Debug, Clone, Copy, PartialEq, Eq, Structural)]
pub enum FilterKind {
    Severity,
    Priority,
    Source,
    Type,
    Predicate,
}

/// A JSON-configured algedonic filter.
pub struct Filter {
    pub kind: FilterKind,
    pub name: String,
    pub config: serde_json::Value,
    pub enabled: bool,
}

/// Creates a filter.
pub fn create_filter(kind: FilterKind, name: String, config: serde_json::Value, enabled: bool) -> (r: Filter)
    ensures
        r.kind == kind,
        r.name == name,
        r.config == config,
        r.enabled == enabled,
{
    Filter { kind, name, config, enabled }
}

/// Checks filters: every filter needs a name that is not blank.
pub fn validate_filters(filters: &[Filter]) -> (r: Result<(), String>)
    ensures
        (forall|i: int| 0 <= i < filters@.len() ==> !blank(#[trigger] filters@[i].name@)) <==> r is Ok,
        r matches Err(e) ==> e@ == "filter name is empty"@,
{
    let n = filters.len();
    let mut i: usize = 0;
    while i < n
        invariant
            n == filters@.len(),
            i <= n,
            forall|j: int| 0 <= j < i ==> !blank(#[trigger] filters@[j].name@),
        decreases n - i,
    {
        if is_blank(filters[i].name.as_str()) {
            return Err("filter name is empty".to_owned());
        }
        i = i + 1;
    }
    Ok(())
}

/// Where a routed signal goes and why.
pub struct RouteInfo {
    pub destination: String,
    pub path: Vec<String>,
    pub bypass: bool,
    pub reason: String,
}

/// The route of a signal matched by a routing rule: directly to its destination.
pub fn rule_route(destination: String) -> (r: RouteInfo)
    ensures
        r.destination == destination,
        r.path@.map_values(|s: String| s@) == route_path(destination@, "direct"@),
        !r.bypass,
        r.reason@ == "rule_match"@,
{
    let path = calculate_route_path(destination.as_str(), "direct");
    RouteInfo { destination, path, bypass: false, reason: "rule_match".to_owned() }
}

/// The algedonic channel's signal processor; the actor layer runs it.
pub struct Algedonic;

/// How many accepted signals the processor keeps active.
pub const ACTIVE_SIGNAL_LIMIT: usize = 1000;

/// The active signals after one more is accepted: the first `ACTIVE_SIGNAL_LIMIT` of them,
/// oldest first; a signal that arrives when the list is full is not kept active.
pub open spec fn with_active<S>(active: Seq<S>, signal: S) -> Seq<S> {
    let all = active.push(signal);
    if all.len() > ACTIVE_SIGNAL_LIMIT {
        all.take(ACTIVE_SIGNAL_LIMIT as int)
    } else {
        all
    }
}

/// What the processor starts with: its filters and its routing rules.
pub struct AlgedonicArgs {
    pub filters: Vec<Filter>,
    pub routing_rules: Vec<RoutingRule>,
}

/// The processor's counts: active signals, accepted and rejected signals, and routes.
#[derive(Debug, Clone, Copy, PartialEq, Eq, Structural)]
pub struct AlgedonicMetrics {
    pub active_signals: usize,
    pub accepted: u64,
    pub rejected: u64,
    pub routes: usize,
}

/// The signal processor's state: the active signals, the filters and routing rules in
/// force, the routes of the accepted signals, and how many signals it accepted and
/// rejected. Signals carry floating-point priorities and urgencies, so their type is the
/// caller's; the caller applies the filters and computes the route, and hands the
/// processor the verdict.
pub struct AlgedonicState<S> {
    active_signals: Vec<S>,
    filters: Vec<Filter>,
    routing_rules: Vec<RoutingRule>,
    routes: Vec<RouteInfo>,
    accepted: u64,
    rejected: u64,
}

impl<S> AlgedonicState<S> {
    /// The active signals, oldest first.
    pub closed spec fn active(&self) -> Seq<S> {
        self.active_signals@
    }

    /// The filters in force.
    pub closed spec fn filter_list(&self) -> Seq<Filter> {
        self.filters@
    }

    /// The routing rules in force.
    pub closed spec fn rule_list(&self) -> Seq<RoutingRule> {
        self.routing_rules@
    }

    /// The routes of the accepted signals, in order.
    pub closed spec fn route_list(&self) -> Seq<RouteInfo> {
        self.routes@
    }

    /// How many signals were accepted.
    pub closed spec fn accepted_count(&self) -> u64 {
        self.accepted
    }

    /// How many signals were rejected.
    pub closed spec fn rejected_count(&self) -> u64 {
        self.rejected
    }

    /// A processor with the given filters and rules, no signals and no counts.
    pub fn new(args: AlgedonicArgs) -> (r: Self)
        ensures
            r.active().len() == 0,
            r.filter_list() == args.filters@,
            r.rule_list() == args.routing_rules@,
            r.route_list().len() == 0,
            r.accepted_count() == 0,
            r.rejected_count() == 0,
    {
        AlgedonicState {
            active_signals: Vec::new(),
            filters: args.filters,
            routing_rules: args.routing_rules,
            routes: Vec::new(),
            accepted: 0,
            rejected: 0,
        }
    }

    /// Records a signal: with `Some(route)` it passed the filters, so its route is kept,
    /// it joins the active signals and is counted as accepted; with `None` the filters
    /// rejected it and it is only counted.
    pub fn record_signal(&mut self, signal: S, route: Option<RouteInfo>)
        requires
            old(self).accepted_count() < u64::MAX,
            old(self).rejected_count() < u64::MAX,
        ensures
            final(self).filter_list() == old(self).filter_list(),
            final(self).rule_list() == old(self).rule_list(),
            match route {
                Some(rt) => {
                    &&& final(self).active() == with_active(old(self).active(), signal)
                    &&& final(self).route_list() == old(self).route_list().push(rt)
                    &&& final(self).accepted_count() == old(self).accepted_count() + 1
                    &&& final(self).rejected_count() == old(self).rejected_count()
                },
                None => {
                    &&& final(self).active() == old(self).active()
                    &&& final(self).route_list() == old(self).route_list()
                    &&& final(self).accepted_count() == old(self).accepted_count()
                    &&& final(self).rejected_count() == old(self).rejected_count() + 1
                },
            },
    {
        match route {
            Some(rt) => {
                self.routes.push(rt);
                self.active_signals.push(signal);
                self.active_signals.truncate(ACTIVE_SIGNAL_LIMIT);
                self.accepted = self.accepted + 1;
            },
            None => {
                self.rejected = self.rejected + 1;
            },
        }
    }

    /// Replaces the filters when they are valid (every name non-blank); invalid filters
    /// are refused and the filters in force stay.
    pub fn configure_filters(&mut self, filters: Vec<Filter>) -> (r: Result<(), String>)
        ensures
            (forall|i: int| 0 <= i < filters@.len() ==> !blank(#[trigger] filters@[i].name@)) <==> r is Ok,
            r matches Err(e) ==> e@ == "filter name is empty"@,
            r is Ok ==> final(self).filter_list() == filters@,
            r is Err ==> final(self).filter_list() == old(self).filter_list(),
            final(self).active() == old(self).active(),
            final(self).rule_list() == old(self).rule_list(),
            final(self).route_list() == old(self).route_list(),
            final(self).accepted_count() == old(self).accepted_count(),
            final(self).rejected_count() == old(self).rejected_count(),
    {
        let result = validate_filters(filters.as_slice());
        if result.is_ok() {
            self.filters = filters;
        }
        result
    }

    /// The processor's counts.
    pub fn metrics(&self) -> (r: AlgedonicMetrics)
        ensures
            r.active_signals == self.active().len(),
            r.accepted == self.accepted_count(),
            r.rejected == self.rejected_count(),
            r.routes == self.route_list().len(),
    {
        AlgedonicMetrics {
            active_signals: self.active_signals.len(),
            accepted: self.accepted,
            rejected: self.rejected,
            routes: self.routes.len(),
        }
    }

    /// The active signals, oldest first.
    pub fn active_signals(&self) -> (r: &Vec<S>)
        ensures
            r@ == self.active(),
    {
        &self.active_signals
    }

    /// The filters in force.
    pub fn filters(&self) -> (r: &Vec<Filter>)
        ensures
            r@ == self.filter_list(),
    {
        &self.filters
    }

    /// The routing rules in force.
    pub fn routing_rules(&self) -> (r: &Vec<RoutingRule>)
        ensures
            r@ == self.rule_list(),
    {
        &self.routing_rules
    }

    /// The routes of the accepted signals, in order.
    pub fn routes(&self) -> (r: &Vec<RouteInfo>)
        ensures
            r@ == self.route_list(),
    {
        &self.routes
    }
}

} // verus!
