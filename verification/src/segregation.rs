//! The segregation rules: checks on the cables that share a route.
//!
//! Cables share a route when the texts of their routes are the same, letter
//! for letter. A cable without a route, or with a blank one, belongs to no
//! route. Only routes with more than one cable are checked. Routes are
//! reported in the order in which they first occur in the schedule.

use vstd::prelude::*;
use vstd::string::*;
use crate::cable::{models, models_of_refs, text_of, Cable, CableModel};
use crate::text::{contains, contains_text, is_blank, is_blank_text, same_text};
use crate::validation::{
    findings, report, report_all, CableValidator, Finding, ValidationResult, ValidationSeverity,
    ValidationType, Verdict, VerdictModel,
};

verus! {

/// The class of a nominal voltage.
#[derive(Debug, Clone, Copy, PartialEq, Eq, Structural)]
pub enum VoltageClass {
    /// At most 50 V.
    Low,
    /// Above 50 V and at most 600 V.
    Medium,
    /// Above 600 V and at most 1000 V.
    High,
    /// Above 1000 V.
    ExtraHigh,
}

/// The class of a voltage given in millivolts.
pub open spec fn voltage_class_of(millivolts: i32) -> VoltageClass {
    if millivolts <= 50_000 {
        VoltageClass::Low
    } else if millivolts <= 600_000 {
        VoltageClass::Medium
    } else if millivolts <= 1_000_000 {
        VoltageClass::High
    } else {
        VoltageClass::ExtraHigh
    }
}

/// The class of a voltage given in millivolts.
pub fn voltage_class(millivolts: i32) -> (r: VoltageClass)
    ensures
        r == voltage_class_of(millivolts),
{
    if millivolts <= 50_000 {
        VoltageClass::Low
    } else if millivolts <= 600_000 {
        VoltageClass::Medium
    } else if millivolts <= 1_000_000 {
        VoltageClass::High
    } else {
        VoltageClass::ExtraHigh
    }
}

/// A property of a cable that a segregation rule looks for.
#[derive(Debug, Clone, Copy)]
pub enum CableProperty<'a> {
    /// Holds of every cable.
    Any,
    /// The function is `Power` or `Lighting`.
    Power,
    /// The function is `Signal`, `Control` or `Communication`.
    Signal,
    /// The voltage is given and lies in a class.
    Voltage(VoltageClass),
    /// The segregation class is this text, letter for letter.
    InClass(&'a str),
    /// The segregation class is given and holds the letters `IS`.
    IntrinsicallySafe,
    /// The segregation class is not given, or does not hold `IS`.
    NotIntrinsicallySafe,
}

/// The mathematical content of a `CableProperty`.
pub ghost enum PropertyModel {
    Any,
    Power,
    Signal,
    Voltage(VoltageClass),
    InClass(Seq<char>),
    IntrinsicallySafe,
    NotIntrinsicallySafe,
}

impl View for CableProperty<'_> {
    type V = PropertyModel;

    open spec fn view(&self) -> PropertyModel {
        match self {
            CableProperty::Any => PropertyModel::Any,
            CableProperty::Power => PropertyModel::Power,
            CableProperty::Signal => PropertyModel::Signal,
            CableProperty::Voltage(class) => PropertyModel::Voltage(*class),
            CableProperty::InClass(name) => PropertyModel::InClass(name@),
            CableProperty::IntrinsicallySafe => PropertyModel::IntrinsicallySafe,
            CableProperty::NotIntrinsicallySafe => PropertyModel::NotIntrinsicallySafe,
        }
    }
}

/// The function of a cable that carries power: `Power` or `Lighting`.
pub open spec fn is_power_function(function: Option<Seq<char>>) -> bool {
    function == Some("Power"@) || function == Some("Lighting"@)
}

/// The function of a cable that carries signals: `Signal`, `Control` or
/// `Communication`.
pub open spec fn is_signal_function(function: Option<Seq<char>>) -> bool {
    function == Some("Signal"@) || function == Some("Control"@) || function == Some(
        "Communication"@,
    )
}

/// Decides whether a function is that of a cable that carries power.
pub fn function_is_power(function: &Option<String>) -> (r: bool)
    ensures
        r == is_power_function(text_of(*function)),
{
    match function {
        Some(f) => same_text(f.as_str(), "Power") || same_text(f.as_str(), "Lighting"),
        None => false,
    }
}

/// Decides whether a function is that of a cable that carries signals.
pub fn function_is_signal(function: &Option<String>) -> (r: bool)
    ensures
        r == is_signal_function(text_of(*function)),
{
    match function {
        Some(f) => same_text(f.as_str(), "Signal") || same_text(f.as_str(), "Control")
            || same_text(f.as_str(), "Communication"),
        None => false,
    }
}

/// A cable deemed intrinsically safe: its segregation class holds `IS`.
pub open spec fn is_intrinsically_safe(cable: CableModel) -> bool {
    cable.segregation_class matches Some(class) && contains_text(class, "IS"@)
}

impl PropertyModel {
    /// The property holds of a cable.
    pub open spec fn holds(self, cable: CableModel) -> bool {
        match self {
            PropertyModel::Any => true,
            PropertyModel::Power => is_power_function(cable.function),
            PropertyModel::Signal => is_signal_function(cable.function),
            PropertyModel::Voltage(class) => cable.voltage matches Some(v) && voltage_class_of(v)
                == class,
            PropertyModel::InClass(name) => cable.segregation_class == Some(name),
            PropertyModel::IntrinsicallySafe => is_intrinsically_safe(cable),
            PropertyModel::NotIntrinsicallySafe => !is_intrinsically_safe(cable),
        }
    }

    /// The test whether the property holds of a cable.
    pub open spec fn test(self) -> spec_fn(CableModel) -> bool {
        |cable: CableModel| self.holds(cable)
    }
}

/// Some cable of a group has a property.
pub open spec fn some_cable(group: Seq<CableModel>, property: PropertyModel) -> bool {
    exists|i: int| 0 <= i < group.len() && property.holds(#[trigger] group[i])
}

/// The findings that pronounce a verdict on each cable of a group that has a
/// property, in the order of the group.
pub open spec fn flagged(group: Seq<CableModel>, property: PropertyModel, verdict: VerdictModel) -> Seq<
    Finding,
> {
    group.filter(property.test()).map_values(verdict.reporter())
}

/// Flagging a group and one more cable.
pub proof fn lemma_flagged_push(
    group: Seq<CableModel>,
    cable: CableModel,
    property: PropertyModel,
    verdict: VerdictModel,
)
    ensures
        flagged(group.push(cable), property, verdict) == if property.holds(cable) {
            flagged(group, property, verdict).push(verdict.about(cable))
        } else {
            flagged(group, property, verdict)
        },
{
    group.lemma_filter_push(cable, property.test());
    if property.holds(cable) {
        group.filter(property.test()).lemma_push_map_commute(verdict.reporter(), cable);
    }
}

/// Flagging no cable gives no finding.
pub proof fn lemma_flagged_empty(property: PropertyModel, verdict: VerdictModel)
    ensures
        flagged(Seq::empty(), property, verdict) == Seq::<Finding>::empty(),
{
    Seq::<CableModel>::empty().lemma_filter_len(property.test());
    assert(flagged(Seq::empty(), property, verdict) =~= Seq::<Finding>::empty());
}

impl CableProperty<'_> {
    /// Decides whether the property holds of a cable.
    pub fn holds_for(&self, cable: &Cable) -> (r: bool)
        ensures
            r == self@.holds(cable@),
    {
        match self {
            CableProperty::Any => true,
            CableProperty::Power => function_is_power(&cable.function),
            CableProperty::Signal => function_is_signal(&cable.function),
            CableProperty::Voltage(class) => match cable.voltage {
                Some(v) => same_class(voltage_class(v), *class),
                None => false,
            },
            CableProperty::InClass(name) => match &cable.segregation_class {
                Some(class) => same_text(class.as_str(), name),
                None => false,
            },
            CableProperty::IntrinsicallySafe => cable_is_intrinsically_safe(cable),
            CableProperty::NotIntrinsicallySafe => !cable_is_intrinsically_safe(cable),
        }
    }
}

/// Decides whether two voltage classes are the same.
pub fn same_class(a: VoltageClass, b: VoltageClass) -> (r: bool)
    ensures
        r == (a == b),
{
    a == b
}

/// Decides whether a cable is deemed intrinsically safe.
pub fn cable_is_intrinsically_safe(cable: &Cable) -> (r: bool)
    ensures
        r == is_intrinsically_safe(cable@),
{
    match &cable.segregation_class {
        Some(class) => contains(class.as_str(), "IS"),
        None => false,
    }
}

/// Decides whether some cable of a group has a property.
pub fn any_cable(group: &[&Cable], property: &CableProperty) -> (r: bool)
    ensures
        r == some_cable(models_of_refs(group@), property@),
{
    let mut i: usize = 0;
    while i < group.len()
        invariant
            i <= group.len(),
            forall|k: int| 0 <= k < i ==> !property@.holds(#[trigger] models_of_refs(group@)[k]),
        decreases group.len() - i,
    {
        assert(models_of_refs(group@)[i as int] == group[i as int]@);
        if property.holds_for(group[i]) {
            return true;
        }
        i += 1;
    }
    false
}

/// Appends the verdict on each cable of a group that has a property.
pub fn flag_cables(
    results: &mut Vec<ValidationResult>,
    group: &[&Cable],
    property: &CableProperty,
    verdict: &Verdict,
)
    ensures
        findings(final(results)@) == findings(old(results)@) + flagged(
            models_of_refs(group@),
            property@,
            verdict@,
        ),
{
    let ghost all = models_of_refs(group@);
    let ghost before = findings(results@);
    let mut i: usize = 0;
    proof {
        lemma_flagged_empty(property@, verdict@);
        assert(all.take(0) =~= Seq::empty());
        assert(before + Seq::<Finding>::empty() =~= before);
    }
    while i < group.len()
        invariant
            i <= group.len(),
            all == models_of_refs(group@),
            findings(results@) == before + flagged(all.take(i as int), property@, verdict@),
        decreases group.len() - i,
    {
        proof {
            assert(all[i as int] == group[i as int]@);
            assert(all.take(i + 1) =~= all.take(i as int).push(all[i as int]));
            lemma_flagged_push(all.take(i as int), all[i as int], property@, verdict@);
        }
        if property.holds_for(group[i]) {
            report(results, verdict, group[i]);
            assert(findings(results@) =~= before + flagged(
                all.take(i + 1),
                property@,
                verdict@,
            ));
        }
        i += 1;
    }
    assert(all.take(group.len() as int) =~= all);
}

/// The verdict on the cables of a route that carries power and signal.
pub open spec fn power_signal_verdict(route: Seq<char>) -> VerdictModel {
    VerdictModel {
        severity: ValidationSeverity::Warning,
        validation_type: ValidationType::SegregationViolation,
        message: "Power and signal cables in same route '"@ + route + "' (NEC 725.136)"@,
        field: "route"@,
        suggested_fix: "Separate power and signal cables into different conduits per NEC"@,
        override_allowed: true,
    }
}

/// The verdict on the cables of a route that carries low and high voltage.
pub open spec fn voltage_level_verdict(route: Seq<char>) -> VerdictModel {
    VerdictModel {
        severity: ValidationSeverity::Error,
        validation_type: ValidationType::SegregationViolation,
        message: "Low voltage and high voltage cables in same route '"@ + route
            + "' (NEC 300.3)"@,
        field: "route"@,
        suggested_fix: "Separate low voltage (<50V) from high voltage (>600V) cables"@,
        override_allowed: true,
    }
}

/// The verdict on the cables of two segregation classes that may not share a
/// route.
pub open spec fn class_conflict_verdict(
    first: Seq<char>,
    second: Seq<char>,
    route: Seq<char>,
) -> VerdictModel {
    VerdictModel {
        severity: ValidationSeverity::Error,
        validation_type: ValidationType::SegregationViolation,
        message: "Incompatible segregation classes '"@ + first + "' and '"@ + second
            + "' in route '"@ + route + "'"@,
        field: "segregation_class"@,
        suggested_fix: "Separate "@ + first + " from "@ + second + " cables"@,
        override_allowed: true,
    }
}

/// The verdict on the cables of a route that mixes intrinsically safe cables
/// with others. No override is allowed.
pub open spec fn intrinsic_safety_verdict(route: Seq<char>) -> VerdictModel {
    VerdictModel {
        severity: ValidationSeverity::Error,
        validation_type: ValidationType::SegregationViolation,
        message: "Intrinsically safe and non-IS cables in same route '"@ + route
            + "' (NEC 504.30)"@,
        field: "segregation_class"@,
        suggested_fix: "IS cables must be separated from all non-IS circuits"@,
        override_allowed: false,
    }
}

/// Power and signal: where a group holds a power or lighting cable and a
/// signal, control or communication cable, every cable of the group is
/// flagged.
pub open spec fn power_signal_findings(route: Seq<char>, group: Seq<CableModel>) -> Seq<Finding> {
    if some_cable(group, PropertyModel::Power) && some_cable(group, PropertyModel::Signal) {
        flagged(group, PropertyModel::Any, power_signal_verdict(route))
    } else {
        Seq::empty()
    }
}

/// Voltage classes: where a group holds a cable of the lowest class and one
/// of either of the two highest classes, every cable of the group is
/// flagged. No other pair of classes counts.
pub open spec fn voltage_level_findings(route: Seq<char>, group: Seq<CableModel>) -> Seq<Finding> {
    if some_cable(group, PropertyModel::Voltage(VoltageClass::Low)) && (some_cable(
        group,
        PropertyModel::Voltage(VoltageClass::High),
    ) || some_cable(group, PropertyModel::Voltage(VoltageClass::ExtraHigh))) {
        flagged(group, PropertyModel::Any, voltage_level_verdict(route))
    } else {
        Seq::empty()
    }
}

/// The number of pairs of segregation classes that may not share a route.
pub const PAIR_COUNT: usize = 7;

/// The pairs of segregation classes that may not share a route.
pub open spec fn incompatible_pairs() -> Seq<(Seq<char>, Seq<char>)> {
    seq![
        ("IS Signal"@, "Non-IS Signal"@),
        ("IS Signal"@, "Power 120VAC"@),
        ("IS Signal"@, "Power 240VAC"@),
        ("IS Signal"@, "Power 480VAC"@),
        ("IS Signal"@, "Power 600VAC"@),
        ("Control Power 24VDC"@, "Power 480VAC"@),
        ("Control Power 24VDC"@, "Power 600VAC"@),
    ]
}

/// One of the pairs of segregation classes that may not share a route.
pub fn incompatible_pair(index: usize) -> (r: (&'static str, &'static str))
    requires
        index < PAIR_COUNT,
    ensures
        (r.0@, r.1@) == incompatible_pairs()[index as int],
{
    if index == 0 {
        ("IS Signal", "Non-IS Signal")
    } else if index == 1 {
        ("IS Signal", "Power 120VAC")
    } else if index == 2 {
        ("IS Signal", "Power 240VAC")
    } else if index == 3 {
        ("IS Signal", "Power 480VAC")
    } else if index == 4 {
        ("IS Signal", "Power 600VAC")
    } else if index == 5 {
        ("Control Power 24VDC", "Power 480VAC")
    } else {
        ("Control Power 24VDC", "Power 600VAC")
    }
}

/// One pair of classes: where a group holds cables of both, the cables of
/// the first class are flagged, then those of the second.
pub open spec fn pair_findings(
    route: Seq<char>,
    group: Seq<CableModel>,
    first: Seq<char>,
    second: Seq<char>,
) -> Seq<Finding> {
    if some_cable(group, PropertyModel::InClass(first)) && some_cable(
        group,
        PropertyModel::InClass(second),
    ) {
        flagged(group, PropertyModel::InClass(first), class_conflict_verdict(first, second, route))
            + flagged(
            group,
            PropertyModel::InClass(second),
            class_conflict_verdict(first, second, route),
        )
    } else {
        Seq::empty()
    }
}

/// The findings of the first `count` pairs of classes, pair after pair.
pub open spec fn class_conflict_findings_upto(
    route: Seq<char>,
    group: Seq<CableModel>,
    count: int,
) -> Seq<Finding>
    decreases count,
{
    if count <= 0 {
        Seq::empty()
    } else {
        class_conflict_findings_upto(route, group, count - 1) + pair_findings(
            route,
            group,
            incompatible_pairs()[count - 1].0,
            incompatible_pairs()[count - 1].1,
        )
    }
}

/// Segregation classes: the findings of every pair of classes that may not
/// share a route, pair after pair.
pub open spec fn class_conflict_findings(route: Seq<char>, group: Seq<CableModel>) -> Seq<
    Finding,
> {
    class_conflict_findings_upto(route, group, PAIR_COUNT as int)
}

/// Intrinsic safety: where a group holds an intrinsically safe cable and
/// one that is not, every cable of the group is flagged, the intrinsically
/// safe ones first.
pub open spec fn intrinsic_safety_findings(route: Seq<char>, group: Seq<CableModel>) -> Seq<
    Finding,
> {
    if some_cable(group, PropertyModel::IntrinsicallySafe) && some_cable(
        group,
        PropertyModel::NotIntrinsicallySafe,
    ) {
        flagged(group, PropertyModel::IntrinsicallySafe, intrinsic_safety_verdict(route))
            + flagged(group, PropertyModel::NotIntrinsicallySafe, intrinsic_safety_verdict(route))
    } else {
        Seq::empty()
    }
}

/// Everything that the four rules report on the cables of one route: power
/// and signal, voltage classes, segregation classes, intrinsic safety.
pub open spec fn route_findings(route: Seq<char>, group: Seq<CableModel>) -> Seq<Finding> {
    power_signal_findings(route, group) + voltage_level_findings(route, group)
        + class_conflict_findings(route, group) + intrinsic_safety_findings(route, group)
}

/// The test whether a cable runs in a route.
pub open spec fn on_route(route: Seq<char>) -> spec_fn(CableModel) -> bool {
    |cable: CableModel| cable.route == Some(route)
}

/// The cables of a schedule that run in a route, in the order of the
/// schedule.
pub open spec fn route_group(cables: Seq<CableModel>, route: Seq<char>) -> Seq<CableModel> {
    cables.filter(on_route(route))
}

/// The cable at `index` is the first of the schedule in its route, and the
/// route is not blank.
pub open spec fn opens_route(cables: Seq<CableModel>, index: int) -> bool {
    cables[index].route matches Some(route) && !is_blank(route) && forall|j: int|
        0 <= j < index ==> (#[trigger] cables[j]).route != Some(route)
}

/// What the route that the cable at `index` opens contributes: the findings
/// of its group, where the group has more than one cable.
pub open spec fn findings_of_route_at(cables: Seq<CableModel>, index: int) -> Seq<Finding> {
    if opens_route(cables, index) && route_group(cables, cables[index].route.unwrap()).len() > 1 {
        route_findings(
            cables[index].route.unwrap(),
            route_group(cables, cables[index].route.unwrap()),
        )
    } else {
        Seq::empty()
    }
}

/// The findings of the routes that open among the first `count` cables.
pub open spec fn segregation_findings_upto(cables: Seq<CableModel>, count: int) -> Seq<Finding>
    decreases count,
{
    if count <= 0 {
        Seq::empty()
    } else {
        segregation_findings_upto(cables, count - 1) + findings_of_route_at(cables, count - 1)
    }
}

/// Everything that the segregation rules report on a schedule: route after
/// route, in the order in which the routes first occur.
pub open spec fn segregation_findings(cables: Seq<CableModel>) -> Seq<Finding> {
    segregation_findings_upto(cables, cables.len() as int)
}

/// A message made of a lead, the route, and a closing clause.
fn route_message(lead: &str, route: &str, clause: &str) -> (r: String)
    ensures
        r@ == lead@ + route@ + clause@,
{
    let mut message = String::from_str(lead);
    message.append(route);
    message.append(clause);
    message
}

impl CableValidator {
    /// Power and signal cables in one route.
    pub fn check_power_signal_separation(&self, route: &str, cables: &[&Cable]) -> (results: Vec<
        ValidationResult,
    >)
        ensures
            findings(results@) == power_signal_findings(route@, models_of_refs(cables@)),
    {
        let mut results: Vec<ValidationResult> = Vec::new();
        assert(findings(results@) =~= Seq::empty());
        if any_cable(cables, &CableProperty::Power) && any_cable(cables, &CableProperty::Signal) {
            let verdict = Verdict::new(
                ValidationSeverity::Warning,
                ValidationType::SegregationViolation,
                route_message("Power and signal cables in same route '", route, "' (NEC 725.136)"),
                "route",
                String::from_str("Separate power and signal cables into different conduits per NEC"),
                true,
            );
            flag_cables(&mut results, cables, &CableProperty::Any, &verdict);
            assert(Seq::<Finding>::empty() + flagged(
                models_of_refs(cables@),
                PropertyModel::Any,
                verdict@,
            ) =~= flagged(models_of_refs(cables@), PropertyModel::Any, verdict@));
        }
        results
    }

    /// Low and high voltage in one route.
    pub fn check_voltage_level_separation(&self, route: &str, cables: &[&Cable]) -> (results: Vec<
        ValidationResult,
    >)
        ensures
            findings(results@) == voltage_level_findings(route@, models_of_refs(cables@)),
    {
        let mut results: Vec<ValidationResult> = Vec::new();
        assert(findings(results@) =~= Seq::empty());
        if any_cable(cables, &CableProperty::Voltage(VoltageClass::Low)) && (any_cable(
            cables,
            &CableProperty::Voltage(VoltageClass::High),
        ) || any_cable(cables, &CableProperty::Voltage(VoltageClass::ExtraHigh))) {
            let verdict = Verdict::new(
                ValidationSeverity::Error,
                ValidationType::SegregationViolation,
                route_message(
                    "Low voltage and high voltage cables in same route '",
                    route,
                    "' (NEC 300.3)",
                ),
                "route",
                String::from_str("Separate low voltage (<50V) from high voltage (>600V) cables"),
                true,
            );
            flag_cables(&mut results, cables, &CableProperty::Any, &verdict);
            assert(Seq::<Finding>::empty() + flagged(
                models_of_refs(cables@),
                PropertyModel::Any,
                verdict@,
            ) =~= flagged(models_of_refs(cables@), PropertyModel::Any, verdict@));
        }
        results
    }

    /// One pair of segregation classes in one route.
    pub fn check_class_pair(&self, route: &str, cables: &[&Cable], first: &str, second: &str) -> (results:
        Vec<ValidationResult>)
        ensures
            findings(results@) == pair_findings(
                route@,
                models_of_refs(cables@),
                first@,
                second@,
            ),
    {
        let mut results: Vec<ValidationResult> = Vec::new();
        assert(findings(results@) =~= Seq::empty());
        let in_first = CableProperty::InClass(first);
        let in_second = CableProperty::InClass(second);
        if any_cable(cables, &in_first) && any_cable(cables, &in_second) {
            let mut message = String::from_str("Incompatible segregation classes '");
            message.append(first);
            message.append("' and '");
            message.append(second);
            message.append("' in route '");
            message.append(route);
            message.append("'");
            let mut fix = String::from_str("Separate ");
            fix.append(first);
            fix.append(" from ");
            fix.append(second);
            fix.append(" cables");
            let verdict = Verdict::new(
                ValidationSeverity::Error,
                ValidationType::SegregationViolation,
                message,
                "segregation_class",
                fix,
                true,
            );
            assert(verdict@ == class_conflict_verdict(first@, second@, route@));
            flag_cables(&mut results, cables, &in_first, &verdict);
            flag_cables(&mut results, cables, &in_second, &verdict);
            assert(findings(results@) =~= pair_findings(
                route@,
                models_of_refs(cables@),
                first@,
                second@,
            ));
        }
        results
    }

    /// Segregation classes that may not share a route.
    pub fn check_segregation_class_conflicts(&self, route: &str, cables: &[&Cable]) -> (results:
        Vec<ValidationResult>)
        ensures
            findings(results@) == class_conflict_findings(route@, models_of_refs(cables@)),
    {
        let mut results: Vec<ValidationResult> = Vec::new();
        assert(findings(results@) =~= Seq::empty());
        let mut index: usize = 0;
        while index < PAIR_COUNT
            invariant
                index <= PAIR_COUNT,
                findings(results@) == class_conflict_findings_upto(
                    route@,
                    models_of_refs(cables@),
                    index as int,
                ),
            decreases PAIR_COUNT - index,
        {
            let (first, second) = incompatible_pair(index);
            report_all(&mut results, self.check_class_pair(route, cables, first, second));
            index += 1;
        }
        results
    }

    /// Intrinsically safe cables and others in one route.
    pub fn check_intrinsic_safety_separation(&self, route: &str, cables: &[&Cable]) -> (results:
        Vec<ValidationResult>)
        ensures
            findings(results@) == intrinsic_safety_findings(route@, models_of_refs(cables@)),
            forall|i: int| 0 <= i < results.len() ==> !(#[trigger] results[i]).override_allowed,
    {
        let mut results: Vec<ValidationResult> = Vec::new();
        assert(findings(results@) =~= Seq::empty());
        if any_cable(cables, &CableProperty::IntrinsicallySafe) && any_cable(
            cables,
            &CableProperty::NotIntrinsicallySafe,
        ) {
            let verdict = Verdict::new(
                ValidationSeverity::Error,
                ValidationType::SegregationViolation,
                route_message(
                    "Intrinsically safe and non-IS cables in same route '",
                    route,
                    "' (NEC 504.30)",
                ),
                "segregation_class",
                String::from_str("IS cables must be separated from all non-IS circuits"),
                false,
            );
            flag_cables(&mut results, cables, &CableProperty::IntrinsicallySafe, &verdict);
            flag_cables(&mut results, cables, &CableProperty::NotIntrinsicallySafe, &verdict);
            assert(findings(results@) =~= intrinsic_safety_findings(
                route@,
                models_of_refs(cables@),
            ));
        }
        proof {
            law_intrinsic_safety_allows_no_override(route@, models_of_refs(cables@));
            assert forall|i: int| 0 <= i < results.len() implies !(
            #[trigger] results[i]).override_allowed by {
                assert(findings(results@)[i] == results[i]@);
            }
        }
        results
    }

    /// Runs the four rules on the cables of one route.
    pub fn check_route_segregation(&self, route: &str, cables: &[&Cable]) -> (results: Vec<
        ValidationResult,
    >)
        ensures
            findings(results@) == route_findings(route@, models_of_refs(cables@)),
    {
        let mut results = self.check_power_signal_separation(route, cables);
        report_all(&mut results, self.check_voltage_level_separation(route, cables));
        report_all(&mut results, self.check_segregation_class_conflicts(route, cables));
        report_all(&mut results, self.check_intrinsic_safety_separation(route, cables));
        results
    }

    /// Decides whether a cable before `index` runs in `route`.
    fn route_seen_before(&self, cables: &[Cable], index: usize, route: &str) -> (r: bool)
        requires
            index <= cables.len(),
        ensures
            r == exists|j: int|
                0 <= j < index && (#[trigger] models(cables@)[j]).route == Some(route@),
    {
        let mut j: usize = 0;
        while j < index
            invariant
                j <= index <= cables.len(),
                forall|k: int|
                    0 <= k < j ==> (#[trigger] models(cables@)[k]).route != Some(route@),
            decreases index - j,
        {
            assert(models(cables@)[j as int] == cables[j as int]@);
            if let Some(other) = &cables[j].route {
                if same_text(other.as_str(), route) {
                    return true;
                }
            }
            j += 1;
        }
        false
    }

    /// The cables of a schedule that run in `route`.
    fn cables_on_route<'a>(&self, cables: &'a [Cable], route: &str) -> (group: Vec<&'a Cable>)
        ensures
            models_of_refs(group@) == route_group(models(cables@), route@),
    {
        let ghost all = models(cables@);
        let mut group: Vec<&'a Cable> = Vec::new();
        let mut i: usize = 0;
        proof {
            assert(all.take(0) =~= Seq::empty());
            Seq::<CableModel>::empty().lemma_filter_len(on_route(route@));
            assert(models_of_refs(group@) =~= all.take(0).filter(on_route(route@)));
        }
        while i < cables.len()
            invariant
                i <= cables.len(),
                all == models(cables@),
                models_of_refs(group@) == all.take(i as int).filter(on_route(route@)),
            decreases cables.len() - i,
        {
            proof {
                assert(all[i as int] == cables[i as int]@);
                assert(all.take(i + 1) =~= all.take(i as int).push(all[i as int]));
                all.take(i as int).lemma_filter_push(all[i as int], on_route(route@));
            }
            let runs_here = match &cables[i].route {
                Some(other) => same_text(other.as_str(), route),
                None => false,
            };
            if runs_here {
                let ghost before = models_of_refs(group@);
                group.push(&cables[i]);
                assert(models_of_refs(group@) =~= before.push(all[i as int]));
            }
            i += 1;
        }
        assert(all.take(cables.len() as int) =~= all);
        group
    }

    /// Runs the segregation rules on a schedule, route after route.
    pub fn validate_segregation_rules(&self, cables: &[Cable]) -> (results: Vec<ValidationResult>)
        ensures
            findings(results@) == segregation_findings(models(cables@)),
    {
        let ghost all = models(cables@);
        let mut results: Vec<ValidationResult> = Vec::new();
        assert(findings(results@) =~= Seq::empty());
        let mut i: usize = 0;
        while i < cables.len()
            invariant
                i <= cables.len(),
                all == models(cables@),
                findings(results@) == segregation_findings_upto(all, i as int),
            decreases cables.len() - i,
        {
            assert(all[i as int] == cables[i as int]@);
            let ghost before = findings(results@);
            assert(before + Seq::<Finding>::empty() =~= before);
            if let Some(route) = &cables[i].route {
                if !is_blank_text(route.as_str()) && !self.route_seen_before(
                    cables,
                    i,
                    route.as_str(),
                ) {
                    assert(opens_route(all, i as int));
                    let group = self.cables_on_route(cables, route.as_str());
                    if group.len() > 1 {
                        report_all(
                            &mut results,
                            self.check_route_segregation(route.as_str(), group.as_slice()),
                        );
                    }
                } else {
                    assert(!opens_route(all, i as int));
                }
            }
            i += 1;
        }
        results
    }
}

/// No finding of the intrinsic-safety rule allows an override.
pub proof fn law_intrinsic_safety_allows_no_override(route: Seq<char>, group: Seq<CableModel>)
    ensures
        forall|i: int|
            0 <= i < intrinsic_safety_findings(route, group).len() ==> !(
            #[trigger] intrinsic_safety_findings(route, group)[i]).override_allowed,
{
    let verdict = intrinsic_safety_verdict(route);
    lemma_flagged_carries_verdict(group, PropertyModel::IntrinsicallySafe, verdict);
    lemma_flagged_carries_verdict(group, PropertyModel::NotIntrinsicallySafe, verdict);
}

/// Every finding of a flagged group carries the verdict, and speaks of the
/// cable that stands at its place among the cables that have the property.
pub proof fn lemma_flagged_carries_verdict(
    group: Seq<CableModel>,
    property: PropertyModel,
    verdict: VerdictModel,
)
    ensures
        forall|i: int|
            0 <= i < flagged(group, property, verdict).len() ==> (#[trigger] flagged(
                group,
                property,
                verdict,
            )[i]) == verdict.about(group.filter(property.test())[i]),
{
}

} // verus!
