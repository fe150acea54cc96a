//! The cable validation engine: checks on one cable, and the results that
//! every check reports.
//!
//! A check never fails and never stops another one: each returns every
//! violation it finds, as data.

pub use crate::summary::ValidationSummary;
use vstd::prelude::*;
use vstd::string::*;
use crate::cable::{models, Cable, CableModel};
use crate::text::{
    eq_ignore_ascii_case, eq_ignoring_ascii_case, is_blank, is_blank_text, is_whitespace,
};

verus! {

/// How grave a finding is. `Error` outranks `Warning`, which outranks `Info`.
#[derive(Debug, Clone, Copy, PartialEq, Eq, Structural)]
pub enum ValidationSeverity {
    /// Blocks operations.
    Error,
    /// Allows override.
    Warning,
    /// Informational only.
    Info,
}

/// The kind of rule that a finding comes from.
#[derive(Debug, Clone, Copy, PartialEq, Eq, Structural)]
pub enum ValidationType {
    DuplicateTag,
    SegregationViolation,
    RequiredField,
    InvalidValue,
    NecCompliance,
}

/// One finding about one cable.
#[derive(Debug, Clone)]
pub struct ValidationResult {
    pub cable_id: Option<i64>,
    pub cable_tag: String,
    pub severity: ValidationSeverity,
    pub validation_type: ValidationType,
    pub message: String,
    pub field: Option<String>,
    pub suggested_fix: Option<String>,
    pub override_allowed: bool,
}

/// The mathematical content of a `ValidationResult`.
pub ghost struct Finding {
    pub cable_id: Option<i64>,
    pub cable_tag: Seq<char>,
    pub severity: ValidationSeverity,
    pub validation_type: ValidationType,
    pub message: Seq<char>,
    pub field: Option<Seq<char>>,
    pub suggested_fix: Option<Seq<char>>,
    pub override_allowed: bool,
}

impl View for ValidationResult {
    type V = Finding;

    open spec fn view(&self) -> Finding {
        Finding {
            cable_id: self.cable_id,
            cable_tag: self.cable_tag@,
            severity: self.severity,
            validation_type: self.validation_type,
            message: self.message@,
            field: crate::cable::text_of(self.field),
            suggested_fix: crate::cable::text_of(self.suggested_fix),
            override_allowed: self.override_allowed,
        }
    }
}

/// The contents of a list of results.
pub open spec fn findings(results: Seq<ValidationResult>) -> Seq<Finding> {
    Seq::new(results.len(), |i: int| results[i]@)
}

impl ValidationSeverity {
    /// The rank of a severity: 2 for `Error`, 1 for `Warning`, 0 for `Info`.
    pub open spec fn rank(self) -> nat {
        match self {
            ValidationSeverity::Error => 2,
            ValidationSeverity::Warning => 1,
            ValidationSeverity::Info => 0,
        }
    }

    /// The rank of this severity.
    pub fn rank_number(self) -> (r: u8)
        ensures
            r == self.rank(),
    {
        match self {
            ValidationSeverity::Error => 2,
            ValidationSeverity::Warning => 1,
            ValidationSeverity::Info => 0,
        }
    }
}

/// What a rule says about every cable that it flags: all of a finding but
/// the cable.
#[derive(Debug, Clone)]
pub struct Verdict {
    pub severity: ValidationSeverity,
    pub validation_type: ValidationType,
    pub message: String,
    pub field: String,
    pub suggested_fix: String,
    pub override_allowed: bool,
}

/// The mathematical content of a `Verdict`.
pub ghost struct VerdictModel {
    pub severity: ValidationSeverity,
    pub validation_type: ValidationType,
    pub message: Seq<char>,
    pub field: Seq<char>,
    pub suggested_fix: Seq<char>,
    pub override_allowed: bool,
}

impl View for Verdict {
    type V = VerdictModel;

    open spec fn view(&self) -> VerdictModel {
        VerdictModel {
            severity: self.severity,
            validation_type: self.validation_type,
            message: self.message@,
            field: self.field@,
            suggested_fix: self.suggested_fix@,
            override_allowed: self.override_allowed,
        }
    }
}

impl VerdictModel {
    /// The finding that pronounces this verdict on a cable.
    pub open spec fn about(self, cable: CableModel) -> Finding {
        Finding {
            cable_id: cable.id,
            cable_tag: cable.tag,
            severity: self.severity,
            validation_type: self.validation_type,
            message: self.message,
            field: Some(self.field),
            suggested_fix: Some(self.suggested_fix),
            override_allowed: self.override_allowed,
        }
    }

    /// The function that takes a cable to this verdict's finding about it.
    pub open spec fn reporter(self) -> spec_fn(CableModel) -> Finding {
        |cable: CableModel| self.about(cable)
    }
}

impl Verdict {
    /// A verdict from its parts.
    pub fn new(
        severity: ValidationSeverity,
        validation_type: ValidationType,
        message: String,
        field: &str,
        suggested_fix: String,
        override_allowed: bool,
    ) -> (r: Verdict)
        ensures
            r@ == (VerdictModel {
                severity,
                validation_type,
                message: message@,
                field: field@,
                suggested_fix: suggested_fix@,
                override_allowed,
            }),
    {
        Verdict {
            severity,
            validation_type,
            message,
            field: String::from_str(field),
            suggested_fix,
            override_allowed,
        }
    }

    /// The result that pronounces this verdict on a cable.
    pub fn about(&self, cable: &Cable) -> (r: ValidationResult)
        ensures
            r@ == self@.about(cable@),
    {
        ValidationResult {
            cable_id: cable.id,
            cable_tag: cable.tag.clone(),
            severity: self.severity,
            validation_type: self.validation_type,
            message: self.message.clone(),
            field: Some(self.field.clone()),
            suggested_fix: Some(self.suggested_fix.clone()),
            override_allowed: self.override_allowed,
        }
    }
}

/// The verdict on a cable without a tag.
pub open spec fn missing_tag_verdict() -> VerdictModel {
    VerdictModel {
        severity: ValidationSeverity::Error,
        validation_type: ValidationType::RequiredField,
        message: "Cable tag is required"@,
        field: "tag"@,
        suggested_fix: "Enter a unique cable tag (e.g., C-001)"@,
        override_allowed: false,
    }
}

/// The verdict on a cable whose tag another cable bears too.
pub open spec fn duplicate_tag_verdict(tag: Seq<char>) -> VerdictModel {
    VerdictModel {
        severity: ValidationSeverity::Error,
        validation_type: ValidationType::DuplicateTag,
        message: "Duplicate cable tag '"@ + tag + "' found"@,
        field: "tag"@,
        suggested_fix: "Change to unique tag or use auto-numbering"@,
        override_allowed: true,
    }
}

/// The verdict on a voltage below zero or above 35 kV.
pub open spec fn voltage_range_verdict() -> VerdictModel {
    VerdictModel {
        severity: ValidationSeverity::Warning,
        validation_type: ValidationType::InvalidValue,
        message: "Voltage outside typical range (0-35kV)"@,
        field: "voltage"@,
        suggested_fix: "Verify voltage rating is correct"@,
        override_allowed: true,
    }
}

/// The verdict on a length below zero.
pub open spec fn negative_length_verdict() -> VerdictModel {
    VerdictModel {
        severity: ValidationSeverity::Error,
        validation_type: ValidationType::InvalidValue,
        message: "Cable length cannot be negative"@,
        field: "length"@,
        suggested_fix: "Enter a positive length value"@,
        override_allowed: false,
    }
}

/// The verdict on a length above 10 000 feet.
pub open spec fn long_length_verdict() -> VerdictModel {
    VerdictModel {
        severity: ValidationSeverity::Warning,
        validation_type: ValidationType::InvalidValue,
        message: "Cable length is unusually long (>10,000 ft)"@,
        field: "length"@,
        suggested_fix: "Verify length is correct"@,
        override_allowed: true,
    }
}

/// The verdict on a spare percentage below 0 or above 100.
pub open spec fn spare_range_verdict() -> VerdictModel {
    VerdictModel {
        severity: ValidationSeverity::Warning,
        validation_type: ValidationType::InvalidValue,
        message: "Spare percentage should be between 0-100%"@,
        field: "spare_percentage"@,
        suggested_fix: "Enter percentage as 0-100 (e.g., 10 for 10%)"@,
        override_allowed: true,
    }
}

/// The highest voltage in the typical range, 35 kV, in millivolts.
pub const MAX_TYPICAL_VOLTAGE: i32 = 35_000_000;

/// The longest usual length, 10 000 feet, in thousandths of a foot.
pub const MAX_USUAL_LENGTH: i32 = 10_000_000;

/// The highest spare percentage, 100 %, in thousandths of a percent.
pub const MAX_SPARE_PERCENTAGE: i32 = 100_000;

/// What the required-field check reports: a cable whose tag is blank lacks
/// its tag.
pub open spec fn required_field_findings(cable: CableModel) -> Seq<Finding> {
    if is_blank(cable.tag) {
        seq![missing_tag_verdict().about(cable)]
    } else {
        Seq::empty()
    }
}

/// A record other than the one with identity `id` bears `tag`, up to the
/// case of ASCII letters.
pub open spec fn bears_tag(other: CableModel, tag: Seq<char>, id: Option<i64>) -> bool {
    eq_ignoring_ascii_case(other.tag, tag) && other.id != id
}

/// Some record among `cables`, other than the one with identity `id`, bears
/// `tag`.
pub open spec fn tag_is_taken(tag: Seq<char>, id: Option<i64>, cables: Seq<CableModel>) -> bool {
    exists|i: int| 0 <= i < cables.len() && bears_tag(#[trigger] cables[i], tag, id)
}

/// What the duplicate check reports: a cable with a tag that is not blank
/// and that another record of the schedule bears too.
pub open spec fn duplicate_tag_findings(cable: CableModel, all_cables: Seq<CableModel>) -> Seq<
    Finding,
> {
    if !is_blank(cable.tag) && tag_is_taken(cable.tag, cable.id, all_cables) {
        seq![duplicate_tag_verdict(cable.tag).about(cable)]
    } else {
        Seq::empty()
    }
}

/// What the voltage check reports.
pub open spec fn voltage_findings(cable: CableModel) -> Seq<Finding> {
    match cable.voltage {
        Some(voltage) if voltage < 0 || voltage > MAX_TYPICAL_VOLTAGE => seq![
            voltage_range_verdict().about(cable),
        ],
        _ => Seq::empty(),
    }
}

/// What the length check reports.
pub open spec fn length_findings(cable: CableModel) -> Seq<Finding> {
    match cable.length {
        Some(length) if length < 0 => seq![negative_length_verdict().about(cable)],
        Some(length) if length > MAX_USUAL_LENGTH => seq![long_length_verdict().about(cable)],
        _ => Seq::empty(),
    }
}

/// What the check of the spare percentage reports.
pub open spec fn spare_findings(cable: CableModel) -> Seq<Finding> {
    match cable.spare_percentage {
        Some(spare) if spare < 0 || spare > MAX_SPARE_PERCENTAGE => seq![
            spare_range_verdict().about(cable),
        ],
        _ => Seq::empty(),
    }
}

/// What the format checks report: voltage, then length, then spare
/// percentage, each on its own.
pub open spec fn field_format_findings(cable: CableModel) -> Seq<Finding> {
    voltage_findings(cable) + length_findings(cable) + spare_findings(cable)
}

/// Everything that the checks on a single cable report: required fields,
/// then duplicates, then formats.
pub open spec fn cable_findings(cable: CableModel, all_cables: Seq<CableModel>) -> Seq<Finding> {
    required_field_findings(cable) + duplicate_tag_findings(cable, all_cables)
        + field_format_findings(cable)
}

/// Pushing a result adds its finding.
pub proof fn lemma_findings_push(results: Seq<ValidationResult>, result: ValidationResult)
    ensures
        findings(results.push(result)) == findings(results).push(result@),
{
    assert(findings(results.push(result)) =~= findings(results).push(result@));
}

/// The findings of two lists, one after the other.
pub proof fn lemma_findings_add(a: Seq<ValidationResult>, b: Seq<ValidationResult>)
    ensures
        findings(a + b) == findings(a) + findings(b),
{
    assert(findings(a + b) =~= findings(a) + findings(b));
}

/// Appends the result that pronounces a verdict on a cable.
pub fn report(results: &mut Vec<ValidationResult>, verdict: &Verdict, cable: &Cable)
    ensures
        findings(final(results)@) == findings(old(results)@).push(verdict@.about(cable@)),
{
    let result = verdict.about(cable);
    proof {
        lemma_findings_push(results@, result);
    }
    results.push(result);
}

/// Moves the results of `more` to the end of `results`.
pub fn report_all(results: &mut Vec<ValidationResult>, more: Vec<ValidationResult>)
    ensures
        findings(final(results)@) == findings(old(results)@) + findings(more@),
{
    let mut more = more;
    proof {
        lemma_findings_add(results@, more@);
    }
    results.append(&mut more);
}

/// The stateless engine that checks cables against the compliance rules.
#[derive(Debug, Clone, Copy)]
pub struct CableValidator {}

impl CableValidator {
    pub fn new() -> (r: Self) {
        CableValidator {  }
    }

    /// Decides whether a record among `cables`, other than the one with
    /// identity `exclude_id`, bears `tag` up to the case of ASCII letters.
    pub fn check_duplicate_tag(&self, tag: &str, exclude_id: Option<i64>, cables: &[Cable]) -> (r:
        bool)
        ensures
            r == tag_is_taken(tag@, exclude_id, models(cables@)),
    {
        let mut i: usize = 0;
        while i < cables.len()
            invariant
                i <= cables.len(),
                forall|k: int|
                    0 <= k < i ==> !bears_tag(#[trigger] models(cables@)[k], tag@, exclude_id),
            decreases cables.len() - i,
        {
            let other = &cables[i];
            assert(models(cables@)[i as int] == other@);
            if eq_ignore_ascii_case(other.tag.as_str(), tag) && !same_id(other.id, exclude_id) {
                return true;
            }
            i += 1;
        }
        false
    }

    /// Checks that a cable has what every cable must have: a tag.
    pub fn validate_required_fields(&self, cable: &Cable) -> (results: Vec<ValidationResult>)
        ensures
            findings(results@) == required_field_findings(cable@),
    {
        let mut results: Vec<ValidationResult> = Vec::new();
        assert(findings(results@) =~= Seq::empty());
        if is_blank_text(cable.tag.as_str()) {
            let verdict = Verdict::new(
                ValidationSeverity::Error,
                ValidationType::RequiredField,
                String::from_str("Cable tag is required"),
                "tag",
                String::from_str("Enter a unique cable tag (e.g., C-001)"),
                false,
            );
            report(&mut results, &verdict, cable);
            assert(findings(results@) =~= seq![missing_tag_verdict().about(cable@)]);
        }
        results
    }

    /// Checks whether another record of the schedule bears the tag of a
    /// cable. A cable without a tag is passed over.
    pub fn validate_duplicate_tag(&self, cable: &Cable, all_cables: &[Cable]) -> (results: Vec<
        ValidationResult,
    >)
        ensures
            findings(results@) == duplicate_tag_findings(cable@, models(all_cables@)),
    {
        let mut results: Vec<ValidationResult> = Vec::new();
        assert(findings(results@) =~= Seq::empty());
        if is_blank_text(cable.tag.as_str()) {
            return results;
        }
        if self.check_duplicate_tag(cable.tag.as_str(), cable.id, all_cables) {
            let mut message = String::from_str("Duplicate cable tag '");
            message.append(cable.tag.as_str());
            message.append("' found");
            let verdict = Verdict::new(
                ValidationSeverity::Error,
                ValidationType::DuplicateTag,
                message,
                "tag",
                String::from_str("Change to unique tag or use auto-numbering"),
                true,
            );
            report(&mut results, &verdict, cable);
            assert(findings(results@) =~= seq![duplicate_tag_verdict(cable@.tag).about(cable@)]);
        }
        results
    }

    /// Checks the values of voltage, length and spare percentage, each on
    /// its own; a value that is not given is passed over.
    pub fn validate_field_formats(&self, cable: &Cable) -> (results: Vec<ValidationResult>)
        ensures
            findings(results@) == field_format_findings(cable@),
    {
        let mut results: Vec<ValidationResult> = Vec::new();
        assert(findings(results@) =~= Seq::empty());
        if let Some(voltage) = cable.voltage {
            if voltage < 0 || voltage > MAX_TYPICAL_VOLTAGE {
                let verdict = Verdict::new(
                    ValidationSeverity::Warning,
                    ValidationType::InvalidValue,
                    String::from_str("Voltage outside typical range (0-35kV)"),
                    "voltage",
                    String::from_str("Verify voltage rating is correct"),
                    true,
                );
                report(&mut results, &verdict, cable);
            }
        }
        assert(findings(results@) =~= voltage_findings(cable@));
        if let Some(length) = cable.length {
            if length < 0 {
                let verdict = Verdict::new(
                    ValidationSeverity::Error,
                    ValidationType::InvalidValue,
                    String::from_str("Cable length cannot be negative"),
                    "length",
                    String::from_str("Enter a positive length value"),
                    false,
                );
                report(&mut results, &verdict, cable);
            } else if length > MAX_USUAL_LENGTH {
                let verdict = Verdict::new(
                    ValidationSeverity::Warning,
                    ValidationType::InvalidValue,
                    String::from_str("Cable length is unusually long (>10,000 ft)"),
                    "length",
                    String::from_str("Verify length is correct"),
                    true,
                );
                report(&mut results, &verdict, cable);
            }
        }
        assert(findings(results@) =~= voltage_findings(cable@) + length_findings(cable@));
        if let Some(spare) = cable.spare_percentage {
            if spare < 0 || spare > MAX_SPARE_PERCENTAGE {
                let verdict = Verdict::new(
                    ValidationSeverity::Warning,
                    ValidationType::InvalidValue,
                    String::from_str("Spare percentage should be between 0-100%"),
                    "spare_percentage",
                    String::from_str("Enter percentage as 0-100 (e.g., 10 for 10%)"),
                    true,
                );
                report(&mut results, &verdict, cable);
            }
        }
        assert(findings(results@) =~= field_format_findings(cable@));
        results
    }

    /// Runs every check on a single cable: required fields, duplicates,
    /// formats. Every check runs, whatever the others found.
    pub fn validate_cable(&self, cable: &Cable, all_cables: &[Cable]) -> (results: Vec<
        ValidationResult,
    >)
        ensures
            findings(results@) == cable_findings(cable@, models(all_cables@)),
    {
        let mut results = self.validate_required_fields(cable);
        report_all(&mut results, self.validate_duplicate_tag(cable, all_cables));
        report_all(&mut results, self.validate_field_formats(cable));
        results
    }
}

/// Decides whether two identities are the same.
pub fn same_id(a: Option<i64>, b: Option<i64>) -> (r: bool)
    ensures
        r == (a == b),
{
    match (a, b) {
        (Some(x), Some(y)) => x == y,
        (None, None) => true,
        _ => false,
    }
}

/// Every finding of the checks on a cable names that cable, by identity and
/// by tag.
pub proof fn law_findings_name_their_cable(cable: CableModel, all_cables: Seq<CableModel>)
    ensures
        forall|i: int|
            0 <= i < cable_findings(cable, all_cables).len() ==> {
                &&& (#[trigger] cable_findings(cable, all_cables)[i]).cable_id == cable.id
                &&& cable_findings(cable, all_cables)[i].cable_tag == cable.tag
            },
{
}

/// A text that matches a text which is not blank, up to the case of ASCII
/// letters, is not blank either.
pub proof fn lemma_case_keeps_blankness(a: Seq<char>, b: Seq<char>)
    requires
        eq_ignoring_ascii_case(a, b),
    ensures
        is_blank(a) == is_blank(b),
{
    if is_blank(a) {
        assert forall|i: int| 0 <= i < b.len() implies is_whitespace(#[trigger] b[i]) by {
            assert(is_whitespace(a[i]));
        }
    }
    if is_blank(b) {
        assert forall|i: int| 0 <= i < a.len() implies is_whitespace(#[trigger] a[i]) by {
            assert(is_whitespace(b[i]));
        }
    }
}

/// The duplicate check is symmetric: where one record of a schedule is
/// flagged because another bears its tag under another identity, that other
/// record is flagged too.
pub proof fn law_duplicates_are_mutual(all_cables: Seq<CableModel>, a: int, b: int)
    requires
        0 <= a < all_cables.len(),
        0 <= b < all_cables.len(),
        !is_blank(all_cables[a].tag),
        bears_tag(all_cables[b], all_cables[a].tag, all_cables[a].id),
    ensures
        bears_tag(all_cables[a], all_cables[b].tag, all_cables[b].id),
        duplicate_tag_findings(all_cables[a], all_cables) == seq![
            duplicate_tag_verdict(all_cables[a].tag).about(all_cables[a]),
        ],
        duplicate_tag_findings(all_cables[b], all_cables) == seq![
            duplicate_tag_verdict(all_cables[b].tag).about(all_cables[b]),
        ],
{
    lemma_case_keeps_blankness(all_cables[b].tag, all_cables[a].tag);
}

} // verus!
