//! The validation of a whole schedule and its summary.

use vstd::prelude::*;
use crate::cable::{models, Cable, CableModel};
use crate::segregation::segregation_findings;
use crate::validation::{
    cable_findings, findings, report_all, CableValidator, Finding, ValidationResult,
    ValidationSeverity,
};

verus! {

/// The outcome of validating a schedule: every finding, and how many there
/// are of each severity.
#[derive(Debug, Clone)]
pub struct ValidationSummary {
    /// The number of cables in the schedule.
    pub total_cables: usize,
    pub error_count: usize,
    pub warning_count: usize,
    pub info_count: usize,
    /// The findings on each cable, cable after cable, then the findings of
    /// the segregation rules.
    pub results: Vec<ValidationResult>,
    /// When the schedule was validated, in milliseconds since the Unix epoch.
    pub validation_time: i64,
}

/// The test whether a finding has a severity.
pub open spec fn has_severity(severity: ValidationSeverity) -> spec_fn(Finding) -> bool {
    |finding: Finding| finding.severity == severity
}

/// The number of findings of a severity.
pub open spec fn count_of(all: Seq<Finding>, severity: ValidationSeverity) -> nat {
    all.filter(has_severity(severity)).len()
}

/// The findings on each of the first `count` cables of a schedule, cable
/// after cable. Each cable is checked against the whole schedule.
pub open spec fn cable_findings_upto(cables: Seq<CableModel>, count: int) -> Seq<Finding>
    decreases count,
{
    if count <= 0 {
        Seq::empty()
    } else {
        cable_findings_upto(cables, count - 1) + cable_findings(cables[count - 1], cables)
    }
}

/// Everything that validation reports on a schedule: the findings on each
/// cable, then the findings of the segregation rules.
pub open spec fn all_findings(cables: Seq<CableModel>) -> Seq<Finding> {
    cable_findings_upto(cables, cables.len() as int) + segregation_findings(cables)
}

/// A summary says of a schedule what validation finds in it.
pub open spec fn summarizes(summary: ValidationSummary, cables: Seq<CableModel>) -> bool {
    &&& summary.total_cables == cables.len()
    &&& findings(summary.results@) == all_findings(cables)
    &&& summary.error_count == count_of(all_findings(cables), ValidationSeverity::Error)
    &&& summary.warning_count == count_of(all_findings(cables), ValidationSeverity::Warning)
    &&& summary.info_count == count_of(all_findings(cables), ValidationSeverity::Info)
}

/// Every finding has exactly one severity: the three counts add up to the
/// number of findings.
pub proof fn law_counts_add_up(all: Seq<Finding>)
    ensures
        count_of(all, ValidationSeverity::Error) + count_of(all, ValidationSeverity::Warning)
            + count_of(all, ValidationSeverity::Info) == all.len(),
    decreases all.len(),
{
    if all.len() == 0 {
        all.lemma_filter_len(has_severity(ValidationSeverity::Error));
        all.lemma_filter_len(has_severity(ValidationSeverity::Warning));
        all.lemma_filter_len(has_severity(ValidationSeverity::Info));
    } else {
        let rest = all.drop_last();
        law_counts_add_up(rest);
        assert(rest.push(all.last()) =~= all);
        rest.lemma_filter_push(all.last(), has_severity(ValidationSeverity::Error));
        rest.lemma_filter_push(all.last(), has_severity(ValidationSeverity::Warning));
        rest.lemma_filter_push(all.last(), has_severity(ValidationSeverity::Info));
    }
}

/// Reads the clock with `std::time::SystemTime::now`, turns the reading into
/// a `chrono::DateTime<chrono::Utc>` with chrono's `From<SystemTime>`, and
/// takes `chrono::DateTime::timestamp_millis` of it: the time of the call in
/// milliseconds since the Unix epoch, negative for a clock that stands before
/// 1970. The contract promises nothing of the value.
#[verifier::external_body]
fn current_time_millis() -> (now: i64) {
    chrono::DateTime::<chrono::Utc>::from(std::time::SystemTime::now()).timestamp_millis()
}

/// Counts the results of a severity.
pub fn count_severity(results: &Vec<ValidationResult>, severity: ValidationSeverity) -> (count:
    usize)
    ensures
        count == count_of(findings(results@), severity),
{
    let ghost all = findings(results@);
    let mut count: usize = 0;
    let mut i: usize = 0;
    proof {
        assert(all.take(0) =~= Seq::empty());
        all.take(0).lemma_filter_len(has_severity(severity));
    }
    while i < results.len()
        invariant
            i <= results.len(),
            all == findings(results@),
            count <= i,
            count == count_of(all.take(i as int), severity),
        decreases results.len() - i,
    {
        proof {
            assert(all[i as int] == results[i as int]@);
            assert(all.take(i + 1) =~= all.take(i as int).push(all[i as int]));
            all.take(i as int).lemma_filter_push(all[i as int], has_severity(severity));
        }
        if results[i].severity == severity {
            count += 1;
        }
        i += 1;
    }
    assert(all.take(results.len() as int) =~= all);
    count
}

impl CableValidator {
    /// Runs the checks on every cable of a schedule, each against the whole
    /// schedule, and then the segregation rules.
    pub fn validate_schedule(&self, cables: &[Cable]) -> (results: Vec<ValidationResult>)
        ensures
            findings(results@) == all_findings(models(cables@)),
    {
        let ghost all = models(cables@);
        let mut results: Vec<ValidationResult> = Vec::new();
        assert(findings(results@) =~= Seq::empty());
        let mut i: usize = 0;
        while i < cables.len()
            invariant
                i <= cables.len(),
                all == models(cables@),
                findings(results@) == cable_findings_upto(all, i as int),
            decreases cables.len() - i,
        {
            assert(all[i as int] == cables[i as int]@);
            report_all(&mut results, self.validate_cable(&cables[i], cables));
            i += 1;
        }
        report_all(&mut results, self.validate_segregation_rules(cables));
        results
    }

    /// Validates a schedule and stamps the summary with a given time.
    pub fn summarize(&self, cables: &[Cable], validation_time: i64) -> (summary: ValidationSummary)
        ensures
            summarizes(summary, models(cables@)),
            summary.validation_time == validation_time,
            summary.error_count + summary.warning_count + summary.info_count
                == summary.results.len(),
    {
        let results = self.validate_schedule(cables);
        let error_count = count_severity(&results, ValidationSeverity::Error);
        let warning_count = count_severity(&results, ValidationSeverity::Warning);
        let info_count = count_severity(&results, ValidationSeverity::Info);
        proof {
            law_counts_add_up(findings(results@));
        }
        ValidationSummary {
            total_cables: cables.len(),
            error_count,
            warning_count,
            info_count,
            results,
            validation_time,
        }
    }

    /// Validates a schedule: every check on every cable, the segregation
    /// rules, and the counts by severity, stamped with the time of the call.
    /// The summary is the same whatever the time is.
    pub fn validate_all_cables(&self, cables: &[Cable]) -> (summary: ValidationSummary)
        ensures
            summarizes(summary, models(cables@)),
            summary.error_count + summary.warning_count + summary.info_count
                == summary.results.len(),
    {
        let now = current_time_millis();
        self.summarize(cables, now)
    }
}

} // verus!
