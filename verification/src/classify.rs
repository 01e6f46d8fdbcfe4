//! The outcome classifier: a total decision procedure over the presence of
//! the consolidated record's four optional fields.

use vstd::prelude::*;

use crate::record::TaskInfo;
use crate::record::TaskInfoV;

verus! {

/// The four message templates, one of which every consolidated record
/// selects.
#[derive(Clone, Copy, PartialEq, Eq, Structural, Debug)]
pub enum Template {
    /// Target, error and consumed count present: the failure report.
    FailureWithProgress,
    /// Target and produced count present, no error: the success report.
    SuccessWithCount,
    /// No target: only status, kind and elapsed are mentioned.
    TaskOnly,
    /// A target and nothing else to report.
    TargetOnly,
}

/// The decision table over presence of (`target_id`, `error`,
/// `consumed_count`, `produced_count`), first match wins; the last row takes
/// every remaining record with a target.
pub open spec fn template_of(target: bool, error: bool, consumed: bool, produced: bool) -> Template {
    if target && error && consumed {
        Template::FailureWithProgress
    } else if target && !error && produced {
        Template::SuccessWithCount
    } else if !target {
        Template::TaskOnly
    } else {
        Template::TargetOnly
    }
}

/// The `produced_count` counter when `details` carries one.
pub open spec fn produced_of(t: TaskInfoV) -> Option<u64> {
    match t.details {
        Some(d) => d.produced_count,
        None => None,
    }
}

/// The `consumed_count` counter when `details` carries one.
pub open spec fn consumed_of(t: TaskInfoV) -> Option<u64> {
    match t.details {
        Some(d) => d.consumed_count,
        None => None,
    }
}

/// The template a consolidated record selects.
pub open spec fn template_spec(t: TaskInfoV) -> Template {
    template_of(
        t.target_id is Some,
        t.error is Some,
        consumed_of(t) is Some,
        produced_of(t) is Some,
    )
}

/// Selects the template for a consolidated record, as `template_spec`
/// describes.
pub fn classify(t: &TaskInfo) -> (r: Template)
    ensures
        r == template_spec(t@),
{
    let target = t.target_id.is_some();
    let error = t.error.is_some();
    let consumed = match &t.details {
        Some(d) => d.consumed_count.is_some(),
        None => false,
    };
    let produced = match &t.details {
        Some(d) => d.produced_count.is_some(),
        None => false,
    };
    if target && error && consumed {
        Template::FailureWithProgress
    } else if target && !error && produced {
        Template::SuccessWithCount
    } else if !target {
        Template::TaskOnly
    } else {
        Template::TargetOnly
    }
}

/// The classifier is total and unambiguous: over every combination of
/// presence of the four fields, exactly one template is selected, and it is
/// the one the decision table's rows give — the failure row exactly when
/// target, error and consumed count are present; the success row exactly
/// when target and produced count are present without an error; the
/// task-only row exactly when there is no target; and the target-only row
/// in exactly the remaining cases with a target.
pub proof fn lemma_classifier_total(target: bool, error: bool, consumed: bool, produced: bool)
    ensures
        (template_of(target, error, consumed, produced) == Template::FailureWithProgress) <==> (
        target && error && consumed),
        (template_of(target, error, consumed, produced) == Template::SuccessWithCount) <==> (target
            && !error && produced),
        (template_of(target, error, consumed, produced) == Template::TaskOnly) <==> !target,
        (template_of(target, error, consumed, produced) == Template::TargetOnly) <==> (target && !(
        error && consumed) && (error || !produced)),
{
}

} // verus!
