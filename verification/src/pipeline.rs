//! The pipeline: adapt the outer call, classify each inner call against the
//! kind expected at its position, and list what is to be reported.
//!
//! Entries are classified in the order of the wire. The first entry that
//! fails to classify ends the run, and no later entry is looked at.
//! `check_calldata` then returns the error of that entry and no report: a
//! call of which one inner call did not classify is not passed on in part.
//! `classify_entries` keeps the reports made before the failure, for a caller
//! who wants them.
//!
//! Expected kinds are matched to entries by position. Where the list of
//! kinds is the shorter one, the entries beyond it are neither classified nor
//! reported; where it is the longer one, the kinds beyond the last entry are
//! not used. Neither is an error.
//!
//! The reports are listed, not delivered: whoever holds the list hands each
//! report to the policy side, in the order of the list.

use vstd::prelude::*;
use vstd::slice::slice_subrange;
use crate::adapter::{adapt, lemma_entries_are_bounded, spec_adapt, AccountProfile};
use crate::bytes::take_array;
use crate::classifier::{classify, spec_classify};
use crate::error::{DecodeError, Stage};
use crate::selector::{selector_at, SELECTOR_LEN};
use crate::types::{
    entries_view,
    reports_view,
    EntryView,
    ExecutionEntry,
    Report,
    ReportView,
    TokenKind,
};

verus! {

/// The entry at which classification stopped, and why.
#[derive(Clone, Copy, Debug, PartialEq, Eq)]
pub struct EntryFailure {
    pub entry_index: usize,
    pub error: DecodeError,
}

/// The outcome of classifying a list of entries.
#[derive(Clone, Debug, PartialEq, Eq)]
pub struct Classified {
    /// One report for each classified entry, in the order of the entries.
    pub reports: Vec<Report>,
    /// The failure that ended the run, if one did.
    pub failure: Option<EntryFailure>,
}

/// What a `Classified` stands for.
pub struct ClassifiedView {
    pub reports: Seq<ReportView>,
    pub failure: Option<EntryFailure>,
}

impl View for Classified {
    type V = ClassifiedView;

    open spec fn view(&self) -> ClassifiedView {
        ClassifiedView { reports: reports_view(self.reports@), failure: self.failure }
    }
}

/// The number of positions at which an entry meets an expected kind.
pub open spec fn paired_count(entries: Seq<EntryView>, expected: Seq<TokenKind>) -> nat {
    if entries.len() < expected.len() {
        entries.len()
    } else {
        expected.len()
    }
}

/// The outcome of classifying the first `count` entries, each against the
/// kind at its position: the outcome for one entry fewer, and then, unless a
/// failure has ended the run, a report or a failure for the last of them.
pub open spec fn spec_classify_first(
    entries: Seq<EntryView>,
    expected: Seq<TokenKind>,
    count: nat,
) -> ClassifiedView
    decreases count,
{
    if count == 0 {
        ClassifiedView { reports: Seq::empty(), failure: None }
    } else {
        let before = spec_classify_first(entries, expected, (count - 1) as nat);
        let at = count - 1;
        if before.failure is Some {
            before
        } else {
            match spec_classify(entries[at].inner_calldata, expected[at]) {
                Ok(operation) => ClassifiedView {
                    reports: before.reports.push(
                        ReportView {
                            entry_index: at as nat,
                            target: entries[at].target,
                            value: entries[at].value,
                            operation,
                        },
                    ),
                    failure: None,
                },
                Err(error) => ClassifiedView {
                    reports: before.reports,
                    failure: Some(EntryFailure { entry_index: at as usize, error }),
                },
            }
        }
    }
}

/// The outcome of classifying entries against the expected kinds.
pub open spec fn spec_classify_entries(
    entries: Seq<EntryView>,
    expected: Seq<TokenKind>,
) -> ClassifiedView {
    spec_classify_first(entries, expected, paired_count(entries, expected))
}

/// A failure ends the run: taking more entries into account changes nothing.
pub proof fn lemma_failure_ends_run(
    entries: Seq<EntryView>,
    expected: Seq<TokenKind>,
    count: nat,
    more: nat,
)
    requires
        count <= more,
        spec_classify_first(entries, expected, count).failure is Some,
    ensures
        spec_classify_first(entries, expected, more) == spec_classify_first(
            entries,
            expected,
            count,
        ),
    decreases more,
{
    if count < more {
        lemma_failure_ends_run(entries, expected, count, (more - 1) as nat);
    }
}

/// Reports come in the order of the entries and leave none out: report `k`
/// is about entry `k`, with that entry's target and value and the operation
/// its call data classifies to. There are as many reports as entries met an
/// expected kind, unless a failure ended the run; a failure names the entry
/// that follows the last report and the error of its classification.
pub proof fn lemma_reports_follow_entries(
    entries: Seq<EntryView>,
    expected: Seq<TokenKind>,
    count: nat,
)
    requires
        count <= paired_count(entries, expected),
        count <= usize::MAX,
    ensures
        ({
            let outcome = spec_classify_first(entries, expected, count);
            &&& outcome.reports.len() <= count
            &&& forall|k: int|
                0 <= k < outcome.reports.len() ==> {
                    let report = #[trigger] outcome.reports[k];
                    &&& report.entry_index == k
                    &&& report.target == entries[k].target
                    &&& report.value == entries[k].value
                    &&& spec_classify(entries[k].inner_calldata, expected[k]) == Ok::<
                        crate::types::TokenOperationView,
                        DecodeError,
                    >(report.operation)
                }
            &&& match outcome.failure {
                None => outcome.reports.len() == count,
                Some(failure) => {
                    &&& failure.entry_index == outcome.reports.len()
                    &&& failure.entry_index < count
                    &&& spec_classify(
                        entries[failure.entry_index as int].inner_calldata,
                        expected[failure.entry_index as int],
                    ) == Err::<crate::types::TokenOperationView, DecodeError>(failure.error)
                },
            }
        }),
    decreases count,
{
    if count > 0 {
        lemma_reports_follow_entries(entries, expected, (count - 1) as nat);
    }
}

/// Classifies entries against the expected kinds, position by position, and
/// stops at the first entry that fails.
pub fn classify_entries(entries: &Vec<ExecutionEntry>, expected: &[TokenKind]) -> (r: Classified)
    ensures
        r@ == spec_classify_entries(entries_view(entries@), expected@),
{
    let count = if entries.len() < expected.len() {
        entries.len()
    } else {
        expected.len()
    };
    let ghost views = entries_view(entries@);
    let mut reports: Vec<Report> = Vec::new();
    let mut i: usize = 0;
    proof {
        assert(reports_view(reports@) =~= Seq::<ReportView>::empty());
    }
    while i < count
        invariant
            i <= count,
            count == paired_count(views, expected@),
            views == entries_view(entries@),
            spec_classify_first(views, expected@, i as nat) == (ClassifiedView {
                reports: reports_view(reports@),
                failure: None,
            }),
        decreases count - i,
    {
        let entry = &entries[i];
        let ghost before = reports_view(reports@);
        match classify(entry.inner_calldata.as_slice(), expected[i]) {
            Ok(operation) => {
                reports.push(
                    Report { entry_index: i, target: entry.target, value: entry.value, operation },
                );
                proof {
                    assert(views[i as int] == entry@);
                    assert(reports_view(reports@) =~= before.push(
                        ReportView {
                            entry_index: i as nat,
                            target: views[i as int].target,
                            value: views[i as int].value,
                            operation: operation@,
                        },
                    ));
                }
            },
            Err(error) => {
                proof {
                    assert(views[i as int] == entry@);
                    lemma_failure_ends_run(views, expected@, (i + 1) as nat, count as nat);
                }
                return Classified {
                    reports,
                    failure: Some(EntryFailure { entry_index: i, error }),
                };
            },
        }
        i += 1;
    }
    Classified { reports, failure: None }
}

/// What inspecting an outer call gave.
#[derive(Clone, Debug, PartialEq, Eq)]
pub struct Inspection {
    /// The profile of the outer call; `None` for a packed call of unknown
    /// mode.
    pub profile: Option<AccountProfile>,
    /// The number of inner calls that the outer call carries.
    pub entry_count: usize,
    /// The reports to deliver, in ascending order of their entry index.
    pub reports: Vec<Report>,
}

/// What an `Inspection` stands for.
pub struct InspectionView {
    pub profile: Option<AccountProfile>,
    pub entry_count: nat,
    pub reports: Seq<ReportView>,
}

impl View for Inspection {
    type V = InspectionView;

    open spec fn view(&self) -> InspectionView {
        InspectionView {
            profile: self.profile,
            entry_count: self.entry_count as nat,
            reports: reports_view(self.reports@),
        }
    }
}

/// The selector of an outer call and the arguments after it.
pub open spec fn spec_split_call_data(call_data: Seq<u8>) -> Result<([u8; 4], Seq<u8>), DecodeError> {
    if call_data.len() < SELECTOR_LEN {
        Err(
            DecodeError::TruncatedSelector {
                stage: Stage::OuterCall,
                len: call_data.len() as usize,
            },
        )
    } else {
        Ok((selector_at(call_data), call_data.subrange(4, call_data.len() as int)))
    }
}

/// Splits the call data of an outer call into its selector and its
/// arguments.
pub fn split_call_data(call_data: &[u8]) -> (r: Result<([u8; 4], &[u8]), DecodeError>)
    ensures
        match r {
            Ok(parts) => spec_split_call_data(call_data@) == Ok::<
                ([u8; 4], Seq<u8>),
                DecodeError,
            >((parts.0, parts.1@)),
            Err(e) => spec_split_call_data(call_data@) == Err::<([u8; 4], Seq<u8>), DecodeError>(
                e,
            ),
        },
{
    if call_data.len() < SELECTOR_LEN {
        return Err(
            DecodeError::TruncatedSelector { stage: Stage::OuterCall, len: call_data.len() },
        );
    }
    let selector = take_array::<4>(call_data, 0);
    proof {
        assert(selector =~= selector_at(call_data@));
    }
    Ok((selector, slice_subrange(call_data, SELECTOR_LEN, call_data.len())))
}

/// What inspecting an outer call gives.
///
/// An error of the split or of the adapter is the result. So is the error of
/// the first entry that does not classify: the result is then that error,
/// and no report. Otherwise the result holds the adapter's profile and one
/// report for each entry that met an expected kind.
pub open spec fn spec_check_calldata(call_data: Seq<u8>, expected: Seq<TokenKind>) -> Result<
    InspectionView,
    DecodeError,
> {
    match spec_split_call_data(call_data) {
        Ok((selector, payload)) => match spec_adapt(selector, payload) {
            Ok(adapted) => {
                let outcome = spec_classify_entries(adapted.entries, expected);
                match outcome.failure {
                    Some(failure) => Err(failure.error),
                    None => Ok(
                        InspectionView {
                            profile: adapted.profile,
                            entry_count: adapted.entries.len(),
                            reports: outcome.reports,
                        },
                    ),
                }
            },
            Err(e) => Err(e),
        },
        Err(e) => Err(e),
    }
}

/// The view of an inspection result.
pub open spec fn inspection_view(r: Result<Inspection, DecodeError>) -> Result<
    InspectionView,
    DecodeError,
> {
    match r {
        Ok(inspection) => Ok(inspection@),
        Err(e) => Err(e),
    }
}

/// Inspects the call data of an outer call.
///
/// `call_data` is the selector of the outer call and its encoded arguments;
/// `expected` holds the kind expected of each inner call, by position. Every
/// error ends the inspection and is the result: an error of the adapter, and
/// the error of the first inner call that does not classify. A result that
/// is `Ok` holds a report for each entry that met an expected kind.
pub fn check_calldata(call_data: &[u8], expected: &[TokenKind]) -> (r: Result<
    Inspection,
    DecodeError,
>)
    ensures
        inspection_view(r) == spec_check_calldata(call_data@, expected@),
{
    let (selector, payload) = match split_call_data(call_data) {
        Ok(parts) => parts,
        Err(e) => { return Err(e); },
    };
    match adapt(&selector, payload) {
        Ok(adapted) => {
            let outcome = classify_entries(&adapted.entries, expected);
            match outcome.failure {
                Some(failure) => Err(failure.error),
                None => Ok(
                    Inspection {
                        profile: adapted.profile,
                        entry_count: adapted.entries.len(),
                        reports: outcome.reports,
                    },
                ),
            }
        },
        Err(e) => Err(e),
    }
}

/// An inspection that succeeds has classified every entry that met an
/// expected kind: it holds as many reports as there are such entries, and
/// report `k` is about entry `k`.
pub proof fn lemma_inspection_reports_every_paired_entry(
    call_data: Seq<u8>,
    expected: Seq<TokenKind>,
)
    requires
        spec_check_calldata(call_data, expected) is Ok,
    ensures
        ({
            let parts = spec_split_call_data(call_data)->Ok_0;
            let entries = spec_adapt(parts.0, parts.1)->Ok_0.entries;
            let reports = spec_check_calldata(call_data, expected)->Ok_0.reports;
            &&& reports.len() == paired_count(entries, expected)
            &&& forall|k: int|
                0 <= k < reports.len() ==> {
                    let report = #[trigger] reports[k];
                    &&& report.entry_index == k
                    &&& report.target == entries[k].target
                    &&& report.value == entries[k].value
                    &&& spec_classify(entries[k].inner_calldata, expected[k]) == Ok::<
                        crate::types::TokenOperationView,
                        DecodeError,
                    >(report.operation)
                }
        }),
{
    let parts = spec_split_call_data(call_data)->Ok_0;
    let entries = spec_adapt(parts.0, parts.1)->Ok_0.entries;
    lemma_entries_are_bounded(parts.0, parts.1);
    lemma_reports_follow_entries(entries, expected, paired_count(entries, expected));
}

/// Where an entry fails to classify, the inspection fails with the error of
/// the first such entry, whatever the entries before it gave.
pub proof fn lemma_failing_entry_is_the_error(call_data: Seq<u8>, expected: Seq<TokenKind>)
    requires
        spec_split_call_data(call_data) is Ok,
        spec_adapt(
            spec_split_call_data(call_data)->Ok_0.0,
            spec_split_call_data(call_data)->Ok_0.1,
        ) is Ok,
        spec_classify_entries(
            spec_adapt(
                spec_split_call_data(call_data)->Ok_0.0,
                spec_split_call_data(call_data)->Ok_0.1,
            )->Ok_0.entries,
            expected,
        ).failure is Some,
    ensures
        spec_check_calldata(call_data, expected) == Err::<InspectionView, DecodeError>(
            spec_classify_entries(
                spec_adapt(
                    spec_split_call_data(call_data)->Ok_0.0,
                    spec_split_call_data(call_data)->Ok_0.1,
                )->Ok_0.entries,
                expected,
            ).failure->Some_0.error,
        ),
{
}

} // verus!
