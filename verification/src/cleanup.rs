//! The decisions of a cleanup run: which expired images count as deleted or
//! failed, and how the run ends. The caller performs each storage and
//! database request and reports its outcome here.
use vstd::prelude::*;

verus! {

/// Counts of a cleanup run.
#[derive(Clone, Copy, Debug, PartialEq, Eq)]
pub struct CleanupReport {
    pub candidates: usize,
    pub deleted: usize,
    pub failed: usize,
}

/// The outcome of deleting a candidate's object from the store.
#[derive(Clone, Copy, Debug, PartialEq, Eq)]
pub enum ObjectDeletion {
    /// The store deleted the object.
    Deleted,
    /// The store had no such object; it is gone either way.
    NotFound,
    /// The request failed.
    Failed,
}

/// The state of a cleanup run over a fixed number of candidates, taken one
/// after the other: first the object is deleted, then the row is marked.
pub struct CleanupRun {
    report: CleanupReport,
    awaiting_mark: bool,
}

/// The abstract state of a run.
pub ghost struct CleanupState {
    pub candidates: nat,
    pub deleted: nat,
    pub failed: nat,
    /// The current candidate's object is gone and its row is to be marked.
    pub awaiting_mark: bool,
}

impl CleanupState {
    /// Every candidate has been dealt with.
    pub open spec fn complete(self) -> bool {
        !self.awaiting_mark && self.deleted + self.failed == self.candidates
    }
}

impl View for CleanupRun {
    type V = CleanupState;

    closed spec fn view(&self) -> CleanupState {
        CleanupState {
            candidates: self.report.candidates as nat,
            deleted: self.report.deleted as nat,
            failed: self.report.failed as nat,
            awaiting_mark: self.awaiting_mark,
        }
    }
}

/// Whether the object deletion outcome lets the row be marked deleted.
pub open spec fn object_gone(outcome: ObjectDeletion) -> bool {
    outcome == ObjectDeletion::Deleted || outcome == ObjectDeletion::NotFound
}

impl CleanupRun {
    #[verifier::type_invariant]
    spec fn counts_fit(self) -> bool {
        self.report.deleted + self.report.failed + (if self.awaiting_mark { 1int } else { 0int })
            <= self.report.candidates
    }

    /// A run over `candidates` expired images, none dealt with yet.
    pub fn new(candidates: usize) -> (run: CleanupRun)
        ensures
            run@ == (CleanupState { candidates: candidates as nat, deleted: 0, failed: 0, awaiting_mark: false }),
    {
        CleanupRun {
            report: CleanupReport { candidates, deleted: 0, failed: 0 },
            awaiting_mark: false,
        }
    }

    /// Whether the run needs the object store at all (it does not when there
    /// is nothing to delete).
    pub fn needs_storage(&self) -> (b: bool)
        ensures
            b == (self@.candidates > 0),
    {
        self.report.candidates > 0
    }

    /// Whether every candidate has been dealt with.
    pub fn is_complete(&self) -> (b: bool)
        ensures
            b == self@.complete(),
            b ==> self@.deleted + self@.failed == self@.candidates,
            b ==> !self@.awaiting_mark,
            self@.deleted + self@.failed < self@.candidates ==> !b,
    {
        proof {
            use_type_invariant(self);
        }
        !self.awaiting_mark && self.report.deleted + self.report.failed == self.report.candidates
    }

    /// Whether the current candidate's row is to be marked deleted next.
    pub fn is_awaiting_mark(&self) -> (b: bool)
        ensures
            b == self@.awaiting_mark,
    {
        self.awaiting_mark
    }

    /// Records how deleting the next candidate's object went; returns whether
    /// its row is now to be marked deleted. A failure counts the candidate as
    /// failed.
    pub fn after_object_deletion(&mut self, outcome: ObjectDeletion) -> (mark: bool)
        requires
            !old(self)@.awaiting_mark,
            old(self)@.deleted + old(self)@.failed < old(self)@.candidates,
        ensures
            mark == object_gone(outcome),
            mark ==> final(self)@ == (CleanupState { awaiting_mark: true, ..old(self)@ }),
            !mark ==> final(self)@ == (CleanupState { failed: old(self)@.failed + 1, ..old(self)@ }),
            !mark ==> final(self)@ == after_candidate(
                old(self)@,
                CandidateOutcome { deletion: outcome, marked: false },
            ),
    {
        proof {
            use_type_invariant(&*self);
        }
        match outcome {
            ObjectDeletion::Deleted | ObjectDeletion::NotFound => {
                self.awaiting_mark = true;
                true
            },
            ObjectDeletion::Failed => {
                self.report.failed = self.report.failed + 1;
                false
            },
        }
    }

    /// Records whether the current candidate's row was marked deleted: it
    /// then counts as deleted, otherwise as failed.
    pub fn after_mark(&mut self, marked: bool)
        requires
            old(self)@.awaiting_mark,
        ensures
            marked ==> final(self)@ == (CleanupState {
                deleted: old(self)@.deleted + 1,
                awaiting_mark: false,
                ..old(self)@
            }),
            !marked ==> final(self)@ == (CleanupState {
                failed: old(self)@.failed + 1,
                awaiting_mark: false,
                ..old(self)@
            }),
            final(self)@ == after_candidate(
                CleanupState { awaiting_mark: false, ..old(self)@ },
                CandidateOutcome { deletion: ObjectDeletion::Deleted, marked },
            ),
    {
        proof {
            use_type_invariant(&*self);
        }
        self.awaiting_mark = false;
        if marked {
            self.report.deleted = self.report.deleted + 1;
        } else {
            self.report.failed = self.report.failed + 1;
        }
    }

    /// The counts so far.
    pub fn report(&self) -> (r: CleanupReport)
        ensures
            r.candidates == self@.candidates,
            r.deleted == self@.deleted,
            r.failed == self@.failed,
    {
        self.report
    }

    /// The end of a complete run: the report, as an error when some
    /// candidate failed.
    pub fn finish(&self) -> (r: Result<CleanupReport, CleanupReport>)
        requires
            self@.complete(),
        ensures
            r is Ok <==> self@.failed == 0,
            match r {
                Ok(report) => report.candidates == self@.candidates && report.deleted
                    == self@.deleted && report.failed == 0 && report.deleted == report.candidates,
                Err(report) => report.candidates == self@.candidates && report.deleted
                    == self@.deleted && report.failed == self@.failed,
            },
    {
        if self.report.failed > 0 {
            Err(self.report)
        } else {
            Ok(self.report)
        }
    }
}

/// What happened to one candidate: how deleting its object went and, where
/// the object was gone, whether its row was marked deleted.
pub ghost struct CandidateOutcome {
    pub deletion: ObjectDeletion,
    pub marked: bool,
}

/// The candidate was removed from the store and marked deleted.
pub open spec fn candidate_succeeded(o: CandidateOutcome) -> bool {
    object_gone(o.deletion) && o.marked
}

/// The state after one more candidate, as `after_object_deletion` followed,
/// where it asks for it, by `after_mark` leave it.
pub open spec fn after_candidate(s: CleanupState, o: CandidateOutcome) -> CleanupState {
    if candidate_succeeded(o) {
        CleanupState { deleted: s.deleted + 1, ..s }
    } else {
        CleanupState { failed: s.failed + 1, ..s }
    }
}

/// The state after the candidates with outcomes `os`, in order, starting
/// from `s`.
pub open spec fn after_candidates(s: CleanupState, os: Seq<CandidateOutcome>) -> CleanupState
    decreases os.len(),
{
    if os.len() == 0 {
        s
    } else {
        after_candidate(after_candidates(s, os.drop_last()), os.last())
    }
}

/// How many of the outcomes `os` are successes.
pub open spec fn successes(os: Seq<CandidateOutcome>) -> nat
    decreases os.len(),
{
    if os.len() == 0 {
        0
    } else {
        successes(os.drop_last()) + if candidate_succeeded(os.last()) { 1nat } else { 0nat }
    }
}

/// A run over `n` candidates that has dealt with each of them, one outcome
/// each, is complete; it has deleted exactly the successful ones and counted
/// every other one as failed, and it ends without error exactly when every
/// candidate succeeded.
pub proof fn lemma_run_counts_each_candidate_once(os: Seq<CandidateOutcome>)
    ensures
        ({
            let start = CleanupState { candidates: os.len(), deleted: 0, failed: 0, awaiting_mark: false };
            let end = after_candidates(start, os);
            &&& end.complete()
            &&& end.deleted == successes(os)
            &&& end.failed + successes(os) == os.len()
            &&& (end.failed == 0 <==> successes(os) == os.len())
        }),
    decreases os.len(),
{
    if os.len() > 0 {
        lemma_run_counts_each_candidate_once(os.drop_last());
        let n = os.len();
        let start = CleanupState { candidates: n, deleted: 0, failed: 0, awaiting_mark: false };
        let start_prev = CleanupState { candidates: (n - 1) as nat, deleted: 0, failed: 0, awaiting_mark: false };
        lemma_after_candidates_keeps_total(start, os.drop_last());
        lemma_after_candidates_keeps_total(start_prev, os.drop_last());
        lemma_after_candidates_ignores_total(start, start_prev, os.drop_last());
    }
}

/// A run is not complete before it has dealt with every candidate: after
/// fewer outcomes than candidates, with or without a row still to be
/// marked, there is more to do.
pub proof fn lemma_run_incomplete_until_every_candidate(n: nat, os: Seq<CandidateOutcome>, awaiting_mark: bool)
    requires
        os.len() < n,
    ensures
        ({
            let start = CleanupState { candidates: n, deleted: 0, failed: 0, awaiting_mark: false };
            let s = after_candidates(start, os);
            &&& !s.complete()
            &&& !(CleanupState { awaiting_mark, ..s }).complete()
            &&& s.deleted + s.failed < s.candidates
        }),
{
    let start = CleanupState { candidates: n, deleted: 0, failed: 0, awaiting_mark: false };
    lemma_after_candidates_keeps_total(start, os);
}

proof fn lemma_after_candidates_keeps_total(s: CleanupState, os: Seq<CandidateOutcome>)
    ensures
        after_candidates(s, os).candidates == s.candidates,
        after_candidates(s, os).awaiting_mark == s.awaiting_mark,
        after_candidates(s, os).deleted + after_candidates(s, os).failed == s.deleted + s.failed + os.len(),
    decreases os.len(),
{
    if os.len() > 0 {
        lemma_after_candidates_keeps_total(s, os.drop_last());
    }
}

proof fn lemma_after_candidates_ignores_total(s: CleanupState, t: CleanupState, os: Seq<CandidateOutcome>)
    requires
        s.deleted == t.deleted,
        s.failed == t.failed,
    ensures
        after_candidates(s, os).deleted == after_candidates(t, os).deleted,
        after_candidates(s, os).failed == after_candidates(t, os).failed,
    decreases os.len(),
{
    if os.len() > 0 {
        lemma_after_candidates_ignores_total(s, t, os.drop_last());
    }
}

} // verus!
