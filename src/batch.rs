//! The ledger of a multi-schema run: one outcome per schema file, and the
//! summary that decides the run's overall result.
use vstd::prelude::*;
use crate::strutil::owned;

verus! {

/// What became of one schema file.
#[derive(Debug)]
pub struct FileOutcome {
    /// The entity name, or the file name when the file did not parse.
    pub name: String,
    pub ok: bool,
    /// `OK`, or the error met.
    pub message: String,
}

impl FileOutcome {
    /// A file whose artifacts were all written.
    pub fn success(name: String) -> (r: FileOutcome)
        ensures
            r.name@ == name@,
            r.ok,
            r.message@ == "OK"@,
    {
        FileOutcome { name, ok: true, message: owned("OK") }
    }

    /// A file that failed with `message`.
    pub fn failure(name: String, message: String) -> (r: FileOutcome)
        ensures
            r.name@ == name@,
            !r.ok,
            r.message@ == message@,
    {
        FileOutcome { name, ok: false, message }
    }
}

/// The number of successful outcomes.
pub open spec fn ok_count(s: Seq<FileOutcome>) -> nat
    decreases s.len(),
{
    if s.len() == 0 {
        0
    } else {
        ok_count(s.drop_last()) + if s.last().ok {
            1nat
        } else {
            0nat
        }
    }
}

/// The failed outcomes, in processing order.
pub open spec fn failures_of(s: Seq<FileOutcome>) -> Seq<FileOutcome> {
    s.filter(|o: FileOutcome| !o.ok)
}

/// A failure as the report lists it: file or entity name, and message.
pub struct FailureView {
    pub name: Seq<char>,
    pub message: Seq<char>,
}

pub open spec fn failure_view(o: FileOutcome) -> FailureView {
    FailureView { name: o.name@, message: o.message@ }
}

/// A failed file in the final report.
#[derive(Debug)]
pub struct Failure {
    pub name: String,
    pub message: String,
}

impl View for Failure {
    type V = FailureView;

    open spec fn view(&self) -> FailureView {
        FailureView { name: self.name@, message: self.message@ }
    }
}

/// The final report of a batch.
#[derive(Debug)]
pub struct BatchSummary {
    pub success_count: usize,
    pub failures: Vec<Failure>,
    /// The run succeeded: no file failed.
    pub all_ok: bool,
}

pub open spec fn failure_views(s: Seq<Failure>) -> Seq<FailureView> {
    s.map_values(|f: Failure| f@)
}

/// Counts the successes, lists the failures, and succeeds only if no file
/// failed, however many succeeded.
pub fn summarize(outcomes: &Vec<FileOutcome>) -> (r: BatchSummary)
    ensures
        r.success_count == ok_count(outcomes@),
        failure_views(r.failures@) == failures_of(outcomes@).map_values(|o: FileOutcome| failure_view(o)),
        r.all_ok == (failures_of(outcomes@).len() == 0),
{
    let ghost keep = |o: FileOutcome| !o.ok;
    let ghost to = |o: FileOutcome| failure_view(o);
    let mut count: usize = 0;
    let mut failures: Vec<Failure> = Vec::new();
    let mut i: usize = 0;
    while i < outcomes.len()
        invariant
            0 <= i <= outcomes@.len(),
            keep == (|o: FileOutcome| !o.ok),
            to == (|o: FileOutcome| failure_view(o)),
            count == ok_count(outcomes@.take(i as int)),
            count <= i,
            failure_views(failures@) == outcomes@.take(i as int).filter(keep).map_values(to),
        decreases outcomes@.len() - i,
    {
        proof {
            crate::schema::lemma_filter_take_step(outcomes@, keep, i as int);
            assert(outcomes@.take(i + 1).drop_last() =~= outcomes@.take(i as int));
        }
        let o = &outcomes[i];
        if o.ok {
            count += 1;
        } else {
            let ghost prev = failures@;
            let f = Failure { name: o.name.clone(), message: o.message.clone() };
            failures.push(f);
            proof {
                assert(failure_views(failures@) =~= failure_views(prev).push(f@));
                assert(outcomes@.take(i + 1).filter(keep).map_values(to) =~= outcomes@.take(
                    i as int,
                ).filter(keep).map_values(to).push(to(outcomes@[i as int])));
            }
        }
        i += 1;
    }
    assert(outcomes@.take(outcomes@.len() as int) =~= outcomes@);
    let all_ok = failures.len() == 0;
    BatchSummary { success_count: count, failures, all_ok }
}

/// A batch in which exactly one file failed: every other file counts as a
/// success, the failed file alone is reported under its name, and the run
/// as a whole fails.
pub proof fn lemma_one_failure_fails_batch(outcomes: Seq<FileOutcome>, k: int)
    requires
        0 <= k < outcomes.len(),
        !outcomes[k].ok,
        forall|i: int| 0 <= i < outcomes.len() && i != k ==> outcomes[i].ok,
    ensures
        ok_count(outcomes) == outcomes.len() - 1,
        failures_of(outcomes).map_values(|o: FileOutcome| failure_view(o)) == seq![
            failure_view(outcomes[k]),
        ],
        failures_of(outcomes).len() != 0,
{
    lemma_counts(outcomes, k);
}

proof fn lemma_counts(s: Seq<FileOutcome>, k: int)
    requires
        0 <= k < s.len(),
        !s[k].ok,
        forall|i: int| 0 <= i < s.len() && i != k ==> s[i].ok,
    ensures
        ok_count(s) == s.len() - 1,
        failures_of(s) == seq![s[k]],
    decreases s.len(),
{
    reveal(Seq::filter);
    let p = |o: FileOutcome| !o.ok;
    if k == s.len() - 1 {
        lemma_all_ok(s.drop_last());
        lemma_filter_none(s.drop_last(), p);
        assert(failures_of(s) =~= seq![s[k]]);
    } else {
        lemma_counts(s.drop_last(), k);
        assert(failures_of(s) == failures_of(s.drop_last()));
    }
}

proof fn lemma_all_ok(s: Seq<FileOutcome>)
    requires
        forall|i: int| 0 <= i < s.len() ==> s[i].ok,
    ensures
        ok_count(s) == s.len(),
    decreases s.len(),
{
    if s.len() > 0 {
        lemma_all_ok(s.drop_last());
    }
}

proof fn lemma_filter_none(s: Seq<FileOutcome>, p: spec_fn(FileOutcome) -> bool)
    requires
        p == (|o: FileOutcome| !o.ok),
        forall|i: int| 0 <= i < s.len() ==> s[i].ok,
    ensures
        s.filter(p) =~= Seq::<FileOutcome>::empty(),
    decreases s.len(),
{
    reveal(Seq::filter);
    if s.len() > 0 {
        lemma_filter_none(s.drop_last(), p);
    }
}

} // verus!
