//! Run records.

use crate::target::RunTarget;
use vstd::prelude::*;
use vstd::seq_lib::to_multiset_build;

verus! {

/// One recorded run. The store creates it, with the identifier and the
/// creation time that it generated; it is read-only afterwards.
#[derive(Clone, Copy, Debug, PartialEq, Eq)]
pub struct Run {
    /// The identifier that the store gave the record.
    pub id: i32,
    /// The category of the run.
    pub category: RunTarget,
    /// When the store created the record, in microseconds since the Unix
    /// epoch, UTC.
    pub created_at: i64,
}

/// Whether the identifiers never descend along `runs`.
pub open spec fn ascending(runs: Seq<Run>) -> bool {
    forall|i: int, j: int| 0 <= i < j < runs.len() ==> runs[i].id <= runs[j].id
}

/// `runs` with `run` put in behind the last record whose identifier is not
/// greater than its own.
pub open spec fn insert_by_id(runs: Seq<Run>, run: Run) -> Seq<Run>
    decreases runs.len(),
{
    if runs.len() == 0 {
        seq![run]
    } else if runs.last().id <= run.id {
        runs.push(run)
    } else {
        insert_by_id(runs.drop_last(), run).push(runs.last())
    }
}

/// The records of `runs` by ascending identifier. Records with the same
/// identifier keep the order they came in.
pub open spec fn sorted_by_id(runs: Seq<Run>) -> Seq<Run>
    decreases runs.len(),
{
    if runs.len() == 0 {
        Seq::empty()
    } else {
        insert_by_id(sorted_by_id(runs.drop_last()), runs.last())
    }
}

/// Putting a record in is a plain insertion at the place where the greater
/// identifiers begin.
proof fn lemma_insert_at(runs: Seq<Run>, run: Run, at: int)
    requires
        0 <= at <= runs.len(),
        at > 0 ==> runs[at - 1].id <= run.id,
        forall|j: int| at <= j < runs.len() ==> runs[j].id > run.id,
    ensures
        insert_by_id(runs, run) == runs.insert(at, run),
    decreases runs.len(),
{
    if runs.len() == 0 {
        assert(seq![run] =~= runs.insert(at, run));
    } else if runs.last().id <= run.id {
        assert(at == runs.len());
        assert(runs.push(run) =~= runs.insert(at, run));
    } else {
        assert(at < runs.len());
        lemma_insert_at(runs.drop_last(), run, at);
        assert(runs.drop_last().insert(at, run).push(runs.last()) =~= runs.insert(at, run));
    }
}

/// Putting a record into ascending records leaves them ascending, and adds
/// that record and nothing else.
pub proof fn lemma_insert_by_id(runs: Seq<Run>, run: Run)
    ensures
        insert_by_id(runs, run).len() == runs.len() + 1,
        insert_by_id(runs, run).to_multiset() == runs.to_multiset().insert(run),
        ascending(runs) ==> ascending(insert_by_id(runs, run)),
    decreases runs.len(),
{
    let put = insert_by_id(runs, run);
    if runs.len() == 0 {
        to_multiset_build(runs, run);
        assert(seq![run] =~= runs.push(run));
    } else if runs.last().id <= run.id {
        to_multiset_build(runs, run);
    } else {
        let front = runs.drop_last();
        let inner = insert_by_id(front, run);
        lemma_insert_by_id(front, run);
        to_multiset_build(inner, runs.last());
        to_multiset_build(front, runs.last());
        assert(runs =~= front.push(runs.last()));
        assert(put.to_multiset() =~= runs.to_multiset().insert(run));
        if ascending(runs) {
            assert(ascending(front));
            assert forall|i: int, j: int| 0 <= i < j < put.len() implies put[i].id
                <= put[j].id by {
                if j < inner.len() {
                    assert(put[i] == inner[i] && put[j] == inner[j]);
                } else {
                    lemma_member_of_insert(front, run, i);
                    if put[i] != run {
                        let k = choose|k: int| 0 <= k < front.len() && front[k] == put[i];
                        assert(runs[k].id <= runs[runs.len() - 1].id);
                    }
                }
            }
        }
    }
}

/// Each record of the result of putting `run` in is `run` or was there
/// before.
proof fn lemma_member_of_insert(runs: Seq<Run>, run: Run, i: int)
    requires
        0 <= i < insert_by_id(runs, run).len(),
    ensures
        insert_by_id(runs, run)[i] == run || exists|k: int|
            0 <= k < runs.len() && runs[k] == insert_by_id(runs, run)[i],
    decreases runs.len(),
{
    if runs.len() == 0 {
    } else if runs.last().id <= run.id {
        if i < runs.len() {
            assert(runs[i] == insert_by_id(runs, run)[i]);
        }
    } else {
        let front = runs.drop_last();
        lemma_insert_by_id(front, run);
        if i < insert_by_id(front, run).len() {
            lemma_member_of_insert(front, run, i);
            if insert_by_id(front, run)[i] != run {
                let k = choose|k: int|
                    0 <= k < front.len() && front[k] == insert_by_id(front, run)[i];
                assert(runs[k] == insert_by_id(runs, run)[i]);
            }
        } else {
            assert(runs[runs.len() - 1] == insert_by_id(runs, run)[i]);
        }
    }
}

/// Sorting orders the records by ascending identifier and neither drops
/// nor adds one.
pub proof fn lemma_sorted_by_id(runs: Seq<Run>)
    ensures
        ascending(sorted_by_id(runs)),
        sorted_by_id(runs).len() == runs.len(),
        sorted_by_id(runs).to_multiset() == runs.to_multiset(),
    decreases runs.len(),
{
    if runs.len() == 0 {
        assert(runs =~= Seq::empty());
    } else {
        let front = runs.drop_last();
        lemma_sorted_by_id(front);
        lemma_insert_by_id(sorted_by_id(front), runs.last());
        to_multiset_build(front, runs.last());
        assert(runs =~= front.push(runs.last()));
    }
}

/// Orders records by ascending identifier; records with the same identifier
/// keep their order. The result holds the records given, each as often as
/// it was given.
pub fn sort_by_id(runs: &Vec<Run>) -> (sorted: Vec<Run>)
    ensures
        sorted@ == sorted_by_id(runs@),
        ascending(sorted@),
        sorted@.len() == runs@.len(),
        sorted@.to_multiset() == runs@.to_multiset(),
{
    let mut sorted: Vec<Run> = Vec::new();
    let mut i: usize = 0;
    while i < runs.len()
        invariant
            i <= runs.len(),
            sorted@ == sorted_by_id(runs@.take(i as int)),
            sorted@.len() == i,
        decreases runs.len() - i,
    {
        let run = runs[i];
        let mut at: usize = sorted.len();
        while at > 0 && sorted[at - 1].id > run.id
            invariant
                at <= sorted.len(),
                forall|j: int| at <= j < sorted.len() ==> sorted@[j].id > run.id,
            decreases at,
        {
            at -= 1;
        }
        proof {
            lemma_insert_at(sorted@, run, at as int);
            lemma_insert_by_id(sorted@, run);
            assert(runs@.take(i + 1).drop_last() =~= runs@.take(i as int));
        }
        sorted.insert(at, run);
        i += 1;
    }
    proof {
        assert(runs@.take(i as int) =~= runs@);
        lemma_sorted_by_id(runs@);
    }
    sorted
}

} // verus!
