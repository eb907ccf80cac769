//! Partition of outcomes by kind, and the laws of that partition.

use vstd::prelude::*;
use crate::types::{
    DownloadInfoView, FailInfoView, PackedResult, PackedResultView, ProcessingResult,
    ProcessingResultView, SkipInfoView, StrmInfoView,
};

verus! {

pub open spec fn strm_payload() -> spec_fn(ProcessingResultView) -> Option<StrmInfoView> {
    |outcome: ProcessingResultView|
        match outcome {
            ProcessingResultView::Strm(info) => Some(info),
            _ => None,
        }
}

pub open spec fn download_payload() -> spec_fn(ProcessingResultView) -> Option<DownloadInfoView> {
    |outcome: ProcessingResultView|
        match outcome {
            ProcessingResultView::Download(info) => Some(info),
            _ => None,
        }
}

pub open spec fn skip_payload() -> spec_fn(ProcessingResultView) -> Option<SkipInfoView> {
    |outcome: ProcessingResultView|
        match outcome {
            ProcessingResultView::Skip(info) => Some(info),
            _ => None,
        }
}

pub open spec fn fail_payload() -> spec_fn(ProcessingResultView) -> Option<FailInfoView> {
    |outcome: ProcessingResultView|
        match outcome {
            ProcessingResultView::Fail(info) => Some(info),
            _ => None,
        }
}

/// The partition of a sequence of outcomes: each kind's payloads, in the
/// order in which the outcomes stand.
pub open spec fn pack(outcomes: Seq<ProcessingResultView>) -> PackedResultView {
    PackedResultView {
        strm_results: outcomes.filter_map(strm_payload()),
        download_results: outcomes.filter_map(download_payload()),
        skip_results: outcomes.filter_map(skip_payload()),
        fail_results: outcomes.filter_map(fail_payload()),
    }
}

impl PackedResultView {
    /// The aggregate with nothing in it.
    pub open spec fn empty() -> PackedResultView {
        PackedResultView {
            strm_results: Seq::empty(),
            download_results: Seq::empty(),
            skip_results: Seq::empty(),
            fail_results: Seq::empty(),
        }
    }

    /// The aggregate with one more outcome, at the end of its kind.
    pub open spec fn with(self, outcome: ProcessingResultView) -> PackedResultView {
        match outcome {
            ProcessingResultView::Strm(info) => PackedResultView {
                strm_results: self.strm_results.push(info),
                ..self
            },
            ProcessingResultView::Download(info) => PackedResultView {
                download_results: self.download_results.push(info),
                ..self
            },
            ProcessingResultView::Skip(info) => PackedResultView {
                skip_results: self.skip_results.push(info),
                ..self
            },
            ProcessingResultView::Fail(info) => PackedResultView {
                fail_results: self.fail_results.push(info),
                ..self
            },
        }
    }

    /// Two aggregates joined kind by kind, `self` first.
    pub open spec fn concat(self, other: PackedResultView) -> PackedResultView {
        PackedResultView {
            strm_results: self.strm_results + other.strm_results,
            download_results: self.download_results + other.download_results,
            skip_results: self.skip_results + other.skip_results,
            fail_results: self.fail_results + other.fail_results,
        }
    }

    /// The number of outcomes held, all kinds together.
    pub open spec fn total(self) -> nat {
        self.strm_results.len() + self.download_results.len() + self.skip_results.len()
            + self.fail_results.len()
    }

    /// Whether two aggregates hold the same outcomes of each kind, each as
    /// often, in whatever order.
    pub open spec fn same_content(self, other: PackedResultView) -> bool {
        &&& self.strm_results.to_multiset() == other.strm_results.to_multiset()
        &&& self.download_results.to_multiset() == other.download_results.to_multiset()
        &&& self.skip_results.to_multiset() == other.skip_results.to_multiset()
        &&& self.fail_results.to_multiset() == other.fail_results.to_multiset()
    }
}

impl PackedResult {
    /// An aggregate with nothing in it.
    pub fn new() -> (r: PackedResult)
        ensures
            r@ == PackedResultView::empty(),
    {
        let r = PackedResult {
            strm_results: Vec::new(),
            download_results: Vec::new(),
            skip_results: Vec::new(),
            fail_results: Vec::new(),
        };
        assert(r@.strm_results =~= Seq::empty());
        assert(r@.download_results =~= Seq::empty());
        assert(r@.skip_results =~= Seq::empty());
        assert(r@.fail_results =~= Seq::empty());
        r
    }

    /// Routes one outcome to the sequence of its kind.
    pub fn add(&mut self, outcome: ProcessingResult)
        ensures
            final(self)@ == old(self)@.with(outcome@),
    {
        match outcome {
            ProcessingResult::Strm(info) => {
                self.strm_results.push(info);
                assert(self@.strm_results =~= old(self)@.strm_results.push(info@));
            },
            ProcessingResult::Download(info) => {
                self.download_results.push(info);
                assert(self@.download_results =~= old(self)@.download_results.push(info@));
            },
            ProcessingResult::Skip(info) => {
                self.skip_results.push(info);
                assert(self@.skip_results =~= old(self)@.skip_results.push(info@));
            },
            ProcessingResult::Fail(info) => {
                self.fail_results.push(info);
                assert(self@.fail_results =~= old(self)@.fail_results.push(info@));
            },
        }
    }

    /// Joins another aggregate to this one, kind by kind. Nothing is
    /// dropped, nothing reordered.
    pub fn merge(&mut self, other: PackedResult)
        ensures
            final(self)@ == old(self)@.concat(other@),
    {
        let mut other = other;
        let ghost joined = old(self)@.concat(other@);
        self.strm_results.append(&mut other.strm_results);
        self.download_results.append(&mut other.download_results);
        self.skip_results.append(&mut other.skip_results);
        self.fail_results.append(&mut other.fail_results);
        assert(self@.strm_results =~= joined.strm_results);
        assert(self@.download_results =~= joined.download_results);
        assert(self@.skip_results =~= joined.skip_results);
        assert(self@.fail_results =~= joined.fail_results);
    }

    /// Partitions a sequence of outcomes by kind, keeping their order.
    pub fn from_results(results: Vec<ProcessingResult>) -> (r: PackedResult)
        ensures
            r@ == pack(outcome_views(results@)),
            r@.total() == results@.len(),
    {
        let ghost outcomes = outcome_views(results@);
        let mut packed = PackedResult::new();
        proof {
            lemma_pack_empty();
        }
        for outcome in it: results
            invariant
                it.seq() == results@,
                outcomes == outcome_views(results@),
                packed@ == pack(outcomes.take(it.index() as int)),
        {
            proof {
                let i = it.index() as int;
                assert(outcomes.take(i + 1) =~= outcomes.take(i).push(outcome@));
                lemma_pack_push(outcomes.take(i), outcome@);
            }
            packed.add(outcome);
        }
        proof {
            assert(outcomes.take(outcomes.len() as int) =~= outcomes);
            lemma_pack_total(outcomes);
        }
        packed
    }
}

/// The views of a sequence of outcomes, in order.
pub open spec fn outcome_views(results: Seq<ProcessingResult>) -> Seq<ProcessingResultView> {
    results.map_values(|outcome: ProcessingResult| outcome@)
}

/// Nothing packs to the empty aggregate.
pub proof fn lemma_pack_empty()
    ensures
        pack(Seq::empty()) == PackedResultView::empty(),
{
}

/// Packing one more outcome is adding it to the aggregate of the others.
pub proof fn lemma_pack_push(outcomes: Seq<ProcessingResultView>, outcome: ProcessingResultView)
    ensures
        pack(outcomes.push(outcome)) == pack(outcomes).with(outcome),
{
    let longer = outcomes.push(outcome);
    assert(longer.drop_last() =~= outcomes);
    assert(longer.last() == outcome);
    assert(pack(longer).strm_results =~= pack(outcomes).with(outcome).strm_results);
    assert(pack(longer).download_results =~= pack(outcomes).with(outcome).download_results);
    assert(pack(longer).skip_results =~= pack(outcomes).with(outcome).skip_results);
    assert(pack(longer).fail_results =~= pack(outcomes).with(outcome).fail_results);
}

/// Every outcome lands in exactly one of the four sequences: the aggregate
/// of a batch holds as many outcomes as the batch.
pub proof fn lemma_pack_total(outcomes: Seq<ProcessingResultView>)
    ensures
        pack(outcomes).total() == outcomes.len(),
    decreases outcomes.len(),
{
    if outcomes.len() > 0 {
        lemma_pack_total(outcomes.drop_last());
        assert(outcomes.drop_last().push(outcomes.last()) =~= outcomes);
        lemma_pack_push(outcomes.drop_last(), outcomes.last());
    }
}

/// Packing a batch in two chunks and joining the aggregates gives the
/// aggregate of the whole batch.
pub proof fn lemma_pack_concat(first: Seq<ProcessingResultView>, second: Seq<ProcessingResultView>)
    ensures
        pack(first + second) == pack(first).concat(pack(second)),
    decreases second.len(),
{
    if second.len() == 0 {
        assert(first + second =~= first);
        assert(pack(first).concat(pack(second)).strm_results =~= pack(first).strm_results);
        assert(pack(first).concat(pack(second)).download_results =~= pack(first).download_results);
        assert(pack(first).concat(pack(second)).skip_results =~= pack(first).skip_results);
        assert(pack(first).concat(pack(second)).fail_results =~= pack(first).fail_results);
    } else {
        let shorter = second.drop_last();
        let outcome = second.last();
        lemma_pack_concat(first, shorter);
        assert(shorter.push(outcome) =~= second);
        assert((first + shorter).push(outcome) =~= first + second);
        lemma_pack_push(first + shorter, outcome);
        lemma_pack_push(shorter, outcome);
        let joined = pack(first).concat(pack(second));
        let whole = pack(first + second);
        assert(whole.strm_results =~= joined.strm_results);
        assert(whole.download_results =~= joined.download_results);
        assert(whole.skip_results =~= joined.skip_results);
        assert(whole.fail_results =~= joined.fail_results);
    }
}

/// Joining is associative.
pub proof fn lemma_concat_associative(a: PackedResultView, b: PackedResultView, c: PackedResultView)
    ensures
        a.concat(b).concat(c) == a.concat(b.concat(c)),
{
    assert(a.concat(b).concat(c).strm_results =~= a.concat(b.concat(c)).strm_results);
    assert(a.concat(b).concat(c).download_results =~= a.concat(b.concat(c)).download_results);
    assert(a.concat(b).concat(c).skip_results =~= a.concat(b.concat(c)).skip_results);
    assert(a.concat(b).concat(c).fail_results =~= a.concat(b.concat(c)).fail_results);
}

/// Joining is commutative as far as content goes: either order holds the
/// same outcomes of each kind, each as often.
pub proof fn lemma_concat_commutes_in_content(a: PackedResultView, b: PackedResultView)
    ensures
        a.concat(b).same_content(b.concat(a)),
        a.concat(b).total() == a.total() + b.total(),
{
    vstd::seq_lib::lemma_multiset_commutative(a.strm_results, b.strm_results);
    vstd::seq_lib::lemma_multiset_commutative(b.strm_results, a.strm_results);
    vstd::seq_lib::lemma_multiset_commutative(a.download_results, b.download_results);
    vstd::seq_lib::lemma_multiset_commutative(b.download_results, a.download_results);
    vstd::seq_lib::lemma_multiset_commutative(a.skip_results, b.skip_results);
    vstd::seq_lib::lemma_multiset_commutative(b.skip_results, a.skip_results);
    vstd::seq_lib::lemma_multiset_commutative(a.fail_results, b.fail_results);
    vstd::seq_lib::lemma_multiset_commutative(b.fail_results, a.fail_results);
    assert(a.strm_results.to_multiset().add(b.strm_results.to_multiset())
        =~= b.strm_results.to_multiset().add(a.strm_results.to_multiset()));
    assert(a.download_results.to_multiset().add(b.download_results.to_multiset())
        =~= b.download_results.to_multiset().add(a.download_results.to_multiset()));
    assert(a.skip_results.to_multiset().add(b.skip_results.to_multiset())
        =~= b.skip_results.to_multiset().add(a.skip_results.to_multiset()));
    assert(a.fail_results.to_multiset().add(b.fail_results.to_multiset())
        =~= b.fail_results.to_multiset().add(a.fail_results.to_multiset()));
}

} // verus!
