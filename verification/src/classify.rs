use vstd::prelude::*;

use crate::popped::PoppedSet;
use crate::record::{views, Record, RecordView};
use crate::thresholds::Thresholds;

verus! {

/// What the first pass decides of one record, from that record alone.
#[derive(Clone, Copy, Debug, PartialEq, Eq)]
pub enum Verdict {
    /// The record is within every bound.
    Kept,
    /// The record is within the size bounds but nested too deeply.
    TooDeep,
    /// The record breaks a size bound: it is popped, whatever its depth.
    Popped,
}

/// The verdict on a record under the given thresholds. A broken size bound
/// pops the record; a depth beyond the level bound alone does not.
pub open spec fn verdict(record: RecordView, thresholds: Thresholds) -> Verdict {
    if !thresholds.admits_size(record.max_allele_length as int, record.ref_length as int) {
        Verdict::Popped
    } else if !thresholds.admits_level(record.level) {
        Verdict::TooDeep
    } else {
        Verdict::Kept
    }
}

/// What the first pass leaves behind for the second.
pub struct Classification {
    /// One flag per record, in stream order: whether the record was kept.
    pub keep: Vec<bool>,
    /// The identifiers of the popped records.
    pub popped: PoppedSet,
}

/// The mathematical content of a [`Classification`].
pub struct ClassificationView {
    pub keep: Seq<bool>,
    pub popped: Set<Seq<char>>,
}

impl View for Classification {
    type V = ClassificationView;

    open spec fn view(&self) -> ClassificationView {
        ClassificationView { keep: self.keep@, popped: self.popped@ }
    }
}

impl ClassificationView {
    /// The classification of the empty stream.
    pub open spec fn empty() -> ClassificationView {
        ClassificationView { keep: Seq::empty(), popped: Set::empty() }
    }

    /// The classification once a further record with this verdict was seen:
    /// its flag comes last, and its identifier is in the set if it was popped.
    pub open spec fn observe(self, record: RecordView, verdict: Verdict) -> ClassificationView {
        ClassificationView {
            keep: self.keep.push(verdict is Kept),
            popped: if verdict is Popped {
                self.popped.insert(record.id)
            } else {
                self.popped
            },
        }
    }
}

/// The keep flags of a stream: the flag at an index tells whether the record
/// at that index was kept.
pub open spec fn keep_flags(records: Seq<RecordView>, thresholds: Thresholds) -> Seq<bool> {
    Seq::new(records.len(), |i: int| verdict(records[i], thresholds) is Kept)
}

/// The popped set of a stream: the identifiers of its popped records.
pub open spec fn popped_ids(records: Seq<RecordView>, thresholds: Thresholds) -> Set<Seq<char>> {
    Set::new(
        |id: Seq<char>|
            exists|i: int|
                0 <= i < records.len() && (#[trigger] records[i]).id == id && verdict(
                    records[i],
                    thresholds,
                ) is Popped,
    )
}

/// The classification of a whole stream.
pub open spec fn classified(records: Seq<RecordView>, thresholds: Thresholds) -> ClassificationView {
    ClassificationView {
        keep: keep_flags(records, thresholds),
        popped: popped_ids(records, thresholds),
    }
}

/// Classifying one record more is observing that record after classifying
/// the records before it.
pub proof fn lemma_classified_step(records: Seq<RecordView>, thresholds: Thresholds, n: int)
    requires
        0 <= n < records.len(),
    ensures
        classified(records.take(n + 1), thresholds) == classified(
            records.take(n),
            thresholds,
        ).observe(records[n], verdict(records[n], thresholds)),
{
    let before = records.take(n);
    let after = records.take(n + 1);
    let v = verdict(records[n], thresholds);
    let stepped = classified(before, thresholds).observe(records[n], v);
    assert(keep_flags(after, thresholds) =~= stepped.keep);
    assert forall|id: Seq<char>|
        popped_ids(after, thresholds).contains(id) == stepped.popped.contains(id) by {
        if popped_ids(after, thresholds).contains(id) {
            let i = choose|i: int|
                0 <= i < after.len() && (#[trigger] after[i]).id == id && verdict(
                    after[i],
                    thresholds,
                ) is Popped;
            if i < n {
                assert(before[i] == after[i]);
            }
        }
        if stepped.popped.contains(id) {
            if popped_ids(before, thresholds).contains(id) {
                let i = choose|i: int|
                    0 <= i < before.len() && (#[trigger] before[i]).id == id && verdict(
                        before[i],
                        thresholds,
                    ) is Popped;
                assert(after[i] == before[i]);
            } else {
                assert(after[n] == records[n]);
            }
        }
    }
    assert(popped_ids(after, thresholds) =~= stepped.popped);
}

impl Classification {
    /// The classification before any record was seen.
    pub fn new() -> (c: Classification)
        ensures
            c@ == ClassificationView::empty(),
    {
        Classification { keep: Vec::new(), popped: PoppedSet::new() }
    }

    /// Classifies the next record of the stream and returns its verdict.
    pub fn observe(&mut self, record: &Record, thresholds: &Thresholds) -> (v: Verdict)
        ensures
            v == verdict(record@, *thresholds),
            final(self)@ == old(self)@.observe(record@, v),
    {
        let mut v = Verdict::Kept;
        if !thresholds.level_ok(record.level) {
            v = Verdict::TooDeep;
        }
        if !thresholds.size_ok(record.max_allele_length, record.ref_length) {
            self.popped.insert(record.id.clone());
            v = Verdict::Popped;
        }
        self.keep.push(matches!(v, Verdict::Kept));
        v
    }
}

/// The first pass: classifies every record of the stream, in order.
pub fn classify(records: &Vec<Record>, thresholds: &Thresholds) -> (c: Classification)
    ensures
        c@ == classified(views(records@), *thresholds),
        c@.keep.len() == records@.len(),
{
    let mut c = Classification::new();
    let mut i: usize = 0;
    assert(classified(views(records@).take(0), *thresholds) =~= ClassificationView::empty()) by {
        assert(keep_flags(views(records@).take(0), *thresholds) =~= Seq::<bool>::empty());
        assert(popped_ids(views(records@).take(0), *thresholds) =~= Set::<Seq<char>>::empty());
    }
    while i < records.len()
        invariant
            i <= records@.len(),
            c@ == classified(views(records@).take(i as int), *thresholds),
        decreases records@.len() - i,
    {
        proof {
            lemma_classified_step(views(records@), *thresholds, i as int);
        }
        c.observe(&records[i], thresholds);
        i += 1;
    }
    assert(views(records@).take(i as int) =~= views(records@));
    c
}

} // verus!
