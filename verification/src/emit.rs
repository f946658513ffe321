use vstd::prelude::*;

use crate::classify::{classified, classify, Classification, ClassificationView};
use crate::record::{views, Record, RecordView};
use crate::thresholds::Thresholds;

verus! {

/// Whether the second pass writes the record at `index`. A record that was
/// kept is written. One that was not is written all the same if its immediate
/// parent was popped and it was not popped itself: it is promoted.
pub open spec fn survives(c: ClassificationView, record: RecordView, index: int) -> bool {
    c.keep[index] || (c.popped.contains(record.parent_id) && !c.popped.contains(record.id))
}

/// The indices, among the first `n`, of the records that are written, in
/// ascending order.
pub open spec fn survivors(records: Seq<RecordView>, c: ClassificationView, n: nat) -> Seq<int>
    decreases n,
{
    if n == 0 {
        Seq::empty()
    } else {
        let before = survivors(records, c, (n - 1) as nat);
        if survives(c, records[n - 1], n - 1) {
            before.push(n - 1)
        } else {
            before
        }
    }
}

/// The records at the given indices, in the order of the indices.
pub open spec fn selected<T>(records: Seq<T>, indices: Seq<int>) -> Seq<T> {
    indices.map_values(|i: int| records[i])
}

/// What the second pass writes of a stream, given the outcome of a first pass.
pub open spec fn written(records: Seq<Record>, c: ClassificationView) -> Seq<Record> {
    selected(records, survivors(views(records), c, records.len()))
}

/// What a whole run writes of a stream: the second pass on the outcome of
/// the first.
pub open spec fn filtered(records: Seq<Record>, thresholds: Thresholds) -> Seq<Record> {
    written(records, classified(views(records), thresholds))
}

/// The records behind a sequence of references.
pub open spec fn referents(references: Seq<&Record>) -> Seq<Record> {
    references.map_values(|r: &Record| *r)
}

impl Classification {
    /// Decides whether the record at position `index` of the stream is written.
    pub fn emits(&self, index: usize, record: &Record) -> (out: bool)
        requires
            index < self@.keep.len(),
        ensures
            out == survives(self@, record@, index as int),
    {
        self.keep[index] || (self.popped.contains(record.parent_id.as_str())
            && !self.popped.contains(record.id.as_str()))
    }
}

/// The second pass: the records of the stream that are written, in stream
/// order, given the classification that the first pass made of that stream.
pub fn emit<'a>(records: &'a Vec<Record>, c: &Classification) -> (out: Vec<&'a Record>)
    requires
        c@.keep.len() == records@.len(),
    ensures
        referents(out@) == written(records@, c@),
        out@.len() <= records@.len(),
{
    let mut out: Vec<&'a Record> = Vec::new();
    let mut i: usize = 0;
    while i < records.len()
        invariant
            i <= records@.len(),
            c@.keep.len() == records@.len(),
            out@.len() <= i,
            referents(out@) == selected(records@, survivors(views(records@), c@, i as nat)),
        decreases records@.len() - i,
    {
        let record = &records[i];
        let ghost before = survivors(views(records@), c@, i as nat);
        let ghost taken = out@;
        assert(views(records@)[i as int] == record@);
        if c.emits(i, record) {
            out.push(record);
            assert(referents(out@) =~= referents(taken).push(*record));
            assert(selected(records@, before.push(i as int)) =~= selected(records@, before).push(
                records@[i as int],
            ));
        }
        i += 1;
    }
    out
}

/// A whole run: classifies the stream, then writes what survives.
pub fn filter<'a>(records: &'a Vec<Record>, thresholds: &Thresholds) -> (out: Vec<&'a Record>)
    ensures
        referents(out@) == filtered(records@, *thresholds),
        out@.len() <= records@.len(),
{
    let c = classify(records, thresholds);
    emit(records, &c)
}

} // verus!
