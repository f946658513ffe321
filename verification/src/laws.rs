use vstd::prelude::*;

use crate::classify::{classified, keep_flags, popped_ids, verdict, ClassificationView, Verdict};
use crate::emit::{filtered, selected, survives, survivors, written};
use crate::record::{is_max_allele_length, views, Record, RecordView};
use crate::thresholds::Thresholds;

verus! {

/// The alleles of a record have at most one greatest length.
pub proof fn lemma_max_allele_length_is_unique(alleles: Seq<&[u8]>, first: int, second: int)
    requires
        is_max_allele_length(alleles, first),
        is_max_allele_length(alleles, second),
    ensures
        first == second,
{
}

/// The indices of the written records are indices of the stream and strictly
/// ascend: no record is written twice, and none overtakes another.
pub proof fn lemma_survivors_ascend(records: Seq<RecordView>, c: ClassificationView, n: nat)
    ensures
        survivors(records, c, n).len() <= n,
        forall|j: int|
            0 <= j < survivors(records, c, n).len() ==> 0 <= #[trigger] survivors(records, c, n)[j]
                < n,
        forall|j: int, k: int|
            0 <= j < k < survivors(records, c, n).len() ==> survivors(records, c, n)[j]
                < survivors(records, c, n)[k],
    decreases n,
{
    if n > 0 {
        lemma_survivors_ascend(records, c, (n - 1) as nat);
    }
}

/// An index is among those of the written records exactly if it is an index
/// of the stream and the record there survives.
pub proof fn lemma_survivors_exact(
    records: Seq<RecordView>,
    c: ClassificationView,
    n: nat,
    i: int,
)
    ensures
        survivors(records, c, n).contains(i) <==> 0 <= i < n && survives(c, records[i], i),
    decreases n,
{
    if n > 0 {
        let before = survivors(records, c, (n - 1) as nat);
        lemma_survivors_exact(records, c, (n - 1) as nat, i);
        if survives(c, records[n - 1], n - 1) {
            let after = before.push(n - 1);
            assert(after.last() == n - 1);
            if before.contains(i) {
                let j = choose|j: int| 0 <= j < before.len() && before[j] == i;
                assert(after[j] == i);
            }
            if after.contains(i) && i != n - 1 {
                let j = choose|j: int| 0 <= j < after.len() && after[j] == i;
                assert(before[j] == i);
            }
        }
    }
}

/// The second pass writes a subsequence of the stream: no more records than
/// it was given, each of them a record of the stream, in stream order.
pub proof fn lemma_written_is_subsequence(records: Seq<Record>, c: ClassificationView)
    ensures
        written(records, c).len() <= records.len(),
        written(records, c).len() == survivors(views(records), c, records.len()).len(),
        forall|j: int|
            0 <= j < written(records, c).len() ==> 0 <= #[trigger] survivors(
                views(records),
                c,
                records.len(),
            )[j] < records.len(),
        forall|j: int|
            0 <= j < written(records, c).len() ==> #[trigger] written(records, c)[j]
                == records[survivors(views(records), c, records.len())[j]],
        forall|j: int, k: int|
            0 <= j < k < written(records, c).len() ==> survivors(
                views(records),
                c,
                records.len(),
            )[j] < survivors(views(records), c, records.len())[k],
{
    lemma_survivors_ascend(views(records), c, records.len());
}

/// The record at an index of the stream is written exactly if it was kept,
/// or its parent was popped and it was not.
pub proof fn lemma_written_iff_survives(records: Seq<Record>, c: ClassificationView, i: int)
    requires
        0 <= i < records.len(),
    ensures
        survivors(views(records), c, records.len()).contains(i) <==> c.keep[i] || (
        c.popped.contains(records[i]@.parent_id) && !c.popped.contains(records[i]@.id)),
{
    lemma_survivors_exact(views(records), c, records.len(), i);
}

/// In a whole run a kept record is written, a popped record is not, and a
/// record that is only too deep is written exactly if its parent is in the
/// popped set and its own identifier is not.
pub proof fn lemma_run_writes_by_verdict(records: Seq<Record>, thresholds: Thresholds, i: int)
    requires
        0 <= i < records.len(),
    ensures
        survivors(
            views(records),
            classified(views(records), thresholds),
            records.len(),
        ).contains(i) <==> (match verdict(records[i]@, thresholds) {
            Verdict::Kept => true,
            Verdict::TooDeep => popped_ids(views(records), thresholds).contains(
                records[i]@.parent_id,
            ) && !popped_ids(views(records), thresholds).contains(records[i]@.id),
            Verdict::Popped => false,
        }),
{
    let c = classified(views(records), thresholds);
    lemma_survivors_exact(views(records), c, records.len(), i);
    assert(views(records)[i] == records[i]@);
    if verdict(records[i]@, thresholds) is Popped {
        assert(c.popped.contains(views(records)[i].id));
    }
}

/// An identifier is in the popped set exactly if a record with that
/// identifier breaks a size bound.
pub proof fn lemma_popped_iff_size_broken(
    records: Seq<RecordView>,
    thresholds: Thresholds,
    id: Seq<char>,
)
    ensures
        popped_ids(records, thresholds).contains(id) <==> exists|i: int|
            0 <= i < records.len() && (#[trigger] records[i]).id == id && !thresholds.admits_size(
                records[i].max_allele_length as int,
                records[i].ref_length as int,
            ),
{
    if popped_ids(records, thresholds).contains(id) {
        let i = choose|i: int|
            0 <= i < records.len() && (#[trigger] records[i]).id == id && verdict(
                records[i],
                thresholds,
            ) is Popped;
        assert(!thresholds.admits_size(
            records[i].max_allele_length as int,
            records[i].ref_length as int,
        ));
    }
    if exists|i: int|
        0 <= i < records.len() && (#[trigger] records[i]).id == id && !thresholds.admits_size(
            records[i].max_allele_length as int,
            records[i].ref_length as int,
        ) {
        let i = choose|i: int|
            0 <= i < records.len() && (#[trigger] records[i]).id == id && !thresholds.admits_size(
                records[i].max_allele_length as int,
                records[i].ref_length as int,
            );
        assert(verdict(records[i], thresholds) is Popped);
    }
}

/// Depth alone never pops: an identifier whose records are all within the
/// size bounds is not in the popped set, however deep those records are.
pub proof fn lemma_depth_alone_never_pops(
    records: Seq<RecordView>,
    thresholds: Thresholds,
    id: Seq<char>,
)
    requires
        forall|i: int|
            0 <= i < records.len() && (#[trigger] records[i]).id == id ==> thresholds.admits_size(
                records[i].max_allele_length as int,
                records[i].ref_length as int,
            ),
    ensures
        !popped_ids(records, thresholds).contains(id),
{
    lemma_popped_iff_size_broken(records, thresholds, id);
}

/// Where every record is kept, the second pass writes the whole stream.
pub proof fn lemma_all_kept_writes_all(records: Seq<Record>, c: ClassificationView)
    requires
        forall|i: int| 0 <= i < records.len() ==> c.keep[i],
    ensures
        written(records, c) == records,
{
    lemma_all_kept_survive(views(records), c, records.len());
    assert(written(records, c) =~= records);
}

/// Where the first `n` records are kept, all their indices are written.
proof fn lemma_all_kept_survive(records: Seq<RecordView>, c: ClassificationView, n: nat)
    requires
        forall|i: int| 0 <= i < n ==> c.keep[i],
    ensures
        survivors(records, c, n) == Seq::new(n, |i: int| i),
    decreases n,
{
    if n > 0 {
        lemma_all_kept_survive(records, c, (n - 1) as nat);
    }
    assert(survivors(records, c, n) =~= Seq::new(n, |i: int| i));
}

/// Without any bound a run is the identity: every record of the stream is
/// written, in stream order, and nothing is popped.
pub proof fn lemma_unbounded_run_is_identity(records: Seq<Record>, thresholds: Thresholds)
    requires
        thresholds.is_unbounded(),
    ensures
        filtered(records, thresholds) == records,
        popped_ids(views(records), thresholds) == Set::<Seq<char>>::empty(),
        forall|i: int|
            0 <= i < records.len() ==> #[trigger] keep_flags(views(records), thresholds)[i],
{
    let c = classified(views(records), thresholds);
    assert forall|i: int| 0 <= i < records.len() implies c.keep[i] by {
        assert(verdict(views(records)[i], thresholds) is Kept);
    }
    lemma_all_kept_writes_all(records, c);
    assert(popped_ids(views(records), thresholds) =~= Set::<Seq<char>>::empty());
}

/// The views of the records chosen by indices of the stream are the views
/// of the stream chosen by the same indices.
proof fn lemma_views_of_selected(records: Seq<Record>, indices: Seq<int>)
    requires
        forall|j: int| 0 <= j < indices.len() ==> 0 <= #[trigger] indices[j] < records.len(),
    ensures
        views(selected(records, indices)) == selected(views(records), indices),
{
    assert(views(selected(records, indices)) =~= selected(views(records), indices));
}

/// A run is a function of what the records hold: two streams that hold the
/// same values give outputs that hold the same values, under the same
/// thresholds.
pub proof fn lemma_run_is_deterministic(
    first: Seq<Record>,
    second: Seq<Record>,
    thresholds: Thresholds,
)
    requires
        views(first) == views(second),
    ensures
        views(filtered(first, thresholds)) == views(filtered(second, thresholds)),
{
    assert(first.len() == views(first).len());
    assert(second.len() == views(second).len());
    let c = classified(views(first), thresholds);
    let indices = survivors(views(first), c, first.len());
    lemma_survivors_ascend(views(first), c, first.len());
    lemma_views_of_selected(first, indices);
    lemma_views_of_selected(second, indices);
}

} // verus!
