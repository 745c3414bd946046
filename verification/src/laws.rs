//! Laws of the catalog, proved of the models that the store's methods are
//! proved against.

use vstd::prelude::*;
use crate::catalog::{
    after_create, after_creates, after_delete, after_update, create_result, holds, ids_unique,
    lemma_create_keeps_ids_unique, lemma_delete_keeps_ids_unique, lemma_slot_is,
    lemma_update_keeps_ids_unique, lookup, slot_of, touch_result, StoreError,
};
use crate::product::{Product, ProductView, views};

verus! {

/// Uniqueness: whatever records are offered for creation, in whatever order,
/// and whichever of the attempts succeed, no two stored records share an
/// identifier afterwards.
pub proof fn law_creates_keep_ids_unique(records: Seq<ProductView>, batch: Seq<ProductView>)
    requires
        ids_unique(records),
    ensures
        ids_unique(after_creates(records, batch)),
    decreases batch.len(),
{
    if batch.len() > 0 {
        law_creates_keep_ids_unique(records, batch.drop_last());
        lemma_create_keeps_ids_unique(after_creates(records, batch.drop_last()), batch.last());
    }
}

/// Read after create: once a record has been created, looking up its
/// identifier answers that record.
pub proof fn law_read_after_create(records: Seq<ProductView>, record: ProductView)
    requires
        ids_unique(records),
        create_result(records, record) == Ok::<(), StoreError>(()),
    ensures
        lookup(after_create(records, record), record.id) == Some(record),
{
    let after = after_create(records, record);
    lemma_create_keeps_ids_unique(records, record);
    assert(after[records.len() as int] == record);
    lemma_slot_is(after, record.id, records.len() as int);
}

/// Read after update: once an identifier has been updated, looking it up
/// answers the record that was written, filed under that identifier.
pub proof fn law_read_after_update(records: Seq<ProductView>, id: u32, record: ProductView)
    requires
        ids_unique(records),
        touch_result(records, id) == Ok::<(), StoreError>(()),
    ensures
        lookup(after_update(records, id, record), id) == Some(record.filed_under(id)),
{
    let k = slot_of(records, id);
    let after = after_update(records, id, record);
    lemma_update_keeps_ids_unique(records, id, record);
    assert(after[k] == record.filed_under(id));
    lemma_slot_is(after, id, k);
}

/// A write to one identifier leaves what every other identifier answers untouched.
pub proof fn law_other_ids_untouched(
    records: Seq<ProductView>,
    id: u32,
    record: ProductView,
    other: u32,
)
    requires
        ids_unique(records),
        other != id,
    ensures
        record.id == id ==> lookup(after_create(records, record), other) == lookup(records, other),
        lookup(after_update(records, id, record), other) == lookup(records, other),
        lookup(after_delete(records, id), other) == lookup(records, other),
{
    lemma_update_keeps_ids_unique(records, id, record);
    lemma_delete_keeps_ids_unique(records, id);
    if record.id == id {
        lemma_create_keeps_ids_unique(records, record);
        let after = after_create(records, record);
        if holds(records, other) {
            let j = slot_of(records, other);
            assert(after[j] == records[j]);
            lemma_slot_is(after, other, j);
        } else if holds(after, other) {
            let j = slot_of(after, other);
            assert(j < records.len());
            assert(records[j].id == other);
        }
    }
    if holds(records, id) {
        let k = slot_of(records, id);
        let updated = after_update(records, id, record);
        let deleted = after_delete(records, id);
        if holds(records, other) {
            let j = slot_of(records, other);
            assert(updated[j] == records[j]);
            lemma_slot_is(updated, other, j);
            let dj = if j < k { j } else { j - 1 };
            assert(deleted[dj] == records[j]);
            lemma_slot_is(deleted, other, dj);
        } else {
            if holds(updated, other) {
                let j = slot_of(updated, other);
                assert(records[j].id == other);
            }
            if holds(deleted, other) {
                let j = slot_of(deleted, other);
                let sj = if j < k { j } else { j + 1 };
                assert(records[sj].id == other);
            }
        }
    }
}

/// Not found: for an identifier that no record carries, a lookup answers
/// nothing, an update and a delete answer "not found", and neither changes
/// the contents.
pub proof fn law_absent_id_is_not_found(records: Seq<ProductView>, id: u32, record: ProductView)
    requires
        !holds(records, id),
    ensures
        lookup(records, id) == None::<ProductView>,
        touch_result(records, id) == Err::<(), StoreError>(StoreError::NotFound),
        after_update(records, id, record) == records,
        after_delete(records, id) == records,
{
}

/// A lookup never answers a record filed under another identifier, and what
/// it answers is a record of the contents.
pub proof fn law_lookup_answers_stored_record(records: Seq<ProductView>, id: u32)
    ensures
        match lookup(records, id) {
            Some(p) => p.id == id && records.contains(p),
            None => forall|i: int| 0 <= i < records.len() ==> (#[trigger] records[i]).id != id,
        },
{
}

/// Count consistency: a count and a listing taken of the same contents agree.
pub proof fn law_count_matches_list(contents: Seq<ProductView>, listed: Seq<Product>, counted: nat)
    requires
        views(listed) == contents,
        counted == contents.len(),
    ensures
        counted == listed.len(),
{
}

/// Delete, then delete again: the first succeeds, the second answers "not
/// found" and changes nothing.
pub proof fn law_delete_twice(records: Seq<ProductView>, id: u32)
    requires
        ids_unique(records),
        holds(records, id),
    ensures
        touch_result(records, id) == Ok::<(), StoreError>(()),
        after_delete(records, id).len() == records.len() - 1,
        touch_result(after_delete(records, id), id) == Err::<(), StoreError>(StoreError::NotFound),
        after_delete(after_delete(records, id), id) == after_delete(records, id),
        lookup(after_delete(records, id), id) == None::<ProductView>,
{
    let k = slot_of(records, id);
    let after = after_delete(records, id);
    if holds(after, id) {
        let j = slot_of(after, id);
        let sj = if j < k { j } else { j + 1 };
        assert(after[j] == records[sj]);
        if sj < k {
            assert(records[sj].id != records[k].id);
        } else {
            assert(records[k].id != records[sj].id);
        }
    }
}

/// Writers with distinct identifiers: when the records of `batch` carry
/// pairwise distinct identifiers, none of them taken, then in whatever order
/// the writers get their turn every creation succeeds, nothing is lost and
/// nothing is doubled: the contents are the old ones followed by the batch.
pub proof fn law_distinct_creates_all_land(records: Seq<ProductView>, batch: Seq<ProductView>)
    requires
        ids_unique(records),
        ids_unique(batch),
        forall|k: int| 0 <= k < batch.len() ==> !holds(records, (#[trigger] batch[k]).id),
    ensures
        after_creates(records, batch) == records + batch,
        after_creates(records, batch).len() == records.len() + batch.len(),
        ids_unique(after_creates(records, batch)),
        forall|k: int|
            0 <= k < batch.len() ==> create_result(
                after_creates(records, #[trigger] batch.take(k)),
                batch[k],
            ) == Ok::<(), StoreError>(()),
        forall|k: int|
            0 <= k < batch.len() ==> lookup(after_creates(records, batch), (#[trigger] batch[k]).id)
                == Some(batch[k]),
{
    law_creates_keep_ids_unique(records, batch);
    lemma_distinct_creates_append(records, batch);
    assert forall|k: int| 0 <= k < batch.len() implies create_result(
        after_creates(records, #[trigger] batch.take(k)),
        batch[k],
    ) == Ok::<(), StoreError>(()) by {
        let head = batch.take(k);
        assert forall|i: int, j: int| 0 <= i < j < head.len() implies (#[trigger] head[i]).id != (
        #[trigger] head[j]).id by {
            assert(head[i] == batch[i] && head[j] == batch[j]);
        }
        assert forall|i: int| 0 <= i < head.len() implies !holds(
            records,
            (#[trigger] head[i]).id,
        ) by {
            assert(head[i] == batch[i]);
        }
        lemma_distinct_creates_append(records, head);
        lemma_fresh_in_prefix(records, batch, k);
    }
    assert forall|k: int| 0 <= k < batch.len() implies lookup(
        after_creates(records, batch),
        (#[trigger] batch[k]).id,
    ) == Some(batch[k]) by {
        let all = records + batch;
        assert(all[records.len() + k] == batch[k]);
        lemma_slot_is(all, batch[k].id, records.len() + k);
    }
}

/// Creating a batch of fresh, pairwise distinct identifiers appends the batch.
proof fn lemma_distinct_creates_append(records: Seq<ProductView>, batch: Seq<ProductView>)
    requires
        ids_unique(batch),
        forall|k: int| 0 <= k < batch.len() ==> !holds(records, (#[trigger] batch[k]).id),
    ensures
        after_creates(records, batch) == records + batch,
    decreases batch.len(),
{
    if batch.len() == 0 {
        assert(records + batch =~= records);
    } else {
        let head = batch.drop_last();
        assert forall|i: int, j: int| 0 <= i < j < head.len() implies (#[trigger] head[i]).id != (
        #[trigger] head[j]).id by {
            assert(head[i] == batch[i] && head[j] == batch[j]);
        }
        assert forall|i: int| 0 <= i < head.len() implies !holds(
            records,
            (#[trigger] head[i]).id,
        ) by {
            assert(head[i] == batch[i]);
        }
        lemma_distinct_creates_append(records, head);
        assert(head =~= batch.take(batch.len() - 1));
        lemma_fresh_in_prefix(records, batch, batch.len() - 1);
        assert((records + head).push(batch.last()) =~= records + batch);
    }
}

/// The identifier of `batch[k]` is carried neither by `records` nor by the
/// records of the batch before it.
proof fn lemma_fresh_in_prefix(records: Seq<ProductView>, batch: Seq<ProductView>, k: int)
    requires
        ids_unique(batch),
        0 <= k < batch.len(),
        !holds(records, batch[k].id),
    ensures
        !holds(records + batch.take(k), batch[k].id),
{
    let joined = records + batch.take(k);
    if holds(joined, batch[k].id) {
        let j = slot_of(joined, batch[k].id);
        if j < records.len() {
            assert(joined[j] == records[j]);
            assert(records[j].id == batch[k].id);
        } else {
            assert(joined[j] == batch[j - records.len()]);
            assert(batch[j - records.len()].id != batch[k].id);
        }
    }
}

} // verus!
