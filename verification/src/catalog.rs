//! The catalog store: an ordered collection of product records in which no
//! identifier occurs twice.
//!
//! The store is described by its view, the sequence of the values of its
//! records in stored order. Each operation has a model over that sequence:
//! what it answers ([`lookup`], [`create_result`], ...) and what it leaves
//! behind ([`after_create`], ...). The executable methods are proved against
//! the models. What holds of the models themselves is proved in [`crate::laws`].

use vstd::prelude::*;
use crate::product::{Product, ProductView, views, clone_records};

verus! {

/// Why a store operation was refused.
#[derive(Clone, Copy, Debug, PartialEq, Eq, Structural)]
pub enum StoreError {
    /// No record carries the identifier.
    NotFound,
    /// A record already carries the identifier.
    Conflict,
}

/// No two positions of `records` hold the same identifier.
pub open spec fn ids_unique(records: Seq<ProductView>) -> bool {
    forall|i: int, j: int|
        0 <= i < j < records.len() ==> (#[trigger] records[i]).id != (#[trigger] records[j]).id
}

/// Some record of `records` carries `id`.
pub open spec fn holds(records: Seq<ProductView>, id: u32) -> bool {
    exists|i: int| 0 <= i < records.len() && (#[trigger] records[i]).id == id
}

/// A position of `records` that carries `id`; the only one when identifiers
/// are unique. Meaningful only when [`holds`] is true.
pub open spec fn slot_of(records: Seq<ProductView>, id: u32) -> int {
    choose|i: int| 0 <= i < records.len() && (#[trigger] records[i]).id == id
}

/// What a lookup of `id` answers.
pub open spec fn lookup(records: Seq<ProductView>, id: u32) -> Option<ProductView> {
    if holds(records, id) {
        Some(records[slot_of(records, id)])
    } else {
        None
    }
}

/// What creating `record` answers: a conflict exactly when its identifier is taken.
pub open spec fn create_result(records: Seq<ProductView>, record: ProductView) -> Result<
    (),
    StoreError,
> {
    if holds(records, record.id) {
        Err(StoreError::Conflict)
    } else {
        Ok(())
    }
}

/// The contents after creating `record`: appended at the end, or unchanged on a conflict.
pub open spec fn after_create(records: Seq<ProductView>, record: ProductView) -> Seq<
    ProductView,
> {
    if holds(records, record.id) {
        records
    } else {
        records.push(record)
    }
}

/// The contents after creating the records of `batch` one after the other,
/// each attempt answered as [`create_result`] says.
pub open spec fn after_creates(records: Seq<ProductView>, batch: Seq<ProductView>) -> Seq<
    ProductView,
>
    decreases batch.len(),
{
    if batch.len() == 0 {
        records
    } else {
        after_create(after_creates(records, batch.drop_last()), batch.last())
    }
}

/// What updating or deleting `id` answers: not found exactly when no record carries it.
pub open spec fn touch_result(records: Seq<ProductView>, id: u32) -> Result<(), StoreError> {
    if holds(records, id) {
        Ok(())
    } else {
        Err(StoreError::NotFound)
    }
}

/// The contents after updating `id`: `record`, filed under `id`, takes the
/// place of the record that carried `id`; unchanged when there was none.
pub open spec fn after_update(records: Seq<ProductView>, id: u32, record: ProductView) -> Seq<
    ProductView,
> {
    if holds(records, id) {
        records.update(slot_of(records, id), record.filed_under(id))
    } else {
        records
    }
}

/// The contents after deleting `id`: the record that carried it is gone and
/// the others keep their order; unchanged when there was none.
pub open spec fn after_delete(records: Seq<ProductView>, id: u32) -> Seq<ProductView> {
    if holds(records, id) {
        records.remove(slot_of(records, id))
    } else {
        records
    }
}

/// With unique identifiers, the position that carries `id` is the one found.
pub proof fn lemma_slot_is(records: Seq<ProductView>, id: u32, i: int)
    requires
        ids_unique(records),
        0 <= i < records.len(),
        records[i].id == id,
    ensures
        holds(records, id),
        slot_of(records, id) == i,
        lookup(records, id) == Some(records[i]),
{
    let k = slot_of(records, id);
    assert(0 <= k < records.len() && records[k].id == id);
    if k < i {
        assert(records[k].id != records[i].id);
    } else if i < k {
        assert(records[i].id != records[k].id);
    }
}

/// The in-memory catalog.
///
/// Records are kept in the order in which they were created. At every moment
/// no two of them carry the same identifier.
pub struct CatalogStore {
    records: Vec<Product>,
}

impl View for CatalogStore {
    type V = Seq<ProductView>;

    closed spec fn view(&self) -> Seq<ProductView> {
        views(self.records@)
    }
}

impl CatalogStore {
    /// What holds of every store at every moment: no identifier occurs twice.
    #[verifier::type_invariant]
    pub open spec fn well_formed(self) -> bool {
        ids_unique(self@)
    }

    /// An empty catalog.
    pub fn new() -> (store: Self)
        ensures
            store@ == Seq::<ProductView>::empty(),
    {
        let store = CatalogStore { records: Vec::new() };
        assert(store@ =~= Seq::<ProductView>::empty());
        store
    }

    /// A catalog seeded with `records`, taken in their order. Of records that
    /// share an identifier only the first is kept.
    pub fn seeded(records: &Vec<Product>) -> (store: Self)
        ensures
            store@ == after_creates(Seq::<ProductView>::empty(), views(records@)),
            ids_unique(store@),
    {
        let mut store = CatalogStore::new();
        let ghost batch = views(records@);
        let mut i: usize = 0;
        while i < records.len()
            invariant
                i <= records.len(),
                batch == views(records@),
                store@ == after_creates(Seq::<ProductView>::empty(), batch.take(i as int)),
            decreases records.len() - i,
        {
            let _ = store.create(records[i].clone());
            proof {
                assert(batch.take(i + 1).drop_last() =~= batch.take(i as int));
                assert(batch.take(i + 1).last() == records@[i as int]@);
            }
            i += 1;
        }
        proof {
            assert(batch.take(records.len() as int) =~= batch);
            use_type_invariant(&store);
        }
        store
    }

    /// Where the record carrying `id` sits, if there is one.
    fn position(&self, id: u32) -> (found: Option<usize>)
        ensures
            match found {
                Some(i) => i < self.records.len() && self@[i as int].id == id,
                None => !holds(self@, id),
            },
    {
        let mut i: usize = 0;
        while i < self.records.len()
            invariant
                i <= self.records.len(),
                self@.len() == self.records.len(),
                forall|k: int| 0 <= k < i ==> (#[trigger] self@[k]).id != id,
            decreases self.records.len() - i,
        {
            if self.records[i].id == id {
                return Some(i);
            }
            i += 1;
        }
        None
    }

    /// The number of records.
    pub fn count(&self) -> (n: usize)
        ensures
            n == self@.len(),
            ids_unique(self@),
    {
        proof {
            use_type_invariant(self);
        }
        self.records.len()
    }

    /// An independent copy of the record carrying `id`.
    pub fn get(&self, id: u32) -> (found: Option<Product>)
        ensures
            match found {
                Some(p) => lookup(self@, id) == Some(p@),
                None => lookup(self@, id) == None::<ProductView>,
            },
    {
        proof {
            use_type_invariant(self);
        }
        match self.position(id) {
            Some(i) => {
                proof {
                    lemma_slot_is(self@, id, i as int);
                }
                Some(self.records[i].clone())
            },
            None => None,
        }
    }

    /// An independent copy of every record, in stored order.
    pub fn list(&self) -> (all: Vec<Product>)
        ensures
            views(all@) == self@,
            ids_unique(self@),
    {
        proof {
            use_type_invariant(self);
        }
        clone_records(&self.records)
    }

    /// Adds `record` at the end, unless its identifier is already taken.
    pub fn create(&mut self, record: Product) -> (result: Result<(), StoreError>)
        ensures
            result == create_result(old(self)@, record@),
            final(self)@ == after_create(old(self)@, record@),
            ids_unique(final(self)@),
    {
        proof {
            use_type_invariant(&*self);
        }
        match self.position(record.id) {
            Some(_) => Err(StoreError::Conflict),
            None => {
                let ghost before = self@;
                let mut records: Vec<Product> = Vec::new();
                std::mem::swap(&mut records, &mut self.records);
                records.push(record);
                proof {
                    assert(views(records@) =~= before.push(record@));
                    lemma_create_keeps_ids_unique(before, record@);
                }
                self.records = records;
                Ok(())
            },
        }
    }

    /// Puts `record`, filed under `id`, in the place of the record that
    /// carries `id`. The other records and the order stay as they were.
    pub fn update(&mut self, id: u32, record: Product) -> (result: Result<(), StoreError>)
        ensures
            result == touch_result(old(self)@, id),
            final(self)@ == after_update(old(self)@, id, record@),
            ids_unique(final(self)@),
    {
        proof {
            use_type_invariant(&*self);
        }
        match self.position(id) {
            None => Err(StoreError::NotFound),
            Some(i) => {
                let ghost before = self@;
                proof {
                    lemma_slot_is(before, id, i as int);
                }
                let mut records: Vec<Product> = Vec::new();
                std::mem::swap(&mut records, &mut self.records);
                records.set(i, record.filed_under(id));
                proof {
                    assert(views(records@) =~= before.update(i as int, record@.filed_under(id)));
                    lemma_update_keeps_ids_unique(before, id, record@);
                }
                self.records = records;
                Ok(())
            },
        }
    }

    /// Removes the record that carries `id`. The others keep their order.
    pub fn delete(&mut self, id: u32) -> (result: Result<(), StoreError>)
        ensures
            result == touch_result(old(self)@, id),
            final(self)@ == after_delete(old(self)@, id),
            ids_unique(final(self)@),
    {
        proof {
            use_type_invariant(&*self);
        }
        match self.position(id) {
            None => Err(StoreError::NotFound),
            Some(i) => {
                let ghost before = self@;
                proof {
                    lemma_slot_is(before, id, i as int);
                }
                let mut records: Vec<Product> = Vec::new();
                std::mem::swap(&mut records, &mut self.records);
                let _ = records.remove(i);
                proof {
                    assert(views(records@) =~= before.remove(i as int));
                    lemma_delete_keeps_ids_unique(before, id);
                }
                self.records = records;
                Ok(())
            },
        }
    }
}

/// Creating a record never makes two records share an identifier.
pub proof fn lemma_create_keeps_ids_unique(records: Seq<ProductView>, record: ProductView)
    requires
        ids_unique(records),
    ensures
        ids_unique(after_create(records, record)),
{
    if !holds(records, record.id) {
        let after = records.push(record);
        assert forall|i: int, j: int| 0 <= i < j < after.len() implies (#[trigger] after[i]).id != (
        #[trigger] after[j]).id by {
            if j == records.len() {
                assert(after[i] == records[i]);
            } else {
                assert(after[i] == records[i] && after[j] == records[j]);
            }
        }
    }
}

/// Updating a record never makes two records share an identifier.
pub proof fn lemma_update_keeps_ids_unique(records: Seq<ProductView>, id: u32, record: ProductView)
    requires
        ids_unique(records),
    ensures
        ids_unique(after_update(records, id, record)),
{
    if holds(records, id) {
        let k = slot_of(records, id);
        let after = records.update(k, record.filed_under(id));
        assert forall|i: int, j: int| 0 <= i < j < after.len() implies (#[trigger] after[i]).id != (
        #[trigger] after[j]).id by {
            assert(after[i].id == records[i].id);
            assert(after[j].id == records[j].id);
        }
    }
}

/// Deleting a record never makes two records share an identifier.
pub proof fn lemma_delete_keeps_ids_unique(records: Seq<ProductView>, id: u32)
    requires
        ids_unique(records),
    ensures
        ids_unique(after_delete(records, id)),
{
    if holds(records, id) {
        let k = slot_of(records, id);
        let after = records.remove(k);
        assert forall|i: int, j: int| 0 <= i < j < after.len() implies (#[trigger] after[i]).id != (
        #[trigger] after[j]).id by {
            let si = if i < k { i } else { i + 1 };
            let sj = if j < k { j } else { j + 1 };
            assert(after[i] == records[si]);
            assert(after[j] == records[sj]);
        }
    }
}

} // verus!
