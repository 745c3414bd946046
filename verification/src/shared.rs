//! The catalog as the handlers of a running server share it: one store
//! behind a reader-writer lock.
//!
//! Queries take the lock for reading and may run side by side; mutations take
//! it for writing and run alone. The lock is held across the scan or the
//! mutation only. It has no poisoned state: a handler that fails elsewhere
//! leaves the catalog usable.
//!
//! Between two calls other handlers may have changed the catalog, so a
//! contract here cannot name the contents that a call met. It says that the
//! answer is the one that the handler gives for *some* contents with unique
//! identifiers: the ones that the catalog held while the lock was taken.

use vstd::prelude::*;
use vstd::rwlock::RwLock;
use crate::catalog::{ids_unique, CatalogStore};
use crate::handlers::{
    add_product, add_product_response, delete_product, delete_product_response, get_metrics,
    get_metrics_response, get_product, get_product_response, get_products, get_products_response,
    update_product, update_product_response, body_view,
};
use crate::product::{Product, ProductView};
use crate::response::Response;

verus! {

/// A catalog shared between handlers.
pub struct SharedCatalog {
    lock: RwLock<CatalogStore, spec_fn(CatalogStore) -> bool>,
}

impl SharedCatalog {
    #[verifier::type_invariant]
    spec fn accepts_every_store(self) -> bool {
        forall|store: CatalogStore| #[trigger] self.lock.inv(store)
    }

    /// Shares `store`: empty, or seeded with the records to start from.
    pub fn new(store: CatalogStore) -> (shared: Self) {
        SharedCatalog { lock: RwLock::new(store, Ghost(|store: CatalogStore| true)) }
    }

    /// `GET /product/{id}` under the read lock.
    pub fn get_product(&self, id: u32) -> (response: Response)
        ensures
            exists|records: Seq<ProductView>|
                ids_unique(records) && response@ == #[trigger] get_product_response(records, id),
    {
        let handle = self.lock.acquire_read();
        let store = handle.borrow();
        proof {
            use_type_invariant(store);
        }
        let response = get_product(store, id);
        assert(response@ == get_product_response(store@, id));
        handle.release_read();
        response
    }

    /// `GET /products` under the read lock.
    pub fn get_products(&self) -> (response: Response)
        ensures
            exists|records: Seq<ProductView>|
                ids_unique(records) && response@ == #[trigger] get_products_response(records),
    {
        let handle = self.lock.acquire_read();
        let store = handle.borrow();
        proof {
            use_type_invariant(store);
        }
        let response = get_products(store);
        assert(response@ == get_products_response(store@));
        handle.release_read();
        response
    }

    /// `GET /metrics` for the catalog gauge, under the read lock.
    pub fn get_metrics(&self) -> (response: Response)
        ensures
            exists|records: Seq<ProductView>|
                ids_unique(records) && response@ == #[trigger] get_metrics_response(records),
    {
        let handle = self.lock.acquire_read();
        let store = handle.borrow();
        proof {
            use_type_invariant(store);
        }
        let response = get_metrics(store);
        assert(response@ == get_metrics_response(store@));
        handle.release_read();
        response
    }

    /// `POST /product` under the write lock.
    pub fn add_product(&self, body: Option<Product>) -> (response: Response)
        ensures
            exists|records: Seq<ProductView>|
                ids_unique(records) && response@ == #[trigger] add_product_response(
                    records,
                    body_view(body),
                ),
    {
        proof {
            use_type_invariant(self);
        }
        let (mut store, handle) = self.lock.acquire_write();
        proof {
            use_type_invariant(&store);
        }
        let ghost before = store@;
        let response = add_product(&mut store, body);
        assert(response@ == add_product_response(before, body_view(body)));
        handle.release_write(store);
        response
    }

    /// `PUT /product/{id}` under the write lock.
    pub fn update_product(&self, id: u32, body: Option<Product>) -> (response: Response)
        ensures
            exists|records: Seq<ProductView>|
                ids_unique(records) && response@ == #[trigger] update_product_response(
                    records,
                    id,
                    body_view(body),
                ),
    {
        proof {
            use_type_invariant(self);
        }
        let (mut store, handle) = self.lock.acquire_write();
        proof {
            use_type_invariant(&store);
        }
        let ghost before = store@;
        let response = update_product(&mut store, id, body);
        assert(response@ == update_product_response(before, id, body_view(body)));
        handle.release_write(store);
        response
    }

    /// `DELETE /product/{id}` under the write lock.
    pub fn delete_product(&self, id: u32) -> (response: Response)
        ensures
            exists|records: Seq<ProductView>|
                ids_unique(records) && response@ == #[trigger] delete_product_response(records, id),
    {
        proof {
            use_type_invariant(self);
        }
        let (mut store, handle) = self.lock.acquire_write();
        proof {
            use_type_invariant(&store);
        }
        let ghost before = store@;
        let response = delete_product(&mut store, id);
        assert(response@ == delete_product_response(before, id));
        handle.release_write(store);
        response
    }
}

} // verus!
