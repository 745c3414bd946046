use product_service::catalog::CatalogStore;
use product_service::product::Product;
use product_service::response::{Body, Status};
use product_service::shared::SharedCatalog;
use std::sync::Arc;

fn widget(id: u32) -> Product {
    Product::new(id, format!("Widget {}", id), 9.99f64.to_bits(), String::new(), String::new())
}

fn worker_pool() -> tokio::runtime::Runtime {
    tokio::runtime::Builder::new_multi_thread().worker_threads(4).build().unwrap()
}

fn listed_ids(shared: &SharedCatalog) -> Vec<u32> {
    match shared.get_products().body {
        Body::Records(records) => records.iter().map(|p| p.id).collect(),
        other => panic!("expected a list, got {:?}", other),
    }
}

#[test]
fn shared_catalog_serves_the_whole_round() {
    let shared = SharedCatalog::new(CatalogStore::new());
    assert!(listed_ids(&shared).is_empty());
    assert_eq!(shared.add_product(Some(widget(1))).status, Status::Created);
    assert_eq!(shared.add_product(Some(widget(1))).status, Status::Conflict);
    assert_eq!(shared.add_product(None).status, Status::BadRequest);
    match shared.get_product(1).body {
        Body::Record(record) => assert!(record.same_as(&widget(1))),
        other => panic!("expected a record, got {:?}", other),
    }
    let mut changed = widget(1);
    changed.name = "Changed".to_string();
    assert_eq!(shared.update_product(1, Some(changed)).status, Status::Success);
    match shared.get_product(1).body {
        Body::Record(record) => assert_eq!(record.name, "Changed"),
        other => panic!("expected a record, got {:?}", other),
    }
    assert_eq!(shared.update_product(2, Some(widget(2))).status, Status::NotFound);
    match shared.get_metrics().body {
        Body::Text(text) => assert!(text.ends_with("total_product_count 1\n")),
        other => panic!("expected the gauge, got {:?}", other),
    }
    assert_eq!(shared.delete_product(1).status, Status::Success);
    assert_eq!(shared.delete_product(1).status, Status::NotFound);
    assert_eq!(shared.get_product(1).status, Status::NotFound);
}

#[test]
fn shared_catalog_starts_from_its_seed() {
    let shared = SharedCatalog::new(CatalogStore::seeded(&vec![widget(4), widget(2)]));
    assert_eq!(listed_ids(&shared), vec![4, 2]);
}

#[test]
fn concurrent_writers_with_distinct_ids_all_land() {
    let writers: u32 = 8;
    let each: u32 = 50;
    let shared = Arc::new(SharedCatalog::new(CatalogStore::new()));
    let runtime = worker_pool();
    let mut handles = Vec::new();
    for writer in 0..writers {
        let shared = Arc::clone(&shared);
        handles.push(runtime.spawn_blocking(move || {
            for k in 0..each {
                let id = writer * each + k;
                assert_eq!(shared.add_product(Some(widget(id))).status, Status::Created);
                assert_eq!(shared.get_product(id).status, Status::Success);
            }
        }));
    }
    for handle in handles {
        runtime.block_on(handle).unwrap();
    }
    let mut ids = listed_ids(&shared);
    assert_eq!(ids.len(), (writers * each) as usize);
    ids.sort();
    assert_eq!(ids, (0..writers * each).collect::<Vec<u32>>());
    match shared.get_metrics().body {
        Body::Text(text) => assert!(text.ends_with("total_product_count 400\n")),
        other => panic!("expected the gauge, got {:?}", other),
    }
}

#[test]
fn concurrent_writers_of_one_id_create_it_once() {
    let shared = Arc::new(SharedCatalog::new(CatalogStore::new()));
    let runtime = worker_pool();
    let mut handles = Vec::new();
    for _ in 0..8 {
        let shared = Arc::clone(&shared);
        handles.push(runtime.spawn_blocking(move || {
            let mut created = 0;
            for id in 0..50u32 {
                if shared.add_product(Some(widget(id))).status == Status::Created {
                    created += 1;
                }
            }
            created
        }));
    }
    let created: u32 = handles.into_iter().map(|h| runtime.block_on(h).unwrap()).sum();
    assert_eq!(created, 50);
    let mut ids = listed_ids(&shared);
    ids.sort();
    assert_eq!(ids, (0..50).collect::<Vec<u32>>());
}

#[test]
fn readers_see_whole_records_while_writers_run() {
    let shared = Arc::new(SharedCatalog::new(CatalogStore::new()));
    let runtime = worker_pool();
    let writer = {
        let shared = Arc::clone(&shared);
        runtime.spawn_blocking(move || {
            for id in 0..200u32 {
                assert_eq!(shared.add_product(Some(widget(id))).status, Status::Created);
            }
            for id in (0..200u32).step_by(2) {
                assert_eq!(shared.delete_product(id).status, Status::Success);
            }
        })
    };
    let mut readers = Vec::new();
    for _ in 0..3 {
        let shared = Arc::clone(&shared);
        readers.push(runtime.spawn_blocking(move || {
            for _ in 0..200 {
                let records = match shared.get_products().body {
                    Body::Records(records) => records,
                    other => panic!("expected a list, got {:?}", other),
                };
                let mut ids: Vec<u32> = records.iter().map(|p| p.id).collect();
                for record in &records {
                    assert!(record.same_as(&widget(record.id)));
                }
                let listed = ids.len();
                ids.sort();
                ids.dedup();
                assert_eq!(ids.len(), listed);
            }
        }));
    }
    runtime.block_on(writer).unwrap();
    for reader in readers {
        runtime.block_on(reader).unwrap();
    }
    assert_eq!(listed_ids(&shared), (1..200).step_by(2).collect::<Vec<u32>>());
}
