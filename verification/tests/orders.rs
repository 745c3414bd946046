use product_service::orders::{
    after_decode, after_fetch, body_is_blank, draw_customer_id, draw_item, draw_item_count,
    run_mode, trimmed_is_blank, FetchStep, Fetched, Item, Order, OrderStatus, RunMode,
};

fn order(status: u32) -> Order {
    Order {
        order_id: "o-1".to_string(),
        customer_id: "1234567890".to_string(),
        items: vec![Item { product_id: 3, quantity: 2, price_bits: 4.5f32.to_bits() }],
        status,
    }
}

#[test]
fn status_codes_count_from_zero() {
    assert_eq!(OrderStatus::Pending.code(), 0);
    assert_eq!(OrderStatus::Processing.code(), 1);
    assert_eq!(OrderStatus::Complete.code(), 2);
}

#[test]
fn start_processing_changes_the_status_only() {
    for status in [0u32, 1, 2, 77] {
        let started = order(status).start_processing();
        assert_eq!(started.status, 1);
        assert_eq!(started.order_id, "o-1");
        assert_eq!(started.customer_id, "1234567890");
        assert_eq!(
            started.items,
            vec![Item { product_id: 3, quantity: 2, price_bits: 4.5f32.to_bits() }]
        );
    }
}

#[test]
fn trimmed_body_is_blank_when_empty_or_null() {
    assert!(trimmed_is_blank(""));
    assert!(trimmed_is_blank("null"));
    assert!(!trimmed_is_blank("nul"));
    assert!(!trimmed_is_blank("nulls"));
    assert!(!trimmed_is_blank("NULL"));
    assert!(!trimmed_is_blank(" null"));
    assert!(!trimmed_is_blank("nulL"));
    assert!(!trimmed_is_blank("[]"));
    assert!(!trimmed_is_blank(" "));
    assert!(!trimmed_is_blank("nu\u{142}l"));
}

#[test]
fn body_is_blank_looks_past_white_space_at_the_ends() {
    assert!(body_is_blank(""));
    assert!(body_is_blank("   \n\t"));
    assert!(body_is_blank("null"));
    assert!(body_is_blank("  null\r\n"));
    assert!(body_is_blank("\u{2003}null\u{a0}"));
    assert!(!body_is_blank("nu ll"));
    assert!(!body_is_blank(" [] "));
    assert!(!body_is_blank("[{\"orderId\":\"1\"}]"));
}

#[test]
fn after_fetch_follows_each_outcome() {
    assert!(matches!(after_fetch(Fetched::Unreachable), FetchStep::NoOrders));
    assert!(matches!(after_fetch(Fetched::Rejected), FetchStep::Fail));
    assert!(matches!(after_fetch(Fetched::Unreadable), FetchStep::Fail));
    assert!(matches!(after_fetch(Fetched::Body(String::new())), FetchStep::NoOrders));
    assert!(matches!(after_fetch(Fetched::Body(" null ".to_string())), FetchStep::NoOrders));
    match after_fetch(Fetched::Body(" [1] ".to_string())) {
        FetchStep::Decode(body) => assert_eq!(body, " [1] "),
        other => panic!("expected a body to decode, got {:?}", other),
    }
}

#[test]
fn after_decode_keeps_the_orders_or_goes_on_with_none() {
    assert!(after_decode(None).is_empty());
    assert!(after_decode(Some(Vec::new())).is_empty());
    let kept = after_decode(Some(vec![order(0), order(2)]));
    assert_eq!(kept.len(), 2);
    assert_eq!(kept[0].status, 0);
    assert_eq!(kept[1].status, 2);
}

#[test]
fn run_mode_repeats_only_for_a_positive_rate() {
    assert_eq!(run_mode(None), RunMode::Once);
    assert_eq!(run_mode(Some(0)), RunMode::Once);
    assert_eq!(run_mode(Some(1)), RunMode::Repeat { orders_per_hour: 1 });
    assert_eq!(run_mode(Some(3600)), RunMode::Repeat { orders_per_hour: 3600 });
}

#[test]
fn drawn_customer_ids_are_numerals_in_range() {
    let mut distinct = std::collections::HashSet::new();
    for _ in 0..500 {
        let id = draw_customer_id();
        assert_eq!(id.len(), 10);
        let number: u32 = id.parse().unwrap();
        assert!((1000000000..2147483647).contains(&number));
        assert_eq!(number.to_string(), id);
        distinct.insert(number);
    }
    assert!(distinct.len() > 1);
}

#[test]
fn drawn_items_stay_in_their_ranges() {
    let mut products = std::collections::HashSet::new();
    let mut counts = std::collections::HashSet::new();
    for _ in 0..2000 {
        let count = draw_item_count();
        assert!((1..5).contains(&count));
        counts.insert(count);
        let item = draw_item(12.5f32.to_bits());
        assert!((1..10).contains(&item.product_id));
        assert!((1..5).contains(&item.quantity));
        assert_eq!(f32::from_bits(item.price_bits), 12.5);
        products.insert(item.product_id);
    }
    assert_eq!(counts.len(), 4);
    assert_eq!(products.len(), 9);
}

fn in_white_space_set(c: char) -> bool {
    let code = c as u32;
    (0x09..=0x0D).contains(&code)
        || [0x20, 0x85, 0xA0, 0x1680, 0x2028, 0x2029, 0x202F, 0x205F, 0x3000].contains(&code)
        || (0x2000..=0x200A).contains(&code)
}

#[test]
fn white_space_is_the_unicode_set() {
    let mut white = 0;
    for code in 0..=0x10FFFFu32 {
        if let Some(c) = char::from_u32(code) {
            let alone = c.to_string();
            assert_eq!(body_is_blank(&alone), in_white_space_set(c), "U+{:04X}", code);
            let around = format!("{}null{}", c, c);
            assert_eq!(body_is_blank(&around), in_white_space_set(c), "U+{:04X}", code);
            if in_white_space_set(c) {
                white += 1;
            }
        }
    }
    assert_eq!(white, 25);
}

#[test]
fn white_space_inside_a_body_is_kept() {
    assert!(!body_is_blank(" nu ll "));
    assert!(!body_is_blank("null null"));
    assert!(!body_is_blank("\u{200B}"));
    assert!(!body_is_blank("\u{180E}null"));
    assert!(body_is_blank("\t\n\u{0B}\u{0C}\r \u{85}\u{A0}null\u{1680}\u{2028}\u{2029}\u{3000}"));
}
