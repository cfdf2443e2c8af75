use rust_bench::decimal_string;
use rust_bench::handle_compute;
use rust_bench::handle_health;
use rust_bench::handle_payload;
use rust_bench::make_item;
use rust_bench::RequestError;

#[test]
fn compute_defaults_to_ten_thousand() {
    let out = handle_compute(None).unwrap();
    assert_eq!(out.n, 10000);
    assert_eq!(out.prime_count, 1229);
}

#[test]
fn compute_rejects_n_below_two() {
    assert!(matches!(handle_compute(Some(0)), Err(RequestError::BadRequest)));
    assert!(matches!(handle_compute(Some(1)), Err(RequestError::BadRequest)));
}

#[test]
fn compute_error_reports_status_400() {
    let err = handle_compute(Some(0)).unwrap_err();
    assert_eq!(err.status_code(), 400);
}

#[test]
fn compute_accepts_two() {
    let out = handle_compute(Some(2)).unwrap();
    assert_eq!(out.n, 2);
    assert_eq!(out.prime_count, 1);
}

#[test]
fn compute_same_n_gives_identical_counts() {
    let a = handle_compute(Some(3000)).unwrap();
    let b = handle_compute(Some(3000)).unwrap();
    let c = handle_compute(Some(3000)).unwrap();
    assert_eq!(a.prime_count, b.prime_count);
    assert_eq!(b.prime_count, c.prime_count);
}

#[test]
fn payload_defaults_to_one_hundred() {
    let out = match handle_payload(None) {
        Ok(out) => out,
        Err(_) => panic!("default payload request must succeed"),
    };
    assert_eq!(out.item_count, 100);
    assert_eq!(out.items.len(), 100);
}

#[test]
fn payload_rejects_size_below_one() {
    let r = handle_payload(Some(0));
    match r {
        Ok(_) => panic!("size 0 must be rejected"),
        Err(err) => assert_eq!(err.status_code(), 400),
    }
}

#[test]
fn payload_items_derive_from_index() {
    let out = match handle_payload(Some(5)) {
        Ok(out) => out,
        Err(_) => panic!("size 5 must succeed"),
    };
    assert_eq!(out.item_count, 5);
    assert_eq!(out.items.len(), 5);
    for (i, item) in out.items.iter().enumerate() {
        assert_eq!(item.id, i);
        assert_eq!(item.name, format!("item-{}", i));
        assert_eq!(item.value, i * 42);
        assert_eq!(item.active, i % 2 == 0);
    }
}

#[test]
fn payload_single_item() {
    let out = match handle_payload(Some(1)) {
        Ok(out) => out,
        Err(_) => panic!("size 1 must succeed"),
    };
    assert_eq!(out.item_count, 1);
    assert_eq!(out.items[0].id, 0);
    assert_eq!(out.items[0].name, "item-0");
    assert_eq!(out.items[0].value, 0);
    assert!(out.items[0].active);
}

#[test]
fn item_name_carries_multi_digit_index() {
    let item = make_item(12345);
    assert_eq!(item.name, "item-12345");
    assert_eq!(item.value, 12345 * 42);
    assert!(!item.active);
}

#[test]
fn decimal_rendering_matches_std() {
    assert_eq!(decimal_string(0), "0");
    assert_eq!(decimal_string(7), "7");
    assert_eq!(decimal_string(10), "10");
    assert_eq!(decimal_string(100), "100");
    assert_eq!(decimal_string(90210), "90210");
    assert_eq!(decimal_string(usize::MAX / 42), format!("{}", usize::MAX / 42));
}

#[test]
fn health_always_reports_ok() {
    for _ in 0..3 {
        let h = handle_health();
        assert_eq!(h.status, "ok");
        assert_eq!(h.app, "rust-bench");
    }
}
