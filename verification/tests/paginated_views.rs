use soroban_sdk::{Address, Env};
use starfund_escrow::{StarfundEscrow, MAX_INVESTOR_READ_BATCH};

#[test]
fn paginate_window_empty_collection_returns_none() {
    // len == 0 → always None regardless of start/limit
    assert_eq!(StarfundEscrow::paginate_window(0, 10, 50, 0), None);
    assert_eq!(StarfundEscrow::paginate_window(5, 10, 50, 0), None);
}

#[test]
fn paginate_window_start_past_end_returns_none() {
    // start >= len → None
    assert_eq!(StarfundEscrow::paginate_window(5, 10, 50, 5), None);
    assert_eq!(StarfundEscrow::paginate_window(100, 10, 50, 5), None);
}

#[test]
fn paginate_window_zero_limit_returns_none() {
    // limit == 0 → None even when start is valid
    assert_eq!(StarfundEscrow::paginate_window(0, 0, 50, 10), None);
    assert_eq!(StarfundEscrow::paginate_window(3, 0, 50, 10), None);
}

#[test]
fn paginate_window_first_page() {
    // start=0, limit=5, ceiling=50, len=10 → (0, 5)
    assert_eq!(StarfundEscrow::paginate_window(0, 5, 50, 10), Some((0, 5)));
}

#[test]
fn paginate_window_continuation_page() {
    // start=5, limit=5, ceiling=50, len=10 → (5, 10)
    assert_eq!(StarfundEscrow::paginate_window(5, 5, 50, 10), Some((5, 10)));
}

#[test]
fn paginate_window_limit_exceeds_remaining_items() {
    // start=7, limit=50, ceiling=50, len=10 → (7, 10)  (clamped at len)
    assert_eq!(StarfundEscrow::paginate_window(7, 50, 50, 10), Some((7, 10)));
}

#[test]
fn paginate_window_ceiling_enforced() {
    // limit > ceiling → ceiling is applied; start=0, limit=100, ceiling=20, len=50 → (0, 20)
    assert_eq!(StarfundEscrow::paginate_window(0, 100, 20, 50), Some((0, 20)));
}

#[test]
fn paginate_window_saturating_add_does_not_overflow() {
    // start near u32::MAX with a non-zero limit should not panic
    let result = StarfundEscrow::paginate_window(u32::MAX - 1, 50, 50, u32::MAX);
    // start (u32::MAX-1) < len (u32::MAX), limit > 0 → Some((u32::MAX-1, u32::MAX))
    assert_eq!(result, Some((u32::MAX - 1, u32::MAX)));
}

#[test]
fn paginate_window_zero_ceiling_returns_none() {
    assert_eq!(StarfundEscrow::paginate_window(0, 10, 0, 10), None);
}

#[test]
fn paginate_window_read_batch_clamps_large_limit() {
    assert_eq!(
        StarfundEscrow::paginate_window(10, 1_000, MAX_INVESTOR_READ_BATCH, 1_000),
        Some((10, 60))
    );
}

#[test]
fn paginate_returns_the_selected_items() {
    let items: Vec<u32> = (100..110).collect();
    assert_eq!(StarfundEscrow::paginate(&items, 0, 3, 50), vec![100, 101, 102]);
    assert_eq!(StarfundEscrow::paginate(&items, 3, 3, 50), vec![103, 104, 105]);
    assert_eq!(StarfundEscrow::paginate(&items, 8, 50, 50), vec![108, 109]);
    assert_eq!(StarfundEscrow::paginate(&items, 10, 3, 50), Vec::<u32>::new());
    assert_eq!(StarfundEscrow::paginate(&items, 0, 0, 50), Vec::<u32>::new());
    assert_eq!(StarfundEscrow::paginate(&items, 0, 100, 4), vec![100, 101, 102, 103]);
}

#[test]
fn consecutive_pages_cover_the_collection_once() {
    let items: Vec<u32> = (0..23).collect();
    let mut seen: Vec<u32> = Vec::new();
    let mut start = 0u32;
    while let Some((s, e)) = StarfundEscrow::paginate_window(start, 5, 50, items.len() as u32) {
        assert_eq!(s, start);
        seen.extend(StarfundEscrow::paginate(&items, start, 5, 50));
        start = e;
    }
    assert_eq!(seen, items);
}

#[test]
fn paginate_hands_back_the_same_addresses() {
    let env = Env::default();
    let a = Address::from_str(&env, "GAAAAAAAAAAAAAAAAAAAAAAAAAAAAAAAAAAAAAAAAAAAAAAAAAAAAWHF");
    let b = Address::from_str(&env, "CAAQCAIBAEAQCAIBAEAQCAIBAEAQCAIBAEAQCAIBAEAQCAIBAEAQC526");
    let index = vec![a.clone(), b.clone(), a.clone()];
    assert_eq!(StarfundEscrow::paginate(&index, 1, 10, 50), vec![b, a]);
}
