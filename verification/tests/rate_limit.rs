use okx::models::InstType;
use okx::rate_limit::{LimitMgr, WeightLimit};
use okx::OkxError;

#[test]
fn capacity_then_refusal_then_new_window() {
    // First C unit calls in a window succeed, the (C+1)-th fails, and a
    // call strictly past the window's end succeeds again.
    let mut wl = WeightLimit::new(60, 2);
    for _ in 0..60 {
        assert!(wl.request_once(1, 0));
    }
    assert!(!wl.request_once(1, 0));
    // Still inside the window.
    assert!(!wl.request_once(1, 2));
    // Strictly past it.
    assert!(wl.request_once(1, 3));
}

#[test]
fn exact_count_under_exhaustion() {
    // Of n >= C unit calls at one instant, exactly C succeed.
    let mut wl = WeightLimit::new(5, 2);
    let mut ok: u32 = 0;
    for _ in 0..8 {
        if wl.request_once(1, 0) {
            ok += 1;
        }
    }
    assert_eq!(ok, 5);
}

#[test]
fn check_valid_deducts_nothing() {
    let mut wl = WeightLimit::new(2, 2);
    assert!(wl.check_valid(2, 0));
    assert!(wl.check_valid(2, 0));
    assert!(wl.request_once(2, 0));
    assert!(!wl.check_valid(1, 0));
}

#[test]
fn dimension_isolation() {
    // Distinct dimension keys do not deplete each other's capacity.
    let mut mgr = LimitMgr::new();
    assert!(mgr.check_limit_with_inst_id(7, "BTC-USDT", 1, 1, 2, 0).is_ok());
    assert!(mgr.check_limit_with_inst_id(7, "ETH-USDT", 1, 1, 2, 0).is_ok());
    assert_eq!(
        mgr.check_limit_with_inst_id(7, "BTC-USDT", 1, 1, 2, 0),
        Err(OkxError::RateLimit)
    );
    // The plain and type dimensions are separate tables.
    assert!(mgr.check_limit(7, 1, 1, 2, 0).is_ok());
    assert!(mgr.check_limit_with_inst_type(7, InstType::Spot, 1, 1, 2, 0).is_ok());
    assert!(mgr.check_limit_with_inst_family(7, "BTC-USD", 1, 1, 2, 0).is_ok());
    assert_eq!(mgr.check_limit(7, 1, 1, 2, 0), Err(OkxError::RateLimit));
}

#[test]
fn first_seen_values_bind_the_record() {
    // A record keeps the capacity and window it was created with.
    let mut mgr = LimitMgr::new();
    assert!(mgr.check_limit(3, 1, 1, 2, 0).is_ok());
    // The larger capacity named here does not widen the existing record.
    assert_eq!(mgr.check_limit(3, 1, 100, 2, 0), Err(OkxError::RateLimit));
}

#[test]
fn weight_accumulates() {
    let mut mgr = LimitMgr::new();
    assert!(mgr.check_limit(9, 7, 10, 2, 5).is_ok());
    assert_eq!(mgr.check_limit(9, 4, 10, 2, 5), Err(OkxError::RateLimit));
    assert!(mgr.check_limit(9, 3, 10, 2, 5).is_ok());
}
