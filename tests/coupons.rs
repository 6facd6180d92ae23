use shaden_rs::coupon::{Coupon, Grant};
use shaden_rs::db::Database;
use shaden_rs::errors::BotError;
use shaden_rs::resources::Resources;

const NOW: i64 = 1_700_000_000;

fn account(db: &mut Database, id: u64, coins: i64) {
    db.create_user(id, NOW).unwrap();
    if coins > 0 {
        db.credit(id, coins, NOW).unwrap();
    }
}

fn coupon(code: &str, coins: i64, max_uses: Option<i64>, expires_at: Option<i64>) -> Coupon {
    Coupon::new_at(code.to_string(), coins, None, max_uses, expires_at, 99, NOW)
}

#[test]
fn welcome_coupon_once_per_account() {
    let mut db = Database::new();
    account(&mut db, 1, 100);
    db.create_coupon(coupon("WELCOME10", 50, Some(1), None)).unwrap();
    let code = "WELCOME10".to_string();
    assert_eq!(db.redeem_coupon(1, &code, NOW), Ok(Grant { coins: 50, resources: None }));
    assert_eq!(db.get_user(1).unwrap().coins, 150);
    assert_eq!(db.redeem_coupon(1, &code, NOW), Err(BotError::CouponAlreadyUsed));
    assert_eq!(db.get_user(1).unwrap().coins, 150);
}

#[test]
fn same_account_twice_one_grant_one_rejection() {
    let mut db = Database::new();
    account(&mut db, 1, 0);
    db.create_coupon(coupon("TWICE", 5, None, None)).unwrap();
    let code = "TWICE".to_string();
    let a = db.redeem_coupon(1, &code, NOW);
    let b = db.redeem_coupon(1, &code, NOW + 1);
    assert!(a.is_ok());
    assert_eq!(b, Err(BotError::CouponAlreadyUsed));
    assert_eq!(db.get_user(1).unwrap().coins, 5);
    let c = db.get_coupon(&code).unwrap();
    assert_eq!(c.used_count, 1);
    assert!(c.used_by.contains(&1));
}

#[test]
fn limited_coupon_grants_exactly_its_limit() {
    let mut db = Database::new();
    for id in 1..=4 {
        account(&mut db, id, 0);
    }
    db.create_coupon(coupon("THREE", 10, Some(3), None)).unwrap();
    let code = "THREE".to_string();
    let results: Vec<_> = (1..=4).map(|id| db.redeem_coupon(id, &code, NOW)).collect();
    assert_eq!(results.iter().filter(|r| r.is_ok()).count(), 3);
    assert_eq!(results[3], Err(BotError::CouponLimitReached));
    assert_eq!(db.get_user(4).unwrap().coins, 0);
    assert_eq!(db.get_coupon(&code).unwrap().used_count, 3);
}

#[test]
fn expired_and_unknown_coupons_are_refused() {
    let mut db = Database::new();
    account(&mut db, 1, 0);
    db.create_coupon(coupon("OLD", 10, None, Some(NOW - 1))).unwrap();
    assert_eq!(db.redeem_coupon(1, &"OLD".to_string(), NOW), Err(BotError::CouponExpired));
    assert_eq!(db.redeem_coupon(1, &"NOPE".to_string(), NOW), Err(BotError::CouponNotFound));
    assert_eq!(db.redeem_coupon(2, &"OLD".to_string(), NOW), Err(BotError::UserNotFound));
    assert_eq!(db.redeem_coupon(1, &"OLD".to_string(), NOW - 1), Ok(Grant { coins: 10, resources: None }));
}

#[test]
fn codes_are_case_sensitive() {
    let mut db = Database::new();
    account(&mut db, 1, 0);
    db.create_coupon(coupon("Spring", 10, None, None)).unwrap();
    assert_eq!(db.redeem_coupon(1, &"spring".to_string(), NOW), Err(BotError::CouponNotFound));
}

#[test]
fn coupon_grants_resources() {
    let mut db = Database::new();
    account(&mut db, 1, 0);
    let res = Resources { ram: 256, cpu: 10, disk: 100, databases: 1, allocations: 0, backups: 1 };
    db.create_coupon(Coupon::new_at("RES".to_string(), 0, Some(res), None, None, 99, NOW)).unwrap();
    assert!(db.redeem_coupon(1, &"RES".to_string(), NOW).is_ok());
    assert_eq!(db.get_user(1).unwrap().resources, res);
}

#[test]
fn create_and_revoke() {
    let mut db = Database::new();
    account(&mut db, 1, 0);
    db.create_coupon(coupon("GONE", 10, None, None)).unwrap();
    assert_eq!(db.create_coupon(coupon("GONE", 20, None, None)), Err(BotError::CouponAlreadyExists));
    assert_eq!(db.create_coupon(coupon("NEG", -20, None, None)), Err(BotError::InvalidAmount));
    let code = "GONE".to_string();
    assert!(db.redeem_coupon(1, &code, NOW).is_ok());
    assert_eq!(db.delete_coupon(&code), Ok(()));
    assert_eq!(db.delete_coupon(&code), Err(BotError::CouponNotFound));
    assert!(db.get_coupon(&code).is_none());
    assert_eq!(db.get_user(1).unwrap().coins, 10);
    assert_eq!(db.redeem_coupon(1, &code, NOW), Err(BotError::CouponNotFound));
}

#[test]
fn coupon_checks_in_order() {
    let mut c = coupon("C", 1, Some(1), Some(NOW));
    assert!(c.can_be_used_at(1, NOW));
    assert_eq!(c.check_at(1, NOW + 1), Some(BotError::CouponExpired));
    assert!(c.use_coupon_at(1, NOW));
    assert_eq!(c.check_at(1, NOW), Some(BotError::CouponAlreadyUsed));
    assert_eq!(c.check_at(2, NOW), Some(BotError::CouponLimitReached));
    assert!(!c.use_coupon_at(2, NOW));
    assert_eq!(c.used_count, 1);
}

#[test]
fn coupon_with_clock() {
    let mut c = Coupon::new("NOW".to_string(), 1, None, None, None, 5);
    assert!(c.created_at > 1_600_000_000);
    assert!(c.can_be_used(3));
    assert!(c.use_coupon(3));
    assert!(!c.use_coupon(3));
}
