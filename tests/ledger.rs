use shaden_rs::db::{AdminCoinsAction, Database};
use shaden_rs::errors::BotError;
use shaden_rs::ledger::{AFK_REWARD, JOIN_REWARD, LINKVERTISE_REWARD};
use shaden_rs::order::{Order, OrderStatus};
use shaden_rs::resources::Resources;
use shaden_rs::user::User;

const NOW: i64 = 1_700_000_000;

fn with_balance(db: &mut Database, id: u64, coins: i64) {
    db.create_user(id, NOW).unwrap();
    if coins > 0 {
        db.credit(id, coins, NOW).unwrap();
    }
}

fn balance(db: &Database, id: u64) -> i64 {
    db.get_user(id).unwrap().coins
}

#[test]
fn debit_beyond_balance_names_shortfall() {
    let mut db = Database::new();
    with_balance(&mut db, 1, 30);
    let r = db.debit(1, 50, NOW);
    assert_eq!(r, Err(BotError::InsufficientCoins { needed: 50, available: 30 }));
    assert_eq!(balance(&db, 1), 30);
}

#[test]
fn transfer_whole_balance_then_nothing_left() {
    let mut db = Database::new();
    with_balance(&mut db, 1, 20);
    with_balance(&mut db, 2, 7);
    assert_eq!(db.transfer(1, 2, 20, NOW), Ok(()));
    assert_eq!(balance(&db, 1), 0);
    assert_eq!(balance(&db, 2), 27);
    assert_eq!(
        db.transfer(1, 2, 1, NOW),
        Err(BotError::InsufficientCoins { needed: 1, available: 0 })
    );
    assert_eq!(balance(&db, 1), 0);
    assert_eq!(balance(&db, 2), 27);
}

#[test]
fn two_full_balance_debits_only_one_succeeds() {
    let mut db = Database::new();
    with_balance(&mut db, 5, 40);
    let first = db.debit(5, 40, NOW);
    let second = db.debit(5, 40, NOW);
    assert_eq!(first, Ok(0));
    assert_eq!(second, Err(BotError::InsufficientCoins { needed: 40, available: 0 }));
    assert_eq!(balance(&db, 5), 0);
}

#[test]
fn balances_stay_non_negative_over_mixed_operations() {
    let mut db = Database::new();
    with_balance(&mut db, 1, 10);
    with_balance(&mut db, 2, 0);
    let _ = db.debit(1, 11, NOW);
    let _ = db.transfer(2, 1, 1, NOW);
    let _ = db.transfer(1, 2, 6, NOW);
    let _ = db.debit(2, 7, NOW);
    let _ = db.debit(1, 4, NOW);
    let _ = db.credit(2, 3, NOW);
    assert_eq!(balance(&db, 1), 0);
    assert_eq!(balance(&db, 2), 9);
}

#[test]
fn transfer_keeps_the_sum_on_success_and_refusal() {
    let mut db = Database::new();
    with_balance(&mut db, 1, 15);
    with_balance(&mut db, 2, 5);
    assert_eq!(db.transfer(1, 2, 10, NOW), Ok(()));
    assert_eq!(balance(&db, 1) + balance(&db, 2), 20);
    assert!(db.transfer(2, 1, 100, NOW).is_err());
    assert_eq!(balance(&db, 1) + balance(&db, 2), 20);
    assert_eq!(balance(&db, 1), 5);
}

#[test]
fn transfer_refusals() {
    let mut db = Database::new();
    with_balance(&mut db, 1, 15);
    assert_eq!(db.transfer(1, 1, 5, NOW), Err(BotError::SelfTransfer));
    assert_eq!(db.transfer(1, 2, 5, NOW), Err(BotError::UserNotFound));
    assert_eq!(db.transfer(1, 2, 0, NOW), Err(BotError::InvalidAmount));
    assert_eq!(balance(&db, 1), 15);
}

#[test]
fn credit_refusals_and_result() {
    let mut db = Database::new();
    assert_eq!(db.credit(9, 5, NOW), Err(BotError::UserNotFound));
    with_balance(&mut db, 9, 0);
    assert_eq!(db.credit(9, -5, NOW), Err(BotError::InvalidAmount));
    assert_eq!(db.credit(9, 5, NOW), Ok(5));
    assert_eq!(db.credit(9, i64::MAX, NOW), Err(BotError::Overflow));
    assert_eq!(balance(&db, 9), 5);
    assert_eq!(db.debit(9, 0, NOW), Err(BotError::InvalidAmount));
}

#[test]
fn get_or_create_is_idempotent() {
    let mut db = Database::new();
    let u = db.get_or_create_user(3, NOW);
    assert_eq!(u.coins, 0);
    assert_eq!(u.created_at, NOW);
    db.credit(3, 12, NOW).unwrap();
    let again = db.get_or_create_user(3, NOW + 50);
    assert_eq!(again.coins, 12);
    assert_eq!(again.created_at, NOW);
    assert_eq!(db.create_user(3, NOW), Err(BotError::AlreadyExists));
}

#[test]
fn grant_resources_adds_component_wise() {
    let mut db = Database::new();
    with_balance(&mut db, 4, 0);
    let d = Resources { ram: 512, cpu: 50, disk: 1024, databases: 1, allocations: 2, backups: 3 };
    assert_eq!(db.grant_resources(4, d, NOW), Ok(()));
    assert_eq!(db.grant_resources(4, d, NOW), Ok(()));
    let r = db.get_user(4).unwrap().resources;
    assert_eq!(r, Resources { ram: 1024, cpu: 100, disk: 2048, databases: 2, allocations: 4, backups: 6 });
    let neg = Resources { ram: -1, ..d };
    assert_eq!(db.grant_resources(4, neg, NOW), Err(BotError::InvalidAmount));
    assert_eq!(db.grant_resources(8, d, NOW), Err(BotError::UserNotFound));
}

#[test]
fn rewards_are_credited() {
    let mut db = Database::new();
    with_balance(&mut db, 6, 0);
    db.credit(6, AFK_REWARD, NOW).unwrap();
    db.credit(6, LINKVERTISE_REWARD, NOW).unwrap();
    db.credit(6, JOIN_REWARD, NOW).unwrap();
    assert_eq!(balance(&db, 6), 85);
}

#[test]
fn admin_coins_set_add_remove() {
    let mut db = Database::new();
    assert_eq!(db.admin_coins(AdminCoinsAction::Replace, 7, 40, NOW), Ok(40));
    assert_eq!(db.admin_coins(AdminCoinsAction::Add, 7, 2, NOW), Ok(42));
    assert_eq!(db.admin_coins(AdminCoinsAction::Remove, 7, 12, NOW), Ok(30));
    assert_eq!(
        db.admin_coins(AdminCoinsAction::Remove, 7, 31, NOW),
        Err(BotError::InsufficientCoins { needed: 31, available: 30 })
    );
    assert_eq!(db.admin_coins(AdminCoinsAction::Replace, 7, -1, NOW), Err(BotError::InvalidAmount));
    assert_eq!(balance(&db, 7), 30);
}

#[test]
fn user_methods() {
    let mut u = User::new_at(11, NOW);
    assert!(u.can_afford(0));
    assert!(!u.can_afford(1));
    u.add_coins_at(10, NOW + 1);
    assert_eq!(u.coins, 10);
    assert_eq!(u.updated_at, NOW + 1);
    assert_eq!(u.deduct_coins_at(11, NOW + 2), Err(BotError::InsufficientCoins { needed: 11, available: 10 }));
    assert_eq!(u.updated_at, NOW + 1);
    assert_eq!(u.deduct_coins(4), Ok(()));
    assert_eq!(u.coins, 6);
    u.add_coins(1);
    assert_eq!(u.coins, 7);
}

#[test]
fn new_user_is_stamped_with_the_current_time() {
    let u = User::new(1);
    assert!(u.created_at > 1_600_000_000);
    assert_eq!(u.created_at, u.updated_at);
    assert_eq!(u.coins, 0);
}

#[test]
fn checkout_credits_once() {
    let mut db = Database::new();
    with_balance(&mut db, 2, 0);
    let session = "cs_test_1".to_string();
    db.create_order(Order::new_at(1, 2, session.clone(), 499, 100, NOW)).unwrap();
    assert_eq!(
        db.create_order(Order::new_at(2, 2, session.clone(), 499, 100, NOW)),
        Err(BotError::AlreadyExists)
    );
    assert_eq!(db.complete_checkout(&session, NOW + 5), Ok(true));
    assert_eq!(db.complete_checkout(&session, NOW + 6), Ok(false));
    assert_eq!(balance(&db, 2), 100);
    let o = db.get_order_by_session(&session).unwrap();
    assert_eq!(o.status, OrderStatus::Completed);
    assert_eq!(o.completed_at, Some(NOW + 5));
    assert_eq!(db.complete_checkout(&"cs_missing".to_string(), NOW), Err(BotError::OrderNotFound));
}
