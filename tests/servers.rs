use shaden_rs::config::{Config, StoreConfig};
use shaden_rs::db::Database;
use shaden_rs::errors::BotError;
use shaden_rs::pterodactyl::CreateServerRequest;
use shaden_rs::queue::{queue_position, JobData, JobType, QueueJob, QueueService};
use shaden_rs::resources::Resources;
use shaden_rs::server::{can_transition, plan_named, Plan, Server, ServerStatus};
use shaden_rs::stripe::StripeService;
use shaden_rs::worker::{plan_job, WorkerAction};

const NOW: i64 = 1_700_000_000;
const DAY: i64 = 86_400;
const SERVER_ID: u128 = 0x67e5_5044_10b1_426f_9247_bb68_0e5f_e0c8;
const SERVER_TEXT: &str = "67e55044-10b1-426f-9247-bb680e5fe0c8";

fn basic() -> Plan {
    plan_named(&"basic".to_string()).unwrap()
}

fn funded(db: &mut Database, id: u64, coins: i64) {
    db.create_user(id, NOW).unwrap();
    db.credit(id, coins, NOW).unwrap();
    let r = Resources { ram: 2048, cpu: 200, disk: 4096, databases: 0, allocations: 0, backups: 0 };
    db.grant_resources(id, r, NOW).unwrap();
}

#[test]
fn failed_provisioning_leaves_server_pending_without_refund() {
    let mut db = Database::new();
    let mut queue = QueueService::new();
    funded(&mut db, 1, 600);
    let job = db
        .create_server_request(&mut queue, 1, "mc".to_string(), basic(), SERVER_ID, 77, NOW)
        .unwrap();
    assert_eq!(job.job_type, JobType::CreateServer);
    assert_eq!(job.data, JobData { server_id: Some(SERVER_ID), external_id: None });
    assert_eq!(db.get_user(1).unwrap().coins, 100);
    assert_eq!(queue.get_queue_length(), 1);

    let taken = queue.dequeue().unwrap();
    assert_eq!(taken, job);
    match plan_job(&db, &taken, 3) {
        WorkerAction::Create { server_id, request } => {
            assert_eq!(server_id, SERVER_ID);
            assert_eq!(request.limits.memory, 1024);
        }
        other => panic!("unexpected action {:?}", other),
    }
    let failed = Err(BotError::Pterodactyl("Failed to create server: 500".to_string()));
    assert_eq!(db.record_provisioning(SERVER_ID, failed.clone(), NOW + 1), failed.map(|_| true));
    let s = db.get_server_by_id(SERVER_ID).unwrap();
    assert_eq!(s.status, ServerStatus::Creating);
    assert_eq!(s.pterodactyl_id, None);
    assert_eq!(db.get_user(1).unwrap().coins, 100);
    assert_eq!(queue.dequeue(), None);
}

#[test]
fn successful_provisioning_runs_the_server() {
    let mut db = Database::new();
    let mut queue = QueueService::new();
    funded(&mut db, 1, 500);
    let job = db
        .create_server_request(&mut queue, 1, "mc".to_string(), basic(), SERVER_ID, 77, NOW)
        .unwrap();
    assert_eq!(db.record_provisioning(SERVER_ID, Ok(42), NOW + 1), Ok(true));
    let s = db.get_server_by_id(SERVER_ID).unwrap();
    assert_eq!(s.status, ServerStatus::Running);
    assert_eq!(s.pterodactyl_id, Some(42));
    assert_eq!(db.record_provisioning(SERVER_ID, Ok(43), NOW + 2), Ok(false));
    assert!(matches!(plan_job(&db, &job, 3), WorkerAction::Skip));
}

#[test]
fn server_request_refusals() {
    let mut db = Database::new();
    let mut queue = QueueService::new();
    let r = db.create_server_request(&mut queue, 1, "a".to_string(), basic(), SERVER_ID, 1, NOW);
    assert_eq!(r, Err(BotError::UserNotFound));
    db.create_user(1, NOW).unwrap();
    db.credit(1, 1000, NOW).unwrap();
    let r = db.create_server_request(&mut queue, 1, "a".to_string(), basic(), SERVER_ID, 1, NOW);
    assert_eq!(r, Err(BotError::InsufficientResources));
    funded(&mut db, 2, 499);
    let r = db.create_server_request(&mut queue, 2, "a".to_string(), basic(), SERVER_ID, 1, NOW);
    assert_eq!(r, Err(BotError::InsufficientCoins { needed: 500, available: 499 }));
    assert_eq!(queue.get_queue_length(), 0);
    assert!(db.get_server_by_id(SERVER_ID).is_none());
}

#[test]
fn plans_on_offer() {
    let free = plan_named(&"free".to_string()).unwrap();
    assert_eq!(free.cost, 0);
    assert_eq!(free.resources, Resources { ram: 512, cpu: 50, disk: 1024, databases: 1, allocations: 1, backups: 1 });
    assert_eq!(basic().cost, 500);
    assert!(plan_named(&"gold".to_string()).is_none());
}

#[test]
fn renewal_debits_and_extends_together() {
    let mut db = Database::new();
    let mut queue = QueueService::new();
    funded(&mut db, 1, 540);
    db.create_server_request(&mut queue, 1, "mc".to_string(), basic(), SERVER_ID, 1, NOW).unwrap();
    let before = db.get_server_by_id(SERVER_ID).unwrap().expires_at;
    assert_eq!(before, NOW + 30 * DAY);
    assert_eq!(db.renew_server(1, SERVER_TEXT, 30, NOW + 9), Ok(before + 30 * DAY));
    assert_eq!(db.get_user(1).unwrap().coins, 10);
    assert_eq!(
        db.renew_server(1, SERVER_TEXT, 11, NOW),
        Err(BotError::InsufficientCoins { needed: 11, available: 10 })
    );
    assert_eq!(db.get_server_by_id(SERVER_ID).unwrap().expires_at, before + 30 * DAY);
    assert_eq!(db.renew_server(2, SERVER_TEXT, 1, NOW), Err(BotError::PermissionDenied));
    assert!(matches!(db.renew_server(1, "not-a-uuid", 1, NOW), Err(BotError::InvalidInput(_))));
    assert_eq!(db.renew_server(1, "00000000-0000-0000-0000-000000000001", 1, NOW), Err(BotError::ServerNotFound));
    assert_eq!(db.get_user(1).unwrap().coins, 10);
}

#[test]
fn lookup_by_text_identifier() {
    let mut db = Database::new();
    let s = Server::new_at(SERVER_ID, 1, "a".to_string(), "free".to_string(), Resources::zero(), NOW);
    db.create_server(s).unwrap();
    assert_eq!(db.get_server(SERVER_TEXT).unwrap().unwrap().id, SERVER_ID);
    assert_eq!(db.get_server("67E55044-10B1-426F-9247-BB680E5FE0C8").unwrap().unwrap().id, SERVER_ID);
    assert!(db.get_server("00000000-0000-0000-0000-000000000001").unwrap().is_none());
    assert!(matches!(db.get_server("67e55044"), Err(BotError::InvalidInput(_))));
}

#[test]
fn deletion_removes_record_then_enqueues_cleanup() {
    let mut db = Database::new();
    let mut queue = QueueService::new();
    funded(&mut db, 1, 500);
    db.create_server_request(&mut queue, 1, "mc".to_string(), basic(), SERVER_ID, 1, NOW).unwrap();
    db.record_provisioning(SERVER_ID, Ok(42), NOW).unwrap();
    let _ = queue.dequeue();
    assert_eq!(db.delete_server(&mut queue, 2, SERVER_TEXT, 5, NOW), Err(BotError::PermissionDenied));
    let job = db.delete_server(&mut queue, 1, SERVER_TEXT, 5, NOW).unwrap();
    assert_eq!(job.job_type, JobType::DeleteServer);
    assert_eq!(job.data, JobData { server_id: Some(SERVER_ID), external_id: Some(42) });
    assert!(db.get_server_by_id(SERVER_ID).is_none());
    assert_eq!(queue.get_queue_length(), 1);
    assert!(matches!(plan_job(&db, &job, 3), WorkerAction::Delete { external_id: 42 }));
    assert_eq!(db.delete_server(&mut queue, 1, SERVER_TEXT, 6, NOW), Err(BotError::ServerNotFound));
}

#[test]
fn pending_server_deleted_only_by_cancellation() {
    let mut db = Database::new();
    let mut queue = QueueService::new();
    funded(&mut db, 1, 500);
    db.create_server_request(&mut queue, 1, "mc".to_string(), basic(), SERVER_ID, 1, NOW).unwrap();
    let expiry = db.get_server_by_id(SERVER_ID).unwrap().expires_at;
    assert_eq!(
        db.set_server_status(SERVER_ID, ServerStatus::Deleted, false, NOW),
        Err(BotError::InvalidTransition)
    );
    assert_eq!(
        db.set_server_status(SERVER_ID, ServerStatus::Running, false, NOW),
        Err(BotError::InvalidTransition)
    );
    assert_eq!(db.cancel_server_creation(2, SERVER_ID, NOW), Err(BotError::PermissionDenied));
    assert_eq!(db.cancel_server_creation(1, SERVER_ID, NOW + 3), Ok(()));
    let s = db.get_server_by_id(SERVER_ID).unwrap();
    assert_eq!(s.status, ServerStatus::Deleted);
    assert_eq!(s.expires_at, expiry);
    assert_eq!(
        db.set_server_status(SERVER_ID, ServerStatus::Running, false, NOW),
        Err(BotError::InvalidTransition)
    );
    assert_eq!(db.renew_server(1, SERVER_TEXT, 1, NOW), Err(BotError::ServerNotFound));
}

#[test]
fn lifecycle_table() {
    let (c, r, s, st, d) = (
        ServerStatus::Creating,
        ServerStatus::Running,
        ServerStatus::Suspended,
        ServerStatus::Stopped,
        ServerStatus::Deleted,
    );
    assert!(can_transition(c, r, false));
    assert!(can_transition(c, s, false));
    assert!(!can_transition(c, d, false));
    assert!(can_transition(c, d, true));
    assert!(can_transition(r, s, false));
    assert!(can_transition(s, r, false));
    assert!(can_transition(st, d, false));
    assert!(!can_transition(r, st, false));
    assert!(!can_transition(st, r, false));
    assert!(!can_transition(d, r, true));
    assert!(!can_transition(d, c, false));
}

#[test]
fn server_records() {
    let mut s = Server::new_at(SERVER_ID, 1, "a".to_string(), "free".to_string(), Resources::zero(), NOW);
    assert_eq!(s.expires_at, NOW + 30 * DAY);
    assert!(!s.is_expired_at(NOW + 30 * DAY));
    assert!(s.is_expired_at(NOW + 30 * DAY + 1));
    s.extend_expiry_at(2, NOW + 5);
    assert_eq!(s.expires_at, NOW + 32 * DAY);
    assert_eq!(s.updated_at, NOW + 5);
    assert!(s.mark_running(9, NOW));
    assert!(!s.mark_running(10, NOW));
    assert_eq!(s.pterodactyl_id, Some(9));
    assert!(!s.transition(ServerStatus::Stopped, false, NOW));
    assert!(s.transition(ServerStatus::Suspended, false, NOW));
    assert!(s.transition(ServerStatus::Running, false, NOW));
    assert!(!s.transition(ServerStatus::Creating, false, NOW));
}

#[test]
fn fresh_servers_get_distinct_version_four_ids() {
    let a = Server::new(1, "a".to_string(), "free".to_string(), Resources::zero());
    let b = Server::new(1, "b".to_string(), "free".to_string(), Resources::zero());
    assert_ne!(a.id, b.id);
    assert_eq!((a.id >> 76) & 0xF, 4);
    assert_eq!(a.expires_at, a.created_at + 30 * DAY);
    assert_eq!(a.updated_at, a.created_at);
    assert!(!a.is_expired());
}

#[test]
fn queue_is_fifo_with_positions() {
    let mut q = QueueService::new();
    let d = JobData { server_id: None, external_id: None };
    let a = QueueJob::new_at(1, JobType::Login, 10, d, NOW);
    let b = QueueJob::new_at(2, JobType::Login, 20, d, NOW);
    let c = QueueJob::new_at(3, JobType::Login, 20, d, NOW);
    q.enqueue(a);
    q.enqueue(b);
    q.enqueue(c);
    assert_eq!(q.get_queue_position(20), Some(2));
    assert_eq!(q.get_queue_position(30), None);
    assert_eq!(q.dequeue(), Some(a));
    assert_eq!(q.get_queue_position(20), Some(1));
    assert_eq!(queue_position(&vec![a, b, c], 20), Some(2));
    assert_eq!(q.dequeue(), Some(b));
    assert_eq!(q.dequeue(), Some(c));
    assert_eq!(q.dequeue(), None);
    assert_eq!(q.get_queue_length(), 0);
    let fresh = QueueJob::new(JobType::CreateServer, 5, d);
    assert!(fresh.created_at > 1_600_000_000);
}

#[test]
fn user_servers_in_creation_order() {
    let mut db = Database::new();
    for (id, owner) in [(1u128, 1u64), (2, 2), (3, 1)] {
        db.create_server(Server::new_at(id, owner, format!("s{}", id), "free".to_string(), Resources::zero(), NOW)).unwrap();
    }
    let mine: Vec<u128> = db.get_user_servers(1).iter().map(|s| s.id).collect();
    assert_eq!(mine, vec![1, 3]);
    assert!(db.get_user_servers(9).is_empty());
    let dup = Server::new_at(2, 1, "x".to_string(), "free".to_string(), Resources::zero(), NOW);
    assert_eq!(db.create_server(dup), Err(BotError::AlreadyExists));
    let mut running = Server::new_at(9, 1, "y".to_string(), "free".to_string(), Resources::zero(), NOW);
    assert!(running.mark_running(4, NOW));
    assert_eq!(db.create_server(running), Err(BotError::InvalidTransition));
}

#[test]
fn creation_request_describes_the_server() {
    let r = Resources { ram: 1024, cpu: 100, disk: 2048, databases: 2, allocations: 3, backups: 4 };
    let s = Server::new_at(SERVER_ID, 1, "mc".to_string(), "basic".to_string(), r, NOW);
    let req = CreateServerRequest::for_server(&s, 12);
    assert_eq!(req.name, "mc");
    assert_eq!(req.user, 12);
    assert_eq!(req.egg, 1);
    assert_eq!(req.limits.memory, 1024);
    assert_eq!(req.limits.swap, 0);
    assert_eq!(req.limits.io, 500);
    assert_eq!(req.limits.cpu, 100);
    assert_eq!(req.limits.disk, 2048);
    assert_eq!(req.feature_limits.allocations, 3);
    assert_eq!(req.allocation.default, 1);
    assert_eq!(req.docker_image, "quay.io/pterodactyl/core:java");
    assert_eq!(req.environment.to_string(), "{}");
}

fn config(admins: Vec<u64>) -> Config {
    Config {
        discord_token: String::new(),
        discord_app_id: 1,
        pterodactyl_url: String::new(),
        pterodactyl_api_key: String::new(),
        mongodb_uri: String::new(),
        redis_uri: String::new(),
        stripe_secret_key: String::new(),
        stripe_public_key: String::new(),
        afk_page_url: String::new(),
        linkvertise_verify_url: String::new(),
        admin_discord_ids: admins,
        enable_transfer: true,
        enable_renew: true,
        enable_delete: true,
        store_config: StoreConfig::default(),
    }
}

#[test]
fn admins_are_listed() {
    let c = config(vec![4, 8]);
    assert!(c.is_admin(8));
    assert!(!c.is_admin(5));
    assert!(!config(vec![]).is_admin(0));
}

#[test]
fn store_purchase() {
    let store = StoreConfig::default();
    assert_eq!(store.categories.len(), 3);
    assert_eq!(store.find_item(&"basic_server".to_string()), Some(1));
    assert_eq!(store.find_item(&"nothing".to_string()), None);
    let mut db = Database::new();
    db.create_user(1, NOW).unwrap();
    db.credit(1, 150, NOW).unwrap();
    assert_eq!(db.buy_store_item(&store, 1, &"ram_512".to_string(), NOW), Ok(()));
    let u = db.get_user(1).unwrap();
    assert_eq!(u.coins, 50);
    assert_eq!(u.resources.ram, 512);
    assert_eq!(
        db.buy_store_item(&store, 1, &"basic_server".to_string(), NOW),
        Err(BotError::InsufficientCoins { needed: 500, available: 50 })
    );
    assert_eq!(db.buy_store_item(&store, 1, &"nothing".to_string(), NOW), Err(BotError::ItemNotFound));
    assert_eq!(db.buy_store_item(&store, 2, &"ram_512".to_string(), NOW), Err(BotError::UserNotFound));
    let mut off = StoreConfig::default();
    off.items[0].enabled = false;
    assert_eq!(off.find_item(&"ram_512".to_string()), None);
}

#[test]
fn checkout_is_switched_off() {
    let s = StripeService::new(&config(vec![]));
    assert_eq!(
        s.create_checkout_session(499, 100, 1),
        Err(BotError::Stripe("Stripe service temporarily disabled".to_string()))
    );
    assert!(matches!(s.get_session("cs"), Err(BotError::Stripe(_))));
}

#[test]
fn store_listing_by_category() {
    let mut store = StoreConfig::default();
    assert_eq!(store.visible_items(None), vec![0, 1]);
    assert_eq!(store.visible_items(Some("servers")), vec![1]);
    assert_eq!(store.visible_items(Some("RESOURCES")), vec![0]);
    assert_eq!(store.visible_items(Some("Addons")), Vec::<usize>::new());
    assert_eq!(store.category_counts(), vec![1, 1, 0]);
    store.items[1].enabled = false;
    assert_eq!(store.visible_items(Some("Servers")), Vec::<usize>::new());
    assert_eq!(store.category_counts(), vec![1, 0, 0]);
    assert_eq!(store.count_category(&"resources".to_string()), 0);
}

#[test]
fn viewing_a_server_requires_ownership() {
    let mut db = Database::new();
    let s = Server::new_at(SERVER_ID, 1, "a".to_string(), "free".to_string(), Resources::zero(), NOW);
    db.create_server(s).unwrap();
    assert_eq!(db.owned_server(1, SERVER_TEXT).unwrap().name, "a");
    assert!(matches!(db.owned_server(2, SERVER_TEXT), Err(BotError::PermissionDenied)));
    assert!(matches!(db.owned_server(1, "00000000-0000-0000-0000-000000000002"), Err(BotError::ServerNotFound)));
    assert!(matches!(db.owned_server(1, "zz"), Err(BotError::InvalidInput(_))));
}
