use backend::auth::models::Claims;
use backend::clock::Timestamp;
use backend::error::{ControlError, ErrorKind};
use backend::ids::{id_text, parse_id};
use backend::robot::client_routes::{
    acquire_lock, acquire_lock_at, release_lock, release_lock_at, LockGrant,
};
use backend::robot::models::QueuedRoute;
use backend::robot::state::{LockInfo, SharedRobotState};
use backend::robot::{sweep_at, DispatchOutcome};

fn claims(sub: &str, name: &str, role: &str) -> Claims {
    Claims { sub: sub.to_string(), name: name.to_string(), role: role.to_string(), exp: 4_000_000_000 }
}

fn wall_now() -> Timestamp {
    Timestamp::from_millis(chrono::Utc::now().timestamp_millis())
}

fn lock(holder: &str, name: &str, expires_at: i64) -> LockInfo {
    LockInfo {
        holder_id: parse_id(holder).expect("a uuid"),
        holder_name: name.to_string(),
        expires_at: Timestamp::from_millis(expires_at),
    }
}

fn some_route() -> QueuedRoute {
    QueuedRoute {
        id: 1,
        start: "A".to_string(),
        destination: "B".to_string(),
        added_at: Timestamp::from_millis(0),
        added_by: "test".to_string(),
    }
}

const U1: &str = "11111111-1111-1111-1111-111111111111";
const U2: &str = "22222222-2222-2222-2222-222222222222";
const U3: &str = "33333333-3333-3333-3333-333333333333";
const U4: &str = "44444444-4444-4444-4444-444444444444";

#[test]
fn test_expired_lock_allows_new_acquisition() {
    let mut state = SharedRobotState::new();
    let now = wall_now();
    state.manual_lock = Some(lock(U3, "Old User", now.millis - 5_000));

    let granted = acquire_lock(&mut state, &claims(U1, "New User", "Operator"));

    assert_eq!(granted, Ok(LockGrant::Acquired));
    assert_eq!(state.manual_lock.as_ref().unwrap().holder_name, "New User");
}

#[test]
fn test_lock_renewal_extends_expiry() {
    let mut state = SharedRobotState::new();
    let user = claims(U2, "Lock User", "Operator");
    let first = Timestamp::from_millis(1_700_000_000_000);
    let second = Timestamp::from_millis(1_700_000_000_050);

    assert_eq!(acquire_lock_at(&mut state, &user, first), Ok(LockGrant::Acquired));
    let first_expiry = state.manual_lock.as_ref().unwrap().expires_at;
    assert_eq!(first_expiry.millis, 1_700_000_030_000);

    assert_eq!(acquire_lock_at(&mut state, &user, second), Ok(LockGrant::Acquired));
    let second_expiry = state.manual_lock.as_ref().unwrap().expires_at;

    assert_eq!(second_expiry.millis, 1_700_000_030_050);
    assert!(second_expiry.millis > first_expiry.millis);
    assert_eq!(state.manual_lock.as_ref().unwrap().holder_id, parse_id(U2).unwrap());
}

#[test]
fn renewal_by_the_wall_clock_never_shortens_the_lock() {
    let mut state = SharedRobotState::new();
    let user = claims(U2, "Lock User", "Operator");
    assert!(acquire_lock(&mut state, &user).is_ok());
    let first_expiry = state.manual_lock.as_ref().unwrap().expires_at;
    assert!(acquire_lock(&mut state, &user).is_ok());
    let second_expiry = state.manual_lock.as_ref().unwrap().expires_at;
    assert!(second_expiry.millis >= first_expiry.millis);
}

#[test]
fn renewal_at_the_same_instant_keeps_the_expiry() {
    let mut state = SharedRobotState::new();
    let user = claims(U2, "Lock User", "Operator");
    let now = Timestamp::from_millis(5_000);
    assert!(acquire_lock_at(&mut state, &user, now).is_ok());
    assert!(acquire_lock_at(&mut state, &user, now).is_ok());
    assert_eq!(state.manual_lock.as_ref().unwrap().expires_at.millis, 35_000);
}

#[test]
fn lock_expiry_saturates_at_the_end_of_time() {
    let mut state = SharedRobotState::new();
    let user = claims(U2, "Lock User", "Operator");
    let now = Timestamp::from_millis(i64::MAX - 10);
    assert!(acquire_lock_at(&mut state, &user, now).is_ok());
    assert_eq!(state.manual_lock.as_ref().unwrap().expires_at.millis, i64::MAX);
}

#[test]
fn test_viewer_cannot_acquire_lock() {
    let mut state = SharedRobotState::new();
    let granted = acquire_lock(&mut state, &claims(U1, "Test User", "Viewer"));
    assert_eq!(granted, Err(ControlError::Forbidden));
    assert_eq!(ControlError::Forbidden.status_code(), 403);
    assert!(state.manual_lock.is_none());
}

#[test]
fn unknown_role_cannot_acquire_lock() {
    let mut state = SharedRobotState::new();
    let granted = acquire_lock_at(&mut state, &claims(U1, "Test User", "admin"), Timestamp::from_millis(0));
    assert_eq!(granted, Err(ControlError::Forbidden));
}

#[test]
fn operator_cannot_acquire_while_route_active() {
    let mut state = SharedRobotState::new();
    state.active_route = Some(some_route());
    let granted = acquire_lock_at(&mut state, &claims(U1, "Op", "Operator"), Timestamp::from_millis(0));
    assert_eq!(granted, Err(ControlError::RouteActive));
    let error = granted.unwrap_err();
    assert_eq!(error.kind(), ErrorKind::DomainConflict);
    assert_eq!(error.status_code(), 200);
    assert_eq!(
        error.message(),
        Some("Cannot acquire lock while automated route is active".to_string())
    );
    assert!(state.manual_lock.is_none());
}

#[test]
fn admin_acquires_while_route_active() {
    let mut state = SharedRobotState::new();
    state.active_route = Some(some_route());
    let granted = acquire_lock_at(&mut state, &claims(U1, "Boss", "Admin"), Timestamp::from_millis(0));
    assert_eq!(granted, Ok(LockGrant::AcquiredOverActiveRoute));
    assert_eq!(
        LockGrant::AcquiredOverActiveRoute.message(),
        "Admin lock acquired while automated route is active"
    );
    assert_eq!(LockGrant::Acquired.message(), "Lock acquired");
    assert_eq!(state.manual_lock.as_ref().unwrap().holder_name, "Boss");
}

#[test]
fn operator_is_refused_while_another_holds_the_lock() {
    let mut state = SharedRobotState::new();
    state.manual_lock = Some(lock(U3, "Locker", 40_000));
    let granted = acquire_lock_at(&mut state, &claims(U1, "Op", "Operator"), Timestamp::from_millis(10_000));
    assert_eq!(granted, Err(ControlError::HeldBy { holder_name: "Locker".to_string() }));
    assert_eq!(granted.unwrap_err().message(), Some("Lock held by Locker".to_string()));
    assert_eq!(state.manual_lock, Some(lock(U3, "Locker", 40_000)));
}

#[test]
fn admin_takes_the_lock_over() {
    let mut state = SharedRobotState::new();
    state.manual_lock = Some(lock(U3, "Locker", 40_000));
    let granted = acquire_lock_at(&mut state, &claims(U1, "Boss", "Admin"), Timestamp::from_millis(10_000));
    assert_eq!(granted, Ok(LockGrant::Acquired));
    assert_eq!(state.manual_lock, Some(lock(U1, "Boss", 40_000)));
}

#[test]
fn lock_at_the_instant_of_expiry_is_not_effective() {
    let mut state = SharedRobotState::new();
    state.manual_lock = Some(lock(U3, "Locker", 10_000));
    assert!(state.effective_lock_at(Timestamp::from_millis(9_999)).is_some());
    assert!(state.effective_lock_at(Timestamp::from_millis(10_000)).is_none());
    assert!(state.is_locked_at(Timestamp::from_millis(9_999)));
    assert!(!state.is_locked_at(Timestamp::from_millis(10_000)));
    let granted = acquire_lock_at(&mut state, &claims(U1, "Op", "Operator"), Timestamp::from_millis(10_000));
    assert_eq!(granted, Ok(LockGrant::Acquired));
}

#[test]
fn subject_that_is_no_uuid_gets_no_lock() {
    let mut state = SharedRobotState::new();
    let granted = acquire_lock_at(&mut state, &claims("user-1", "Op", "Operator"), Timestamp::from_millis(0));
    assert_eq!(granted, Err(ControlError::InvalidUserId));
    assert_eq!(granted.unwrap_err().message(), Some("Invalid User ID".to_string()));
    assert!(state.manual_lock.is_none());
}

#[test]
fn test_only_holder_can_release_lock() {
    let mut state = SharedRobotState::new();
    let now = wall_now();
    state.manual_lock = Some(lock(U4, "Holder", now.millis + 30_000));

    let released = release_lock(&mut state, &claims("55555555-5555-5555-5555-555555555555", "Other", "Operator"));

    assert_eq!(released, Err(ControlError::NotHolder));
    assert_eq!(released.unwrap_err().message(), Some("You do not hold the lock".to_string()));
    assert!(state.manual_lock.is_some());
}

#[test]
fn holder_releases_the_lock() {
    let mut state = SharedRobotState::new();
    state.manual_lock = Some(lock(U4, "Holder", 30_000));
    let released = release_lock_at(&mut state, &claims(U4, "Holder", "Operator"), Timestamp::from_millis(1_000));
    assert_eq!(released, Ok(()));
    assert!(state.manual_lock.is_none());
}

#[test]
fn viewer_cannot_release() {
    let mut state = SharedRobotState::new();
    state.manual_lock = Some(lock(U4, "Holder", 30_000));
    let released = release_lock_at(&mut state, &claims(U4, "Holder", "Viewer"), Timestamp::from_millis(1_000));
    assert_eq!(released, Err(ControlError::Forbidden));
    assert!(state.manual_lock.is_some());
}

#[test]
fn expired_lock_cannot_be_released() {
    let mut state = SharedRobotState::new();
    state.manual_lock = Some(lock(U4, "Holder", 30_000));
    let released = release_lock_at(&mut state, &claims(U4, "Holder", "Operator"), Timestamp::from_millis(30_000));
    assert_eq!(released, Err(ControlError::NotHolder));
    assert!(state.manual_lock.is_some());
}

#[test]
fn holder_is_matched_by_the_canonical_text_of_the_id() {
    let held = lock(U4, "Holder", 30_000);
    assert!(held.is_held_by(U4));
    assert!(!held.is_held_by("44444444444444444444444444444444"));
    assert!(!held.is_held_by(U3));
    let state = {
        let mut s = SharedRobotState::new();
        s.manual_lock = Some(held);
        s
    };
    assert!(state.holds_lock_at(U4, Timestamp::from_millis(29_999)));
    assert!(!state.holds_lock_at(U4, Timestamp::from_millis(30_000)));
}

#[test]
fn identifiers_are_read_and_written_as_uuids() {
    let id = parse_id(U4).expect("a uuid");
    assert_eq!(id, 0x4444_4444_4444_4444_4444_4444_4444_4444u128);
    assert_eq!(id_text(id), U4);
    assert_eq!(id_text(0xABu128), "00000000-0000-0000-0000-0000000000ab");
    assert_eq!(parse_id("44444444444444444444444444444444"), Some(id));
    assert_eq!(parse_id("user-1"), None);
    assert_eq!(parse_id(""), None);
}

#[test]
fn test_clear_expired_lock() {
    let mut state = SharedRobotState::new();
    let now = wall_now();
    state.manual_lock = Some(lock(U3, "Expired User", now.millis - 5_000));
    let cleared = state.clear_expired_lock();
    assert!(cleared);
    assert!(state.manual_lock.is_none());
}

#[test]
fn test_clear_expired_lock_preserves_active() {
    let mut state = SharedRobotState::new();
    let now = wall_now();
    state.manual_lock = Some(lock(U3, "Active User", now.millis + 30_000));
    let cleared = state.clear_expired_lock();
    assert!(!cleared);
    assert!(state.manual_lock.is_some());
}

#[test]
fn clearing_without_a_lock_clears_nothing() {
    let mut state = SharedRobotState::new();
    assert!(!state.clear_expired_lock_at(Timestamp::from_millis(0)));
    assert!(!state.clear_expired_lock());
    assert!(state.manual_lock.is_none());
}

#[test]
fn sweeper_dispatches_after_clearing_an_expired_lock() {
    let mut state = SharedRobotState::new();
    let now = Timestamp::from_millis(100_000);
    state.manual_lock = Some(lock(U3, "Expired User", 99_000));
    state.last_state_update = Some(now);
    state.current_state = Some(backend::robot::models::RobotState {
        system_health: "OK".to_string(),
        battery_level: 100,
        drive_mode: "IDLE".to_string(),
        cargo_status: "EMPTY".to_string(),
        current_position: "kitchen".to_string(),
        last_node: None,
        target_node: None,
    });
    state.queue.push_back(some_route());
    let _rx = state.command_sender.subscribe();

    let swept = sweep_at(&mut state, now);

    assert_eq!(swept, Some(DispatchOutcome::Dispatched));
    assert!(state.manual_lock.is_none());
    assert_eq!(state.active_route, Some(some_route()));
    assert_eq!(state.queue.len(), 0);
}

#[test]
fn sweeper_leaves_an_effective_lock_and_does_not_dispatch() {
    let mut state = SharedRobotState::new();
    let now = Timestamp::from_millis(100_000);
    state.manual_lock = Some(lock(U3, "Active User", 130_000));
    state.queue.push_back(some_route());
    assert_eq!(sweep_at(&mut state, now), None);
    assert!(state.manual_lock.is_some());
    assert_eq!(state.queue.len(), 1);
    let mut empty = SharedRobotState::new();
    assert_eq!(sweep_at(&mut empty, now), None);
}
