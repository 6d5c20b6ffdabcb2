use backend::clock::Timestamp;
use backend::error::{ControlError, ErrorKind};
use backend::robot::client_routes::{
    check_robot_connection, check_robot_connection_at, get_status, get_status_at, health_url, Probe,
};
use backend::robot::models::{LastRoute, QueuedRoute, RobotEvent, RobotState};
use backend::robot::robot_routes::{
    check_api_key, client_address, handle_robot_event, register_robot, robot_url,
    update_robot_state, update_robot_state_at, ForwardedAddress, RobotRegistration,
};
use backend::robot::state::{LockInfo, SharedRobotState};
use backend::robot::DispatchOutcome;

const KEY: &str = "test_robot_api_key";

fn telemetry(drive_mode: &str, battery: u8, position: &str, last: Option<&str>, target: Option<&str>) -> RobotState {
    RobotState {
        system_health: "OK".to_string(),
        battery_level: battery,
        drive_mode: drive_mode.to_string(),
        cargo_status: "EMPTY".to_string(),
        current_position: position.to_string(),
        last_node: last.map(|s| s.to_string()),
        target_node: target.map(|s| s.to_string()),
    }
}

fn route(id: u128, start: &str, destination: &str) -> QueuedRoute {
    QueuedRoute {
        id,
        start: start.to_string(),
        destination: destination.to_string(),
        added_at: Timestamp::from_millis(0),
        added_by: "test".to_string(),
    }
}

fn wall_now() -> Timestamp {
    Timestamp::from_millis(chrono::Utc::now().timestamp_millis())
}

#[test]
fn test_robot_state_update_records_timestamp() {
    let mut state = SharedRobotState::new();
    assert!(state.last_state_update.is_none());
    let before = wall_now();

    let posted = update_robot_state(&mut state, Some(KEY), KEY, telemetry("IDLE", 80, "lobby", None, None));

    let after = wall_now();
    assert_eq!(posted, Ok(DispatchOutcome::NotReady));
    let ts = state.last_state_update.expect("last_state_update should be set after state update");
    assert!(ts.millis >= before.millis && ts.millis <= after.millis);
}

#[test]
fn test_active_route_clears_on_idle() {
    let mut state = SharedRobotState::new();
    state.active_route = Some(route(1, "A", "B"));

    let posted = update_robot_state(&mut state, Some(KEY), KEY, telemetry("IDLE", 75, "B", Some("A"), Some("B")));

    assert!(posted.is_ok());
    assert!(state.active_route.is_none());
}

#[test]
fn test_active_route_persists_when_driving() {
    let mut state = SharedRobotState::new();
    state.active_route = Some(route(1, "A", "B"));

    let posted = update_robot_state(
        &mut state,
        Some(KEY),
        KEY,
        telemetry("NAVIGATING", 75, "hallway", Some("A"), Some("B")),
    );

    assert_eq!(posted, Ok(DispatchOutcome::NotReady));
    assert_eq!(state.active_route, Some(route(1, "A", "B")));
}

#[test]
fn test_update_robot_state_webhook() {
    let mut state = SharedRobotState::new();
    let payload = telemetry("IDLE", 85, "hallway", Some("kitchen"), Some("pharmacy"));

    let posted = update_robot_state(&mut state, Some(KEY), KEY, payload.clone());

    assert!(posted.is_ok());
    let s = state.current_state.as_ref().expect("telemetry is stored");
    assert_eq!(s.battery_level, 85);
    assert_eq!(*s, payload);
}

#[test]
fn completed_route_makes_way_for_the_next() {
    let now = Timestamp::from_millis(500_000);
    let mut state = SharedRobotState::new();
    state.active_route = Some(route(1, "A", "B"));
    state.queue.push_back(route(2, "B", "C"));
    state.queue.push_back(route(3, "C", "D"));
    let mut rx = state.command_sender.subscribe();

    let posted = update_robot_state_at(&mut state, Some(KEY), KEY, telemetry("IDLE", 75, "B", None, None), now);

    assert_eq!(posted, Ok(DispatchOutcome::Dispatched));
    assert_eq!(state.active_route, Some(route(2, "B", "C")));
    assert_eq!(state.queue.len(), 1);
    assert_eq!(state.last_state_update, Some(now));
    assert_eq!(
        rx.try_recv().ok(),
        Some(backend::robot::models::RobotCommand::Navigate {
            start: "B".to_string(),
            destination: "C".to_string()
        })
    );
}

#[test]
fn repeated_idle_posts_keep_the_slot_empty_while_the_queue_is_empty() {
    let mut state = SharedRobotState::new();
    state.active_route = Some(route(1, "A", "B"));
    for k in 0..3 {
        let now = Timestamp::from_millis(1_000 * k);
        let posted = update_robot_state_at(&mut state, Some(KEY), KEY, telemetry("IDLE", 50, "B", None, None), now);
        assert_eq!(posted, Ok(DispatchOutcome::NotReady));
        assert!(state.active_route.is_none());
        state.active_route = Some(route(1, "A", "B"));
    }
}

#[test]
fn wrong_api_key_changes_nothing() {
    let mut state = SharedRobotState::new();
    state.active_route = Some(route(1, "A", "B"));
    let now = Timestamp::from_millis(500_000);

    let posted = update_robot_state_at(&mut state, Some("nope"), KEY, telemetry("IDLE", 75, "B", None, None), now);

    assert_eq!(posted, Err(ControlError::InvalidApiKey));
    let error = posted.unwrap_err();
    assert_eq!(error.kind(), ErrorKind::AuthInvalid);
    assert_eq!(error.status_code(), 401);
    assert_eq!(error.message(), Some("Invalid API Key".to_string()));
    assert!(state.current_state.is_none());
    assert!(state.last_state_update.is_none());
    assert_eq!(state.active_route, Some(route(1, "A", "B")));
}

#[test]
fn missing_api_key_changes_nothing() {
    let mut state = SharedRobotState::new();
    let posted = update_robot_state(&mut state, None, KEY, telemetry("IDLE", 75, "B", None, None));
    assert_eq!(posted, Err(ControlError::MissingApiKey));
    assert_eq!(posted.unwrap_err().kind(), ErrorKind::AuthMissing);
    assert_eq!(ControlError::MissingApiKey.status_code(), 401);
    assert!(state.current_state.is_none());
}

#[test]
fn api_key_must_match_exactly() {
    assert_eq!(check_api_key(Some(KEY), KEY), Ok(()));
    assert_eq!(check_api_key(Some("test_robot_api_keY"), KEY), Err(ControlError::InvalidApiKey));
    assert_eq!(check_api_key(Some("test_robot_api_ke"), KEY), Err(ControlError::InvalidApiKey));
    assert_eq!(check_api_key(Some("test_robot_api_key "), KEY), Err(ControlError::InvalidApiKey));
    assert_eq!(check_api_key(Some(""), KEY), Err(ControlError::InvalidApiKey));
    assert_eq!(check_api_key(Some(""), ""), Ok(()));
    assert_eq!(check_api_key(None, ""), Err(ControlError::MissingApiKey));
}

#[test]
fn events_need_the_key_and_change_nothing() {
    let event = RobotEvent { event: "ARRIVED".to_string(), timestamp: Timestamp::from_millis(1) };
    assert_eq!(handle_robot_event(Some(KEY), KEY, &event), Ok(()));
    assert_eq!(handle_robot_event(Some("x"), KEY, &event), Err(ControlError::InvalidApiKey));
    assert_eq!(handle_robot_event(None, KEY, &event), Err(ControlError::MissingApiKey));
}

#[test]
fn registration_records_the_url_once() {
    let mut state = SharedRobotState::new();
    let registration = RobotRegistration::new(8080);
    assert_eq!(registration.port(), 8080);
    assert_eq!(register_robot(&mut state, Some(KEY), KEY, "10.0.0.99", &registration), Ok(true));
    assert_eq!(state.robot_url, Some("http://10.0.0.99:8080".to_string()));
    assert_eq!(register_robot(&mut state, Some(KEY), KEY, "10.0.0.99", &registration), Ok(false));
    assert_eq!(register_robot(&mut state, Some(KEY), KEY, "10.0.0.7", &registration), Ok(true));
    assert_eq!(state.robot_url, Some("http://10.0.0.7:8080".to_string()));
    assert_eq!(
        register_robot(&mut state, Some("bad"), KEY, "10.0.0.8", &registration),
        Err(ControlError::InvalidApiKey)
    );
    assert_eq!(state.robot_url, Some("http://10.0.0.7:8080".to_string()));
}

#[test]
fn robot_url_is_scheme_address_and_port() {
    assert_eq!(robot_url("192.168.1.5", 8000), "http://192.168.1.5:8000");
    assert_eq!(robot_url("::1", 0), "http://::1:0");
    assert_eq!(robot_url("h", 65535), "http://h:65535");
    assert_eq!(robot_url("h", 7), "http://h:7");
    assert_eq!(robot_url("h", 10), "http://h:10");
}

#[test]
fn forwarded_headers_decide_the_address() {
    let peer = || "172.17.0.1".to_string();
    let addr = |s: &str| ForwardedAddress::Address(s.to_string());
    assert_eq!(client_address(addr("1.2.3.4"), addr("5.6.7.8"), peer()), "1.2.3.4");
    assert_eq!(client_address(ForwardedAddress::Absent, addr("5.6.7.8"), peer()), "5.6.7.8");
    assert_eq!(client_address(ForwardedAddress::Unreadable, addr("5.6.7.8"), peer()), "172.17.0.1");
    assert_eq!(client_address(ForwardedAddress::Absent, ForwardedAddress::Unreadable, peer()), "172.17.0.1");
    assert_eq!(client_address(ForwardedAddress::Absent, ForwardedAddress::Absent, peer()), "172.17.0.1");
}

#[test]
fn test_status_hides_expired_lock() {
    let mut state = SharedRobotState::new();
    state.manual_lock = Some(LockInfo {
        holder_id: 1,
        holder_name: "Old User".to_string(),
        expires_at: Timestamp::from_millis(wall_now().millis - 10_000),
    });
    let status = get_status(&state);
    assert_eq!(status.manual_lock_holder_name, None);
}

#[test]
fn test_status_shows_active_lock() {
    let mut state = SharedRobotState::new();
    state.manual_lock = Some(LockInfo {
        holder_id: 1,
        holder_name: "Active User".to_string(),
        expires_at: Timestamp::from_millis(wall_now().millis + 30_000),
    });
    let status = get_status(&state);
    assert_eq!(status.manual_lock_holder_name, Some("Active User".to_string()));
}

#[test]
fn test_status_robot_disconnected_when_no_updates() {
    let state = SharedRobotState::new();
    let status = get_status(&state);
    assert!(!status.robot_connected);
    assert_eq!(status.system_health, "UNKNOWN");
    assert_eq!(status.battery_level, 0);
    assert_eq!(status.drive_mode, "UNKNOWN");
    assert_eq!(status.cargo_status, "UNKNOWN");
    assert_eq!(status.position, "UNKNOWN");
    assert_eq!(status.last_route, None);
}

#[test]
fn test_status_robot_connected_after_update() {
    let mut state = SharedRobotState::new();
    let posted = update_robot_state(&mut state, Some(KEY), KEY, telemetry("IDLE", 90, "kitchen", None, None));
    assert!(posted.is_ok());
    let status = get_status(&state);
    assert!(status.robot_connected);
    assert_eq!(status.battery_level, 90);
    assert_eq!(status.position, "kitchen");
}

#[test]
fn test_status_robot_disconnected_when_stale() {
    let mut state = SharedRobotState::new();
    state.last_state_update = Some(Timestamp::from_millis(wall_now().millis - 60_000));
    let status = get_status(&state);
    assert!(!status.robot_connected);
}

#[test]
fn status_reports_the_last_leg_only_with_both_ends() {
    let now = Timestamp::from_millis(10_000);
    let mut state = SharedRobotState::new();
    state.current_state = Some(telemetry("MANUAL", 42, "hall", Some("A"), Some("B")));
    state.last_state_update = Some(now);
    let status = get_status_at(&state, now);
    assert_eq!(
        status.last_route,
        Some(LastRoute { start_node: "A".to_string(), end_node: "B".to_string() })
    );
    assert_eq!(status.drive_mode, "MANUAL");
    assert_eq!(status.battery_level, 42);
    assert!(status.robot_connected);
    state.current_state = Some(telemetry("MANUAL", 42, "hall", Some("A"), None));
    assert_eq!(get_status_at(&state, now).last_route, None);
    state.current_state = Some(telemetry("MANUAL", 42, "hall", None, Some("B")));
    assert_eq!(get_status_at(&state, now).last_route, None);
}

#[test]
fn test_check_robot_connection_detects_stale() {
    let mut state = SharedRobotState::new();
    state.robot_url = Some("http://10.0.0.99:8080".to_string());
    state.last_state_update = Some(Timestamp::from_millis(wall_now().millis - 60_000));
    assert_eq!(health_url(&state), Some("http://10.0.0.99:8080/health".to_string()));

    let report = check_robot_connection(&state, Probe::Unreachable { reason: "timed out".to_string() });

    assert!(!report.connected);
    assert!(!report.reached);
    assert_eq!(report.url, Some("http://10.0.0.99:8080".to_string()));
    assert_eq!(report.message, Some("Failed to reach robot: timed out".to_string()));
    assert_eq!(report.robot_status, None);
}

#[test]
fn connection_check_reports_the_probe_and_the_freshness() {
    let now = Timestamp::from_millis(10_000);
    let mut state = SharedRobotState::new();
    assert_eq!(health_url(&state), None);
    let report = check_robot_connection_at(&state, Probe::NoUrl, now);
    assert!(!report.reached && !report.connected);
    assert_eq!(report.message, Some("No robot URL registered".to_string()));
    assert_eq!(report.url, None);
    state.robot_url = Some("http://r:1".to_string());
    state.last_state_update = Some(now);
    let report = check_robot_connection_at(&state, Probe::Answered { status: 204 }, now);
    assert!(report.reached && report.connected);
    assert_eq!(report.robot_status, Some(204));
    assert_eq!(report.url, Some("http://r:1".to_string()));
    assert_eq!(report.message, None);
}
