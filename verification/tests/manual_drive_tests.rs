use backend::auth::models::Claims;
use backend::clock::Timestamp;
use backend::robot::client_routes::{
    handle_manual_frame, handle_manual_frame_at, preempt_at, FrameOutcome, PreemptOutcome, WsParams,
};
use backend::robot::models::{CommandKind, QueuedRoute, RobotCommand};
use backend::robot::state::{LockInfo, SharedRobotState};

const ADMIN_ID: &str = "aaaaaaaa-aaaa-aaaa-aaaa-aaaaaaaaaaaa";
const OPERATOR_ID: &str = "bbbbbbbb-bbbb-bbbb-bbbb-bbbbbbbbbbbb";

fn claims(sub: &str, name: &str, role: &str) -> Claims {
    Claims { sub: sub.to_string(), name: name.to_string(), role: role.to_string(), exp: 4_000_000_000 }
}

fn lock_of(sub: &str, name: &str, expires_at: i64) -> LockInfo {
    LockInfo {
        holder_id: backend::ids::parse_id(sub).expect("a uuid"),
        holder_name: name.to_string(),
        expires_at: Timestamp::from_millis(expires_at),
    }
}

fn route(id: u128, start: &str, destination: &str) -> QueuedRoute {
    QueuedRoute {
        id,
        start: start.to_string(),
        destination: destination.to_string(),
        added_at: Timestamp::from_millis(0),
        added_by: "test".to_string(),
    }
}

fn navigate(start: &str, destination: &str) -> RobotCommand {
    RobotCommand::Navigate { start: start.to_string(), destination: destination.to_string() }
}

fn drive() -> RobotCommand {
    RobotCommand::DriveCommand {
        linear_velocity: 0.5f64.to_bits(),
        angular_velocity: (-0.25f64).to_bits(),
    }
}

fn every_command() -> Vec<RobotCommand> {
    vec![
        navigate("A", "B"),
        RobotCommand::Cancel,
        drive(),
        RobotCommand::Led { enabled: true, r: 1, g: 2, b: 3, brightness: 4 },
        RobotCommand::AudioBeep { hz: 440, ms: 100 },
        RobotCommand::AudioVolume { value: 0.8f32.to_bits() },
    ]
}

#[test]
fn viewer_frames_are_dropped() {
    let now = Timestamp::from_millis(1_000);
    let viewer = claims(OPERATOR_ID, "Vera", "Viewer");
    for command in every_command() {
        let mut state = SharedRobotState::new();
        state.manual_lock = Some(lock_of(OPERATOR_ID, "Vera", 31_000));
        let mut rx = state.command_sender.subscribe();
        assert_eq!(handle_manual_frame_at(&mut state, &viewer, command, now, 1), FrameOutcome::Dropped);
        assert!(rx.try_recv().is_err());
        assert!(state.active_route.is_none());
        assert!(state.manual_lock.is_some());
    }
}

#[test]
fn operator_drives_only_while_holding_an_effective_lock() {
    let operator = claims(OPERATOR_ID, "Olga", "Operator");
    let mut state = SharedRobotState::new();
    let mut rx = state.command_sender.subscribe();

    assert_eq!(
        handle_manual_frame_at(&mut state, &operator, drive(), Timestamp::from_millis(1_000), 1),
        FrameOutcome::Dropped
    );
    state.manual_lock = Some(lock_of(ADMIN_ID, "Someone", 31_000));
    assert_eq!(
        handle_manual_frame_at(&mut state, &operator, drive(), Timestamp::from_millis(1_000), 1),
        FrameOutcome::Dropped
    );
    state.manual_lock = Some(lock_of(OPERATOR_ID, "Olga", 31_000));
    assert_eq!(
        handle_manual_frame_at(&mut state, &operator, drive(), Timestamp::from_millis(31_000), 1),
        FrameOutcome::Dropped
    );
    assert!(rx.try_recv().is_err());

    assert_eq!(
        handle_manual_frame_at(&mut state, &operator, drive(), Timestamp::from_millis(30_999), 1),
        FrameOutcome::Forwarded { delivered: true }
    );
    assert_eq!(rx.try_recv().ok(), Some(drive()));
    assert!(rx.try_recv().is_err());
}

#[test]
fn operator_may_send_nothing_but_drive_commands() {
    let operator = claims(OPERATOR_ID, "Olga", "Operator");
    let now = Timestamp::from_millis(1_000);
    for command in every_command() {
        if command.kind() == CommandKind::DriveCommand {
            continue;
        }
        let mut state = SharedRobotState::new();
        state.manual_lock = Some(lock_of(OPERATOR_ID, "Olga", 31_000));
        state.active_route = Some(route(7, "X", "Y"));
        let mut rx = state.command_sender.subscribe();
        assert_eq!(handle_manual_frame_at(&mut state, &operator, command, now, 1), FrameOutcome::Dropped);
        assert!(rx.try_recv().is_err());
        assert_eq!(state.active_route, Some(route(7, "X", "Y")));
    }
}

#[test]
fn admin_may_send_every_command() {
    let admin = claims(ADMIN_ID, "Ada", "Admin");
    let now = Timestamp::from_millis(1_000);
    for command in every_command() {
        let mut state = SharedRobotState::new();
        let mut rx = state.command_sender.subscribe();
        let outcome = handle_manual_frame_at(&mut state, &admin, command.clone(), now, 1);
        if command.kind() == CommandKind::Navigate {
            assert_eq!(
                outcome,
                FrameOutcome::Preempted { outcome: PreemptOutcome { cancelled: None, delivered: true } }
            );
        } else {
            assert_eq!(outcome, FrameOutcome::Forwarded { delivered: true });
            assert!(state.active_route.is_none());
        }
        assert_eq!(rx.try_recv().ok(), Some(command));
        assert!(rx.try_recv().is_err());
    }
}

#[test]
fn admin_navigate_preempts_route_and_lock() {
    let admin = claims(ADMIN_ID, "Ada", "Admin");
    let now = Timestamp::from_millis(5_000);
    let mut state = SharedRobotState::new();
    state.active_route = Some(route(1, "A", "B"));
    state.queue.push_back(route(2, "E", "F"));
    state.manual_lock = Some(lock_of(OPERATOR_ID, "Olga", 31_000));
    let mut rx = state.command_sender.subscribe();

    let outcome = handle_manual_frame_at(&mut state, &admin, navigate("C", "D"), now, 99);

    assert_eq!(
        outcome,
        FrameOutcome::Preempted { outcome: PreemptOutcome { cancelled: Some(true), delivered: true } }
    );
    assert_eq!(rx.try_recv().ok(), Some(RobotCommand::Cancel));
    assert_eq!(rx.try_recv().ok(), Some(navigate("C", "D")));
    assert!(rx.try_recv().is_err());
    assert_eq!(state.queue.len(), 2);
    assert_eq!(state.queue[0], route(1, "A", "B"));
    assert_eq!(state.queue[1], route(2, "E", "F"));
    assert_eq!(
        state.active_route,
        Some(QueuedRoute {
            id: 99,
            start: "C".to_string(),
            destination: "D".to_string(),
            added_at: now,
            added_by: "Ada".to_string(),
        })
    );
    assert!(state.manual_lock.is_none());
}

#[test]
fn admin_navigate_keeps_the_admins_own_lock() {
    let admin = claims(ADMIN_ID, "Ada", "Admin");
    let mut state = SharedRobotState::new();
    state.manual_lock = Some(lock_of(ADMIN_ID, "Ada", 31_000));
    let _rx = state.command_sender.subscribe();
    let outcome = preempt_at(&mut state, &admin, "C".to_string(), "D".to_string(), Timestamp::from_millis(1), 4);
    assert_eq!(outcome, PreemptOutcome { cancelled: None, delivered: true });
    assert_eq!(state.manual_lock, Some(lock_of(ADMIN_ID, "Ada", 31_000)));
    assert_eq!(state.queue.len(), 0);
}

#[test]
fn admin_navigate_clears_an_expired_lock_of_another_too() {
    let admin = claims(ADMIN_ID, "Ada", "Admin");
    let mut state = SharedRobotState::new();
    state.manual_lock = Some(lock_of(OPERATOR_ID, "Olga", 10));
    let outcome = preempt_at(&mut state, &admin, "C".to_string(), "D".to_string(), Timestamp::from_millis(500), 4);
    assert_eq!(outcome, PreemptOutcome { cancelled: None, delivered: false });
    assert!(state.manual_lock.is_none());
    assert_eq!(state.active_route.as_ref().unwrap().id, 4);
}

#[test]
fn preemption_without_subscribers_still_moves_the_routes() {
    let admin = claims(ADMIN_ID, "Ada", "Admin");
    let mut state = SharedRobotState::new();
    state.active_route = Some(route(1, "A", "B"));
    let outcome = preempt_at(&mut state, &admin, "C".to_string(), "D".to_string(), Timestamp::from_millis(1), 4);
    assert_eq!(outcome, PreemptOutcome { cancelled: Some(false), delivered: false });
    assert_eq!(state.queue.len(), 1);
    assert_eq!(state.queue[0], route(1, "A", "B"));
    assert_eq!(state.active_route.as_ref().unwrap().start, "C");
}

#[test]
fn frames_by_the_wall_clock_follow_the_same_rules() {
    let mut state = SharedRobotState::new();
    let mut rx = state.command_sender.subscribe();
    let viewer = claims(OPERATOR_ID, "Vera", "Viewer");
    assert_eq!(handle_manual_frame(&mut state, &viewer, navigate("A", "B")), FrameOutcome::Dropped);
    let admin = claims(ADMIN_ID, "Ada", "Admin");
    let outcome = handle_manual_frame(&mut state, &admin, navigate("A", "B"));
    assert_eq!(
        outcome,
        FrameOutcome::Preempted { outcome: PreemptOutcome { cancelled: None, delivered: true } }
    );
    assert_eq!(rx.try_recv().ok(), Some(navigate("A", "B")));
    let active = state.active_route.as_ref().expect("the new route is active");
    assert_eq!(active.added_by, "Ada");
    let again = handle_manual_frame(&mut state, &admin, navigate("C", "D"));
    assert_eq!(
        again,
        FrameOutcome::Preempted { outcome: PreemptOutcome { cancelled: Some(true), delivered: true } }
    );
    assert_ne!(state.active_route.as_ref().unwrap().id, state.queue[0].id);
}

#[test]
fn socket_query_carries_the_token() {
    let params = WsParams::new("abc.def.ghi".to_string());
    assert_eq!(params.token(), "abc.def.ghi");
}
