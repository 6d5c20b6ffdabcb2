use backend::auth::extractor::AuthenticatedUser;
use backend::auth::models::{Claims, LoginRequest, LoginResponse, RegisterRequest};
use backend::auth::roles::{can_operate, is_admin, is_operator, Role, ADMIN, OPERATOR, VIEWER};
use backend::auth::security::{seconds_of, token_expiry};
use backend::cache::{CacheService, DIARY_CACHE_TTL, JWT_CACHE_TTL, NODES_CACHE_TTL, USER_CACHE_TTL};
use backend::clock::{Timestamp, CLEANUP_INTERVAL_SECS, LOCK_TTL_SECS, ROBOT_STALE_TIMEOUT_SECS};
use backend::config::{Config, ConfigError};
use backend::error::{ControlError, ErrorKind};
use backend::robot::bus::COMMAND_BUS_CAPACITY;
use backend::robot::client_routes::{get_nodes, store_fetched_nodes, NodesPlan};
use backend::robot::discovery::{announced_port, handle_datagram, record_announcement};
use backend::robot::models::{CommandKind, RobotCommand, RobotState};
use backend::robot::state::SharedRobotState;
use backend::text::{join_text, constant_time_eq, decimal_text, str_eq};

#[test]
fn role_checks_go_by_the_exact_literal() {
    assert!(is_admin("Admin"));
    assert!(!is_admin("admin"));
    assert!(!is_admin("Operator"));
    assert!(!is_admin(""));
    assert!(is_operator("Operator"));
    assert!(!is_operator("Admin"));
    assert!(!is_operator("operator"));
    assert!(can_operate("Admin"));
    assert!(can_operate("Operator"));
    assert!(!can_operate("Viewer"));
    assert!(!can_operate("Admin "));
    assert_eq!(ADMIN, "Admin");
    assert_eq!(OPERATOR, "Operator");
    assert_eq!(VIEWER, "Viewer");
}

#[test]
fn roles_are_ordered_viewer_operator_admin() {
    assert!(Role::Viewer.rank() < Role::Operator.rank());
    assert!(Role::Operator.rank() < Role::Admin.rank());
    assert!(Role::Admin.at_least(Role::Operator));
    assert!(Role::Operator.at_least(Role::Operator));
    assert!(!Role::Viewer.at_least(Role::Operator));
    assert!(!Role::Operator.at_least(Role::Admin));
    assert_eq!(Role::parse("Admin"), Some(Role::Admin));
    assert_eq!(Role::parse("Operator"), Some(Role::Operator));
    assert_eq!(Role::parse("Viewer"), Some(Role::Viewer));
    assert_eq!(Role::parse("viewer"), None);
    for role in [Role::Viewer, Role::Operator, Role::Admin] {
        assert_eq!(Role::parse(role.name()), Some(role));
        assert_eq!(can_operate(role.name()), role.at_least(Role::Operator));
    }
}

#[test]
fn every_error_kind_has_its_status() {
    assert_eq!(ErrorKind::AuthMissing.status_code(), 401);
    assert_eq!(ErrorKind::AuthInvalid.status_code(), 401);
    assert_eq!(ErrorKind::Forbidden.status_code(), 403);
    assert_eq!(ErrorKind::NotFound.status_code(), 404);
    assert_eq!(ErrorKind::DomainConflict.status_code(), 200);
    assert_eq!(ErrorKind::RobotUnavailable.status_code(), 503);
    assert_eq!(ErrorKind::Upstream.status_code(), 500);
}

#[test]
fn every_refusal_has_its_kind_and_message() {
    let held = ControlError::HeldBy { holder_name: "Olga".to_string() };
    assert_eq!(held.kind(), ErrorKind::DomainConflict);
    assert_eq!(held.message(), Some("Lock held by Olga".to_string()));
    assert_eq!(ControlError::Locked.kind(), ErrorKind::DomainConflict);
    assert_eq!(ControlError::RouteActive.kind(), ErrorKind::DomainConflict);
    assert_eq!(ControlError::InvalidUserId.kind(), ErrorKind::DomainConflict);
    assert_eq!(ControlError::NotHolder.kind(), ErrorKind::DomainConflict);
    assert_eq!(ControlError::NotHolder.status_code(), 200);
    assert_eq!(ControlError::Forbidden.message(), None);
    assert_eq!(ControlError::NotFound.message(), None);
    assert_eq!(ControlError::MissingApiKey.message(), Some("Invalid API Key".to_string()));
}

#[test]
fn texts_are_compared_and_joined_by_character() {
    assert!(str_eq("", ""));
    assert!(str_eq("IDLE", "IDLE"));
    assert!(!str_eq("IDLE", "IDLe"));
    assert!(!str_eq("IDLE", "IDL"));
    assert!(str_eq("Küche", "Küche"));
    assert!(!str_eq("Küche", "Kuche"));
    assert!(constant_time_eq("secret-robot-key", "secret-robot-key"));
    assert!(!constant_time_eq("secret-robot-key", "secret-robot-kez"));
    assert!(!constant_time_eq("aecret-robot-key", "secret-robot-key"));
    assert!(!constant_time_eq("secret", "secret-robot-key"));
    assert_eq!(join_text("user:", "42"), "user:42");
    assert_eq!(join_text("", ""), "");
}

#[test]
fn numbers_are_written_in_decimal() {
    assert_eq!(decimal_text(0), "0");
    assert_eq!(decimal_text(7), "7");
    assert_eq!(decimal_text(10), "10");
    assert_eq!(decimal_text(8080), "8080");
    assert_eq!(decimal_text(65535), "65535");
    assert_eq!(decimal_text(u64::MAX), "18446744073709551615");
}

#[test]
fn constants_are_those_of_the_service() {
    assert_eq!(LOCK_TTL_SECS, 30);
    assert_eq!(ROBOT_STALE_TIMEOUT_SECS, 30);
    assert_eq!(CLEANUP_INTERVAL_SECS, 5);
    assert_eq!(NODES_CACHE_TTL, 600);
    assert_eq!(USER_CACHE_TTL, 300);
    assert_eq!(JWT_CACHE_TTL, 3600);
    assert_eq!(DIARY_CACHE_TTL, 60);
    assert_eq!(COMMAND_BUS_CAPACITY, 100);
}

#[test]
fn cache_keys_follow_the_naming_scheme() {
    assert_eq!(CacheService::user_key("u1"), "user:u1");
    assert_eq!(CacheService::jwt_key("h"), "jwt:h");
    assert_eq!(CacheService::user_jwts_key("u1"), "user_jwts:u1");
    assert_eq!(CacheService::diary_key("d1"), "diary:d1");
    assert_eq!(CacheService::user_diaries_pattern("u1"), "diary:user:u1:*");
    assert_eq!(CacheService::nodes_key(), "robot:nodes");
}

#[test]
fn instants_compare_and_shift() {
    let t = Timestamp::from_millis(1_000);
    assert!(t.is_after(Timestamp::from_millis(999)));
    assert!(!t.is_after(t));
    assert_eq!(t.plus_secs(30).millis, 31_000);
    assert_eq!(t.plus_secs(0).millis, 1_000);
    assert_eq!(Timestamp::from_millis(i64::MAX).plus_secs(1).millis, i64::MAX);
    assert!(t.within_secs_of(Timestamp::from_millis(0), 2));
    assert!(!t.within_secs_of(Timestamp::from_millis(0), 1));
}

#[test]
fn token_expiry_is_issue_time_plus_hours() {
    assert_eq!(token_expiry(Timestamp::from_millis(1_700_000_000_123), 24), Some(1_700_086_400));
    assert_eq!(token_expiry(Timestamp::from_millis(0), 1), Some(3_600));
    assert_eq!(token_expiry(Timestamp::from_millis(0), 0), Some(0));
    assert_eq!(token_expiry(Timestamp::from_millis(0), -1), None);
    assert_eq!(token_expiry(Timestamp::from_millis(7_200_000), -1), Some(3_600));
    assert_eq!(token_expiry(Timestamp::from_millis(0), i64::MAX), None);
    assert_eq!(seconds_of(Timestamp::from_millis(1_999)), 1);
    assert_eq!(seconds_of(Timestamp::from_millis(-1)), -1);
    assert_eq!(seconds_of(Timestamp::from_millis(-1_000)), -1);
    assert_eq!(seconds_of(Timestamp::from_millis(-1_001)), -2);
}

#[test]
fn claims_are_current_until_their_expiry() {
    let claims = Claims { sub: "s".to_string(), name: "n".to_string(), role: "Viewer".to_string(), exp: 100 };
    assert!(claims.is_current_at(Timestamp::from_millis(99_999)));
    assert!(!claims.is_current_at(Timestamp::from_millis(100_000)));
    assert!(claims.is_current_at(Timestamp::from_millis(-5)));
    let copy = claims.clone();
    assert_eq!(copy.sub, "s");
    assert_eq!(copy.exp, 100);
    let user = AuthenticatedUser::from_claims(Some(&claims)).expect("a principal");
    assert_eq!(user.0.name, "n");
    assert!(AuthenticatedUser::from_claims(None).is_none());
}

#[test]
fn sign_in_bodies_hold_their_fields() {
    let register = RegisterRequest { name: "n".to_string(), email: "e".to_string(), password: "p".to_string() };
    let login = LoginRequest { email: register.email.clone(), password: register.password.clone() };
    let response = LoginResponse { token: "t".to_string() };
    assert_eq!(login.email, "e");
    assert_eq!(login.password, "p");
    assert_eq!(register.name, "n");
    assert_eq!(response.token, "t");
}

#[test]
fn configuration_needs_three_variables_and_defaults_the_rest() {
    let s = |v: &str| Some(v.to_string());
    let config = Config::from_vars(s("postgres://db"), s("redis://kv"), s("secret"), None, None, None).expect("complete");
    assert_eq!(
        config,
        Config {
            database_url: "postgres://db".to_string(),
            redis_url: "redis://kv".to_string(),
            jwt_secret: "secret".to_string(),
            jwt_expiry_hours: 24,
            server_address: "0.0.0.0:3003".to_string(),
            robot_api_key: "secret-robot-key".to_string(),
        }
    );
    let config = Config::from_vars(s("d"), s("r"), s("j"), s("48"), s("127.0.0.1:0"), s("k")).expect("complete");
    assert_eq!(config.jwt_expiry_hours, 48);
    assert_eq!(config.server_address, "127.0.0.1:0");
    assert_eq!(config.robot_api_key, "k");
    assert_eq!(config.clone(), config);
    let config = Config::from_vars(s("d"), s("r"), s("j"), s("two days"), None, None).expect("complete");
    assert_eq!(config.jwt_expiry_hours, 24);
    let config = Config::from_vars(s("d"), s("r"), s("j"), s("-3"), None, None).expect("complete");
    assert_eq!(config.jwt_expiry_hours, -3);
    assert_eq!(Config::from_vars(None, None, None, None, None, None), Err(ConfigError::MissingDatabaseUrl));
    assert_eq!(Config::from_vars(s("d"), None, None, None, None, None), Err(ConfigError::MissingRedisUrl));
    assert_eq!(Config::from_vars(s("d"), s("r"), None, s("1"), s("a"), s("k")), Err(ConfigError::MissingJwtSecret));
}

#[test]
fn command_tags_are_the_wire_literals() {
    let tags = [
        (CommandKind::Navigate, "NAVIGATE"),
        (CommandKind::Cancel, "CANCEL"),
        (CommandKind::DriveCommand, "DRIVE_COMMAND"),
        (CommandKind::Led, "LED"),
        (CommandKind::AudioBeep, "AUDIO_BEEP"),
        (CommandKind::AudioVolume, "AUDIO_VOLUME"),
    ];
    for (kind, tag) in tags.iter() {
        assert_eq!(kind.tag(), *tag);
        assert_eq!(CommandKind::from_tag(tag), Some(*kind));
        assert_eq!(CommandKind::from_tag(kind.tag()), Some(*kind));
    }
    assert_eq!(CommandKind::from_tag("SET_MODE"), None);
    assert_eq!(CommandKind::from_tag("navigate"), None);
    let cmd = RobotCommand::Navigate { start: "Home".to_string(), destination: "Office".to_string() };
    assert_eq!(cmd.kind().tag(), "NAVIGATE");
    assert_eq!(cmd.clone(), cmd);
    assert_eq!(RobotCommand::AudioVolume { value: 7 }.kind(), CommandKind::AudioVolume);
}

#[test]
fn telemetry_knows_when_the_robot_is_idle() {
    let mut state = RobotState {
        system_health: "OK".to_string(),
        battery_level: 85,
        drive_mode: "MANUAL".to_string(),
        cargo_status: "EMPTY".to_string(),
        current_position: "Kitchen".to_string(),
        last_node: None,
        target_node: None,
    };
    assert!(!state.is_idle());
    state.drive_mode = "IDLE".to_string();
    assert!(state.is_idle());
    assert_eq!(state.clone(), state);
}

#[test]
fn announcements_name_a_port() {
    assert_eq!(announced_port("{\"type\":\"announce\",\"port\":8000}"), Some(8000));
    assert_eq!(announced_port("{\"port\": 65535, \"type\": \"announce\", \"extra\": [1, 2]}"), Some(65535));
    assert_eq!(announced_port("{\"type\":\"announce\",\"port\":0}"), Some(0));
    assert_eq!(announced_port("{\"type\":\"announce\",\"port\":65536}"), None);
    assert_eq!(announced_port("{\"type\":\"announce\",\"port\":-1}"), None);
    assert_eq!(announced_port("{\"type\":\"announce\",\"port\":80.0}"), None);
    assert_eq!(announced_port("{\"type\":\"announce\",\"port\":\"8000\"}"), None);
    assert_eq!(announced_port("{\"type\":\"announce\"}"), None);
    assert_eq!(announced_port("{\"type\":\"hello\",\"port\":8000}"), None);
    assert_eq!(announced_port("{\"type\":7,\"port\":8000}"), None);
    assert_eq!(announced_port("{\"port\":8000}"), None);
    assert_eq!(announced_port("[\"announce\", 8000]"), None);
    assert_eq!(announced_port("ROBOT_ANNOUNCE:8000"), None);
    assert_eq!(announced_port(""), None);
}

#[test]
fn datagrams_set_the_robot_url_only_when_it_changes() {
    let mut state = SharedRobotState::new();
    assert_eq!(handle_datagram(&mut state, "10.0.0.5", "not json"), None);
    assert_eq!(state.robot_url, None);
    assert_eq!(handle_datagram(&mut state, "10.0.0.5", "{\"type\":\"announce\",\"port\":8000}"), Some(true));
    assert_eq!(state.robot_url, Some("http://10.0.0.5:8000".to_string()));
    assert_eq!(handle_datagram(&mut state, "10.0.0.5", "{\"type\":\"announce\",\"port\":8000}"), Some(false));
    assert_eq!(handle_datagram(&mut state, "10.0.0.5", "{\"type\":\"bye\",\"port\":9}"), None);
    assert_eq!(state.robot_url, Some("http://10.0.0.5:8000".to_string()));
    assert!(record_announcement(&mut state, "10.0.0.6", 8000));
    assert_eq!(state.robot_url, Some("http://10.0.0.6:8000".to_string()));
}

#[test]
fn node_list_comes_from_the_nearest_tier() {
    let names = |v: &[&str]| v.iter().map(|s| s.to_string()).collect::<Vec<String>>();
    let mut state = SharedRobotState::new();
    assert_eq!(get_nodes(&state, None), NodesPlan::Unavailable);
    assert_eq!(
        get_nodes(&state, Some(names(&["Kitchen"]))),
        NodesPlan::Serve { nodes: names(&["Kitchen"]), write_kv: false }
    );
    state.robot_url = Some("http://10.0.0.5:8000".to_string());
    assert_eq!(get_nodes(&state, None), NodesPlan::Fetch { url: "http://10.0.0.5:8000/nodes".to_string() });

    let failed = store_fetched_nodes(&mut state, None);
    assert_eq!(failed.status, 503);
    assert_eq!(failed.body.nodes.len(), 0);
    assert!(!failed.write_kv);
    assert_eq!(state.cached_nodes, None);

    let reply = store_fetched_nodes(&mut state, Some(names(&["Kitchen", "LivingRoom"])));
    assert_eq!(reply.status, 200);
    assert_eq!(reply.body.nodes[0], "Kitchen");
    assert_eq!(reply.body.nodes[1], "LivingRoom");
    assert!(reply.write_kv);
    assert_eq!(state.cached_nodes, Some(names(&["Kitchen", "LivingRoom"])));

    assert_eq!(
        get_nodes(&state, None),
        NodesPlan::Serve { nodes: names(&["Kitchen", "LivingRoom"]), write_kv: true }
    );
    assert_eq!(
        get_nodes(&state, Some(names(&["Hall"]))),
        NodesPlan::Serve { nodes: names(&["Hall"]), write_kv: false }
    );
}
