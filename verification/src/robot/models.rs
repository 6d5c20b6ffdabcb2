//! The values the control core works on: telemetry, queued routes, commands.

use crate::clock::Timestamp;
use crate::text::str_eq;
use vstd::prelude::*;

verus! {

/// The drive mode in which the robot takes a new route.
pub const IDLE: &'static str = "IDLE";

/// What the status report shows in place of telemetry that never arrived.
pub const UNKNOWN: &'static str = "UNKNOWN";

/// The latest telemetry snapshot the robot posted.
#[derive(Debug, PartialEq, Eq)]
pub struct RobotState {
    pub system_health: String,
    pub battery_level: u8,
    pub drive_mode: String,
    pub cargo_status: String,
    pub current_position: String,
    pub last_node: Option<String>,
    pub target_node: Option<String>,
}

pub struct RobotStateView {
    pub system_health: Seq<char>,
    pub battery_level: u8,
    pub drive_mode: Seq<char>,
    pub cargo_status: Seq<char>,
    pub current_position: Seq<char>,
    pub last_node: Option<Seq<char>>,
    pub target_node: Option<Seq<char>>,
}

pub open spec fn text_of(s: Option<String>) -> Option<Seq<char>> {
    match s {
        Some(t) => Some(t@),
        None => None,
    }
}

impl View for RobotState {
    type V = RobotStateView;

    open spec fn view(&self) -> RobotStateView {
        RobotStateView {
            system_health: self.system_health@,
            battery_level: self.battery_level,
            drive_mode: self.drive_mode@,
            cargo_status: self.cargo_status@,
            current_position: self.current_position@,
            last_node: text_of(self.last_node),
            target_node: text_of(self.target_node),
        }
    }
}

impl RobotStateView {
    pub open spec fn is_idle(self) -> bool {
        self.drive_mode == "IDLE"@
    }
}

/// A copy of an optional text.
pub fn clone_text(s: &Option<String>) -> (c: Option<String>)
    ensures
        c == *s,
{
    match s {
        Some(t) => Some(t.clone()),
        None => None,
    }
}

impl Clone for RobotState {
    fn clone(&self) -> (c: RobotState)
        ensures
            c == *self,
    {
        RobotState {
            system_health: self.system_health.clone(),
            battery_level: self.battery_level,
            drive_mode: self.drive_mode.clone(),
            cargo_status: self.cargo_status.clone(),
            current_position: self.current_position.clone(),
            last_node: clone_text(&self.last_node),
            target_node: clone_text(&self.target_node),
        }
    }
}

impl RobotState {
    /// Whether the robot reports that it is idle.
    pub fn is_idle(&self) -> (idle: bool)
        ensures
            idle == self@.is_idle(),
    {
        str_eq(self.drive_mode.as_str(), IDLE)
    }
}

/// An event the robot reported, with the instant it gave.
#[derive(Debug)]
pub struct RobotEvent {
    pub event: String,
    pub timestamp: Timestamp,
}

/// A route waiting in the queue, or the one being driven.
#[derive(Debug, PartialEq, Eq)]
pub struct QueuedRoute {
    pub id: u128,
    pub start: String,
    pub destination: String,
    pub added_at: Timestamp,
    pub added_by: String,
}

pub struct RouteView {
    pub id: u128,
    pub start: Seq<char>,
    pub destination: Seq<char>,
    pub added_at: int,
    pub added_by: Seq<char>,
}

impl View for QueuedRoute {
    type V = RouteView;

    open spec fn view(&self) -> RouteView {
        RouteView {
            id: self.id,
            start: self.start@,
            destination: self.destination@,
            added_at: self.added_at@,
            added_by: self.added_by@,
        }
    }
}

impl Clone for QueuedRoute {
    fn clone(&self) -> (c: QueuedRoute)
        ensures
            c == *self,
    {
        QueuedRoute {
            id: self.id,
            start: self.start.clone(),
            destination: self.destination.clone(),
            added_at: self.added_at,
            added_by: self.added_by.clone(),
        }
    }
}

/// The view of an optional route.
pub open spec fn route_view(r: Option<QueuedRoute>) -> Option<RouteView> {
    match r {
        Some(q) => Some(q@),
        None => None,
    }
}

/// The views of a run of routes, in order.
pub open spec fn route_views(rs: Seq<QueuedRoute>) -> Seq<RouteView> {
    rs.map_values(|r: QueuedRoute| r@)
}

/// A command for the robot. Velocities and the volume are carried as the bit
/// patterns of their IEEE 754 values (binary64 and binary32): the core passes
/// them on and never computes with them.
#[derive(Debug, PartialEq, Eq)]
pub enum RobotCommand {
    Navigate { start: String, destination: String },
    Cancel,
    DriveCommand { linear_velocity: u64, angular_velocity: u64 },
    Led { enabled: bool, r: u8, g: u8, b: u8, brightness: u8 },
    AudioBeep { hz: u32, ms: u32 },
    AudioVolume { value: u32 },
}

pub enum CommandView {
    Navigate { start: Seq<char>, destination: Seq<char> },
    Cancel,
    DriveCommand { linear_velocity: u64, angular_velocity: u64 },
    Led { enabled: bool, r: u8, g: u8, b: u8, brightness: u8 },
    AudioBeep { hz: u32, ms: u32 },
    AudioVolume { value: u32 },
}

impl View for RobotCommand {
    type V = CommandView;

    open spec fn view(&self) -> CommandView {
        match *self {
            RobotCommand::Navigate { start, destination } => CommandView::Navigate {
                start: start@,
                destination: destination@,
            },
            RobotCommand::Cancel => CommandView::Cancel,
            RobotCommand::DriveCommand {
                linear_velocity,
                angular_velocity,
            } => CommandView::DriveCommand { linear_velocity, angular_velocity },
            RobotCommand::Led { enabled, r, g, b, brightness } => CommandView::Led {
                enabled,
                r,
                g,
                b,
                brightness,
            },
            RobotCommand::AudioBeep { hz, ms } => CommandView::AudioBeep { hz, ms },
            RobotCommand::AudioVolume { value } => CommandView::AudioVolume { value },
        }
    }
}

impl Clone for RobotCommand {
    fn clone(&self) -> (c: RobotCommand)
        ensures
            c == *self,
    {
        match self {
            RobotCommand::Navigate { start, destination } => RobotCommand::Navigate {
                start: start.clone(),
                destination: destination.clone(),
            },
            RobotCommand::Cancel => RobotCommand::Cancel,
            RobotCommand::DriveCommand {
                linear_velocity,
                angular_velocity,
            } => RobotCommand::DriveCommand {
                linear_velocity: *linear_velocity,
                angular_velocity: *angular_velocity,
            },
            RobotCommand::Led { enabled, r, g, b, brightness } => RobotCommand::Led {
                enabled: *enabled,
                r: *r,
                g: *g,
                b: *b,
                brightness: *brightness,
            },
            RobotCommand::AudioBeep { hz, ms } => RobotCommand::AudioBeep { hz: *hz, ms: *ms },
            RobotCommand::AudioVolume { value } => RobotCommand::AudioVolume { value: *value },
        }
    }
}

/// The command that sends the robot along a route.
pub open spec fn navigate_to(r: RouteView) -> CommandView {
    CommandView::Navigate { start: r.start, destination: r.destination }
}

/// Which of the six commands a value is, apart from its payload.
#[derive(Clone, Copy, Debug, PartialEq, Eq, Structural)]
pub enum CommandKind {
    Navigate,
    Cancel,
    DriveCommand,
    Led,
    AudioBeep,
    AudioVolume,
}

pub open spec fn kind_of(c: CommandView) -> CommandKind {
    match c {
        CommandView::Navigate { .. } => CommandKind::Navigate,
        CommandView::Cancel => CommandKind::Cancel,
        CommandView::DriveCommand { .. } => CommandKind::DriveCommand,
        CommandView::Led { .. } => CommandKind::Led,
        CommandView::AudioBeep { .. } => CommandKind::AudioBeep,
        CommandView::AudioVolume { .. } => CommandKind::AudioVolume,
    }
}

/// The literal that the wire format carries in its `command` field.
pub open spec fn tag_of(k: CommandKind) -> Seq<char> {
    match k {
        CommandKind::Navigate => "NAVIGATE"@,
        CommandKind::Cancel => "CANCEL"@,
        CommandKind::DriveCommand => "DRIVE_COMMAND"@,
        CommandKind::Led => "LED"@,
        CommandKind::AudioBeep => "AUDIO_BEEP"@,
        CommandKind::AudioVolume => "AUDIO_VOLUME"@,
    }
}

/// The kind that a `command` literal names, if it names one.
pub open spec fn kind_of_tag(tag: Seq<char>) -> Option<CommandKind> {
    if tag == "NAVIGATE"@ {
        Some(CommandKind::Navigate)
    } else if tag == "CANCEL"@ {
        Some(CommandKind::Cancel)
    } else if tag == "DRIVE_COMMAND"@ {
        Some(CommandKind::DriveCommand)
    } else if tag == "LED"@ {
        Some(CommandKind::Led)
    } else if tag == "AUDIO_BEEP"@ {
        Some(CommandKind::AudioBeep)
    } else if tag == "AUDIO_VOLUME"@ {
        Some(CommandKind::AudioVolume)
    } else {
        None
    }
}

impl RobotCommand {
    pub fn kind(&self) -> (k: CommandKind)
        ensures
            k == kind_of(self@),
    {
        match self {
            RobotCommand::Navigate { .. } => CommandKind::Navigate,
            RobotCommand::Cancel => CommandKind::Cancel,
            RobotCommand::DriveCommand { .. } => CommandKind::DriveCommand,
            RobotCommand::Led { .. } => CommandKind::Led,
            RobotCommand::AudioBeep { .. } => CommandKind::AudioBeep,
            RobotCommand::AudioVolume { .. } => CommandKind::AudioVolume,
        }
    }
}

impl CommandKind {
    /// The wire literal of this kind.
    pub fn tag(&self) -> (t: &'static str)
        ensures
            t@ == tag_of(*self),
    {
        match self {
            CommandKind::Navigate => "NAVIGATE",
            CommandKind::Cancel => "CANCEL",
            CommandKind::DriveCommand => "DRIVE_COMMAND",
            CommandKind::Led => "LED",
            CommandKind::AudioBeep => "AUDIO_BEEP",
            CommandKind::AudioVolume => "AUDIO_VOLUME",
        }
    }

    /// Reads a wire literal; any other text names no command.
    pub fn from_tag(tag: &str) -> (k: Option<CommandKind>)
        ensures
            k == kind_of_tag(tag@),
    {
        if str_eq(tag, "NAVIGATE") {
            Some(CommandKind::Navigate)
        } else if str_eq(tag, "CANCEL") {
            Some(CommandKind::Cancel)
        } else if str_eq(tag, "DRIVE_COMMAND") {
            Some(CommandKind::DriveCommand)
        } else if str_eq(tag, "LED") {
            Some(CommandKind::Led)
        } else if str_eq(tag, "AUDIO_BEEP") {
            Some(CommandKind::AudioBeep)
        } else if str_eq(tag, "AUDIO_VOLUME") {
            Some(CommandKind::AudioVolume)
        } else {
            None
        }
    }
}

/// Reading back the wire literal of a kind gives that kind: the six literals
/// are pairwise different.
pub proof fn tag_round_trip(k: CommandKind)
    ensures
        kind_of_tag(tag_of(k)) == Some(k),
{
    reveal_strlit("NAVIGATE");
    reveal_strlit("CANCEL");
    reveal_strlit("DRIVE_COMMAND");
    reveal_strlit("LED");
    reveal_strlit("AUDIO_BEEP");
    reveal_strlit("AUDIO_VOLUME");
    assert("NAVIGATE"@.len() == 8);
    assert("CANCEL"@.len() == 6);
    assert("DRIVE_COMMAND"@.len() == 13);
    assert("LED"@.len() == 3);
    assert("AUDIO_BEEP"@.len() == 10);
    assert("AUDIO_VOLUME"@.len() == 12);
}

/// Start and end of the last leg the robot reported.
#[derive(Debug, PartialEq, Eq)]
pub struct LastRoute {
    pub start_node: String,
    pub end_node: String,
}

/// The public status report.
#[derive(Debug, PartialEq, Eq)]
pub struct StatusResponse {
    pub system_health: String,
    pub battery_level: u8,
    pub drive_mode: String,
    pub cargo_status: String,
    pub last_route: Option<LastRoute>,
    pub position: String,
    pub manual_lock_holder_name: Option<String>,
    pub robot_connected: bool,
}

pub struct LastRouteView {
    pub start_node: Seq<char>,
    pub end_node: Seq<char>,
}

impl View for LastRoute {
    type V = LastRouteView;

    open spec fn view(&self) -> LastRouteView {
        LastRouteView { start_node: self.start_node@, end_node: self.end_node@ }
    }
}

pub struct StatusView {
    pub system_health: Seq<char>,
    pub battery_level: u8,
    pub drive_mode: Seq<char>,
    pub cargo_status: Seq<char>,
    pub last_route: Option<LastRouteView>,
    pub position: Seq<char>,
    pub manual_lock_holder_name: Option<Seq<char>>,
    pub robot_connected: bool,
}

impl View for StatusResponse {
    type V = StatusView;

    open spec fn view(&self) -> StatusView {
        StatusView {
            system_health: self.system_health@,
            battery_level: self.battery_level,
            drive_mode: self.drive_mode@,
            cargo_status: self.cargo_status@,
            last_route: match self.last_route {
                Some(r) => Some(r@),
                None => None,
            },
            position: self.position@,
            manual_lock_holder_name: text_of(self.manual_lock_holder_name),
            robot_connected: self.robot_connected,
        }
    }
}

#[derive(Debug)]
pub struct NodesResponse {
    pub nodes: Vec<String>,
}

#[derive(Debug)]
pub struct RouteSelectionRequest {
    pub start: String,
    pub destination: String,
}

} // verus!
