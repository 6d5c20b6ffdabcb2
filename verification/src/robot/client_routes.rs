//! The client surface: status, route selection, the manual-drive lock, and
//! the frames of the operator's manual-drive socket.

use crate::auth::models::{Claims, ClaimsView};
use crate::auth::roles::{can_operate, can_operate_name, is_admin, is_admin_name};
use crate::clock::{shifted, wall_clock, Timestamp, LOCK_TTL_SECS};
use crate::error::{ControlError, ControlErrorView};
use crate::ids::{parse_uuid, random_uuid, uuid_parsed};
use crate::robot::models::{
    clone_text, kind_of, navigate_to, CommandKind, CommandView, LastRoute, LastRouteView,
    NodesResponse, QueuedRoute, RobotCommand, RouteSelectionRequest, RouteView, StatusResponse,
    StatusView, UNKNOWN,
};
use crate::robot::state::{
    names_view, nodes_view, url_view, LockInfo, LockView, SharedRobotState, StoreView,
};
use crate::text::join_text;
use crate::robot::{process_queue_at, DispatchOutcome};
use vstd::prelude::*;

verus! {

/// The query of the manual-drive socket: the caller's token.
#[derive(Debug)]
pub struct WsParams {
    token: String,
}

impl WsParams {
    pub fn new(token: String) -> (p: WsParams)
        ensures
            p.token_text() == token@,
    {
        WsParams { token }
    }

    pub closed spec fn token_text(&self) -> Seq<char> {
        self.token@
    }

    pub fn token(&self) -> (t: &str)
        ensures
            t@ == self.token_text(),
    {
        self.token.as_str()
    }
}

/// How a successful request for the lock is answered.
#[derive(Clone, Copy, Debug, PartialEq, Eq, Structural)]
pub enum LockGrant {
    /// "Lock acquired".
    Acquired,
    /// An administrator took the lock while an automated route is active.
    AcquiredOverActiveRoute,
}

pub open spec fn grant_text(g: LockGrant) -> Seq<char> {
    match g {
        LockGrant::Acquired => "Lock acquired"@,
        LockGrant::AcquiredOverActiveRoute => "Admin lock acquired while automated route is active"@,
    }
}

impl LockGrant {
    pub fn message(&self) -> (m: &'static str)
        ensures
            m@ == grant_text(*self),
    {
        match self {
            LockGrant::Acquired => "Lock acquired",
            LockGrant::AcquiredOverActiveRoute => "Admin lock acquired while automated route is active",
        }
    }
}

/// The view of a refusal, if there is one.
pub open spec fn refusal_view<T>(r: Result<T, ControlError>) -> Option<ControlErrorView> {
    match r {
        Ok(_) => None,
        Err(e) => Some(e@),
    }
}

/// Whether a request ended with a route sent to the robot.
pub open spec fn dispatched(r: Result<DispatchOutcome, ControlError>) -> bool {
    r matches Ok(o) && o is Dispatched
}

/// The route that a request for a drive from `start` to `destination` makes.
pub open spec fn new_route(
    id: u128,
    start: Seq<char>,
    destination: Seq<char>,
    now: int,
    added_by: Seq<char>,
) -> RouteView {
    RouteView { id, start, destination, added_at: now, added_by }
}

impl StoreView {
    /// Why a request for the lock is refused, if it is.
    pub open spec fn acquire_refusal(self, c: ClaimsView, now: int) -> Option<ControlErrorView> {
        if !can_operate_name(c.role) {
            Some(ControlErrorView::Forbidden)
        } else if !is_admin_name(c.role) && self.active_route is Some {
            Some(ControlErrorView::RouteActive)
        } else if !is_admin_name(c.role) && self.effective_lock(now) is Some
            && !self.lock_held_by(c.sub, now) {
            Some(ControlErrorView::HeldBy { holder_name: self.lock->0.holder_name })
        } else if uuid_parsed(c.sub) is None {
            Some(ControlErrorView::InvalidUserId)
        } else {
            None
        }
    }

    /// The lock that a successful request at `now` installs.
    pub open spec fn granted_lock(c: ClaimsView, now: int) -> LockView {
        LockView {
            holder_id: uuid_parsed(c.sub)->0,
            holder_name: c.name,
            expires_at: shifted(now, LOCK_TTL_SECS as int),
        }
    }

    /// The store after a request for the lock.
    pub open spec fn after_acquire(self, c: ClaimsView, now: int) -> StoreView {
        if self.acquire_refusal(c, now) is None {
            StoreView { lock: Some(Self::granted_lock(c, now)), ..self }
        } else {
            self
        }
    }

    /// How a successful request for the lock is answered.
    pub open spec fn grant(self, c: ClaimsView) -> LockGrant {
        if is_admin_name(c.role) && self.active_route is Some {
            LockGrant::AcquiredOverActiveRoute
        } else {
            LockGrant::Acquired
        }
    }

    /// Why a release of the lock is refused, if it is.
    pub open spec fn release_refusal(self, c: ClaimsView, now: int) -> Option<ControlErrorView> {
        if !can_operate_name(c.role) {
            Some(ControlErrorView::Forbidden)
        } else if !self.lock_held_by(c.sub, now) {
            Some(ControlErrorView::NotHolder)
        } else {
            None
        }
    }

    /// The store after a release of the lock.
    pub open spec fn after_release(self, c: ClaimsView, now: int) -> StoreView {
        if self.release_refusal(c, now) is None {
            StoreView { lock: None, ..self }
        } else {
            self
        }
    }

    /// The store with a route appended to its queue.
    pub open spec fn with_queued(self, route: RouteView) -> StoreView {
        StoreView { queue: self.queue.push(route), ..self }
    }

    /// Why a route selection is refused, if it is.
    pub open spec fn select_refusal(self, c: ClaimsView, now: int) -> Option<ControlErrorView> {
        if !can_operate_name(c.role) {
            Some(ControlErrorView::Forbidden)
        } else if self.effective_lock(now) is Some {
            Some(ControlErrorView::Locked)
        } else {
            None
        }
    }

    /// The store after a route selection, given how the dispatch that
    /// follows it ended.
    pub open spec fn after_select(
        self,
        c: ClaimsView,
        route: RouteView,
        now: int,
        delivered: bool,
    ) -> StoreView {
        if self.select_refusal(c, now) is None {
            self.with_queued(route).after_dispatch(now, delivered)
        } else {
            self
        }
    }

    /// The store without a lock that someone other than `sub` holds.
    pub open spec fn revoked_for(self, sub: Seq<char>) -> StoreView {
        match self.lock {
            Some(l) => if l.held_by(sub) {
                self
            } else {
                StoreView { lock: None, ..self }
            },
            None => self,
        }
    }

    /// The store with its active route cancelled and back at the head of the
    /// queue; `cancelled` says whether the bus took the Cancel. A store
    /// without an active route stays as it is.
    pub open spec fn with_active_cancelled(self, cancelled: bool) -> StoreView {
        match self.active_route {
            Some(a) => StoreView {
                active_route: None,
                queue: seq![a] + self.queue,
                ..self.having_sent(CommandView::Cancel, cancelled)
            },
            None => self,
        }
    }

    /// The store after an administrator's Navigate preempted whatever was
    /// going on: a lock of someone else is gone, the former active route is
    /// cancelled and heads the queue, `route` is active, and its Navigate was
    /// sent last.
    pub open spec fn preempted(
        self,
        sub: Seq<char>,
        route: RouteView,
        cancelled: bool,
        delivered: bool,
    ) -> StoreView {
        let cleared = self.revoked_for(sub).with_active_cancelled(cancelled);
        StoreView { active_route: Some(route), ..cleared }.having_sent(navigate_to(route), delivered)
    }
}

/// Asks for the manual-drive lock at `now`, or renews it. Operators and
/// administrators may ask. An operator is refused while a route is active or
/// while someone else holds an effective lock; an administrator takes the lock
/// over. On success the lock belongs to the caller until `LOCK_TTL_SECS` after
/// `now`.
pub fn acquire_lock_at(state: &mut SharedRobotState, claims: &Claims, now: Timestamp) -> (granted:
    Result<LockGrant, ControlError>)
    ensures
        refusal_view(granted) == old(state)@.acquire_refusal(claims@, now@),
        granted matches Ok(g) ==> g == old(state)@.grant(claims@),
        final(state)@ == old(state)@.after_acquire(claims@, now@),
{
    if !can_operate(claims.role.as_str()) {
        return Err(ControlError::Forbidden);
    }
    let admin = is_admin(claims.role.as_str());
    if !admin && state.active_route.is_some() {
        return Err(ControlError::RouteActive);
    }
    if !admin {
        match &state.manual_lock {
            Some(l) => {
                if l.is_effective_at(now) && !l.is_held_by(claims.sub.as_str()) {
                    return Err(ControlError::HeldBy { holder_name: l.holder_name.clone() });
                }
            },
            None => {},
        }
    }
    match parse_uuid(claims.sub.as_str()) {
        Some(user_id) => {
            state.manual_lock = Some(
                LockInfo {
                    holder_id: user_id,
                    holder_name: claims.name.clone(),
                    expires_at: now.plus_secs(LOCK_TTL_SECS),
                },
            );
            if admin && state.active_route.is_some() {
                Ok(LockGrant::AcquiredOverActiveRoute)
            } else {
                Ok(LockGrant::Acquired)
            }
        },
        None => Err(ControlError::InvalidUserId),
    }
}

/// Asks for the manual-drive lock by the wall clock.
pub fn acquire_lock(state: &mut SharedRobotState, claims: &Claims) -> (granted: Result<
    LockGrant,
    ControlError,
>)
    ensures
        exists|now: int|
            refusal_view(granted) == #[trigger] old(state)@.acquire_refusal(claims@, now)
                && final(state)@ == old(state)@.after_acquire(claims@, now),
        granted matches Ok(g) ==> g == old(state)@.grant(claims@),
{
    let now = wall_clock();
    let granted = acquire_lock_at(state, claims, now);
    assert(refusal_view(granted) == old(state)@.acquire_refusal(claims@, now@) && state@ == old(
        state,
    )@.after_acquire(claims@, now@));
    granted
}

/// Releases the manual-drive lock at `now`. It succeeds exactly when the
/// caller may operate and holds an effective lock; then the slot is cleared.
/// Otherwise the store stays as it is.
pub fn release_lock_at(state: &mut SharedRobotState, claims: &Claims, now: Timestamp) -> (released:
    Result<(), ControlError>)
    ensures
        refusal_view(released) == old(state)@.release_refusal(claims@, now@),
        final(state)@ == old(state)@.after_release(claims@, now@),
{
    if !can_operate(claims.role.as_str()) {
        return Err(ControlError::Forbidden);
    }
    if state.holds_lock_at(claims.sub.as_str(), now) {
        state.manual_lock = None;
        Ok(())
    } else {
        Err(ControlError::NotHolder)
    }
}

/// Releases the manual-drive lock by the wall clock.
pub fn release_lock(state: &mut SharedRobotState, claims: &Claims) -> (released: Result<
    (),
    ControlError,
>)
    ensures
        exists|now: int|
            refusal_view(released) == #[trigger] old(state)@.release_refusal(claims@, now)
                && final(state)@ == old(state)@.after_release(claims@, now),
{
    let now = wall_clock();
    let released = release_lock_at(state, claims, now);
    assert(refusal_view(released) == old(state)@.release_refusal(claims@, now@) && state@ == old(
        state,
    )@.after_release(claims@, now@));
    released
}

/// Queues a route for an operator or administrator at `now`, under the id
/// `route_id`, and runs the dispatcher. Refused while an effective lock
/// exists. The queued entry carries the caller's display name.
pub fn select_route_at(
    state: &mut SharedRobotState,
    claims: &Claims,
    request: RouteSelectionRequest,
    now: Timestamp,
    route_id: u128,
) -> (queued: Result<DispatchOutcome, ControlError>)
    ensures
        refusal_view(queued) == old(state)@.select_refusal(claims@, now@),
        queued matches Ok(outcome) ==> (outcome is NotReady <==> !old(state)@.with_queued(
            new_route(route_id, request.start@, request.destination@, now@, claims@.name),
        ).dispatch_ready(now@)),
        final(state)@ == old(state)@.after_select(
            claims@,
            new_route(route_id, request.start@, request.destination@, now@, claims@.name),
            now@,
            dispatched(queued),
        ),
{
    if !can_operate(claims.role.as_str()) {
        return Err(ControlError::Forbidden);
    }
    if state.is_locked_at(now) {
        return Err(ControlError::Locked);
    }
    let route = QueuedRoute {
        id: route_id,
        start: request.start,
        destination: request.destination,
        added_at: now,
        added_by: claims.name.clone(),
    };
    state.queue.push_back(route);
    assert(state@.queue =~= old(state)@.queue.push(route@));
    let outcome = process_queue_at(state, now);
    Ok(outcome)
}

/// Queues a route by the wall clock, under a fresh random id.
pub fn select_route(
    state: &mut SharedRobotState,
    claims: &Claims,
    request: RouteSelectionRequest,
) -> (queued: Result<DispatchOutcome, ControlError>)
    ensures
        exists|now: int, route_id: u128|
            refusal_view(queued) == old(state)@.select_refusal(claims@, now) && final(state)@
                == old(state)@.after_select(
                claims@,
                #[trigger] new_route(route_id, request.start@, request.destination@, now, claims@.name),
                now,
                dispatched(queued),
            ),
{
    let now = wall_clock();
    let route_id = random_uuid();
    let ghost route = new_route(route_id, request.start@, request.destination@, now@, claims@.name);
    let queued = select_route_at(state, claims, request, now, route_id);
    assert(refusal_view(queued) == old(state)@.select_refusal(claims@, now@) && state@ == old(
        state,
    )@.after_select(
        claims@,
        route,
        now@,
        dispatched(queued),
    ));
    queued
}

/// What became of a preemption's two sends.
#[derive(Clone, Copy, Debug, PartialEq, Eq, Structural)]
pub struct PreemptOutcome {
    /// Whether the bus took the Cancel for the former active route; `None`
    /// where no route was active.
    pub cancelled: Option<bool>,
    /// Whether the bus took the new Navigate.
    pub delivered: bool,
}

pub open spec fn flag(f: Option<bool>) -> bool {
    match f {
        Some(b) => b,
        None => false,
    }
}

/// An administrator's Navigate at `now`: revokes a lock held by anyone else,
/// cancels the active route and puts it back at the head of the queue
/// unchanged, makes the new route the active one under the id `route_id`, and
/// sends its Navigate. The caller has checked that `claims` are an
/// administrator's.
pub fn preempt_at(
    state: &mut SharedRobotState,
    claims: &Claims,
    start: String,
    destination: String,
    now: Timestamp,
    route_id: u128,
) -> (outcome: PreemptOutcome)
    ensures
        outcome.cancelled is Some <==> old(state)@.active_route is Some,
        final(state)@ == old(state)@.preempted(
            claims@.sub,
            new_route(route_id, start@, destination@, now@, claims@.name),
            flag(outcome.cancelled),
            outcome.delivered,
        ),
{
    let revoke = match &state.manual_lock {
        Some(l) => !l.is_held_by(claims.sub.as_str()),
        None => false,
    };
    if revoke {
        state.manual_lock = None;
    }
    let mut cancelled: Option<bool> = None;
    let prior = state.active_route.take();
    match prior {
        Some(active) => {
            let taken = state.emit(RobotCommand::Cancel);
            state.queue.push_front(active);
            assert(state@.queue =~= seq![active@] + old(state)@.queue);
            cancelled = Some(taken);
        },
        None => {},
    }
    state.active_route = Some(
        QueuedRoute {
            id: route_id,
            start: start.clone(),
            destination: destination.clone(),
            added_at: now,
            added_by: claims.name.clone(),
        },
    );
    let delivered = state.emit(RobotCommand::Navigate { start, destination });
    PreemptOutcome { cancelled, delivered }
}

/// What the manual-drive socket did with a frame.
#[derive(Clone, Copy, Debug, PartialEq, Eq, Structural)]
pub enum FrameOutcome {
    /// The caller's role does not allow the command: nothing happened.
    Dropped,
    /// The command went to the bus.
    Forwarded { delivered: bool },
    /// An administrator's Navigate preempted the robot.
    Preempted { outcome: PreemptOutcome },
}

impl FrameOutcome {
    pub open spec fn cancelled(self) -> bool {
        match self {
            FrameOutcome::Preempted { outcome } => flag(outcome.cancelled),
            _ => false,
        }
    }

    pub open spec fn delivered(self) -> bool {
        match self {
            FrameOutcome::Dropped => false,
            FrameOutcome::Forwarded { delivered } => delivered,
            FrameOutcome::Preempted { outcome } => outcome.delivered,
        }
    }
}

impl StoreView {
    /// The allow-list of the manual-drive socket. An administrator may send
    /// every command. An operator may send drive commands, and only while
    /// holding an effective lock. Nobody else may send anything.
    pub open spec fn frame_allowed(self, c: ClaimsView, kind: CommandKind, now: int) -> bool {
        if is_admin_name(c.role) {
            true
        } else if can_operate_name(c.role) {
            kind == CommandKind::DriveCommand && self.lock_held_by(c.sub, now)
        } else {
            false
        }
    }

    /// Whether a frame triggers the preemption protocol.
    pub open spec fn frame_preempts(self, c: ClaimsView, command: CommandView) -> bool {
        is_admin_name(c.role) && command is Navigate
    }

    /// The store after a frame of the manual-drive socket.
    pub open spec fn after_frame(
        self,
        c: ClaimsView,
        command: CommandView,
        now: int,
        route_id: u128,
        cancelled: bool,
        delivered: bool,
    ) -> StoreView {
        if !self.frame_allowed(c, kind_of(command), now) {
            self
        } else if self.frame_preempts(c, command) {
            self.preempted(
                c.sub,
                new_route(
                    route_id,
                    command->Navigate_start,
                    command->Navigate_destination,
                    now,
                    c.name,
                ),
                cancelled,
                delivered,
            )
        } else {
            self.having_sent(command, delivered)
        }
    }
}

/// Handles one decoded frame of the manual-drive socket at `now`. A frame
/// that the caller's role does not allow is dropped silently. An
/// administrator's Navigate runs the preemption protocol, with `route_id` as
/// the id of the new active route; every other allowed command goes to the
/// bus as it is.
pub fn handle_manual_frame_at(
    state: &mut SharedRobotState,
    claims: &Claims,
    command: RobotCommand,
    now: Timestamp,
    route_id: u128,
) -> (outcome: FrameOutcome)
    ensures
        outcome is Dropped <==> !old(state)@.frame_allowed(claims@, kind_of(command@), now@),
        outcome is Preempted <==> old(state)@.frame_preempts(claims@, command@),
        outcome matches FrameOutcome::Preempted { outcome: p } ==> (p.cancelled is Some <==> old(
            state,
        )@.active_route is Some),
        final(state)@ == old(state)@.after_frame(
            claims@,
            command@,
            now@,
            route_id,
            outcome.cancelled(),
            outcome.delivered(),
        ),
{
    let role = claims.role.as_str();
    if !can_operate(role) {
        return FrameOutcome::Dropped;
    }
    if is_admin(role) {
        match command {
            RobotCommand::Navigate { start, destination } => {
                let outcome = preempt_at(state, claims, start, destination, now, route_id);
                FrameOutcome::Preempted { outcome }
            },
            other => {
                let delivered = state.emit(other);
                FrameOutcome::Forwarded { delivered }
            },
        }
    } else {
        match command.kind() {
            CommandKind::DriveCommand => {
                if state.holds_lock_at(claims.sub.as_str(), now) {
                    let delivered = state.emit(command);
                    FrameOutcome::Forwarded { delivered }
                } else {
                    FrameOutcome::Dropped
                }
            },
            _ => FrameOutcome::Dropped,
        }
    }
}

/// Handles one decoded frame of the manual-drive socket by the wall clock; a
/// route that it makes active gets a fresh random id.
pub fn handle_manual_frame(state: &mut SharedRobotState, claims: &Claims, command: RobotCommand) -> (outcome:
    FrameOutcome)
    ensures
        outcome is Preempted <==> old(state)@.frame_preempts(claims@, command@),
        exists|now: int, route_id: u128|
            (outcome is Dropped <==> !old(state)@.frame_allowed(claims@, kind_of(command@), now))
                && final(state)@ == #[trigger] old(state)@.after_frame(
                claims@,
                command@,
                now,
                route_id,
                outcome.cancelled(),
                outcome.delivered(),
            ),
{
    let now = wall_clock();
    let route_id = random_uuid();
    let ghost sent = command@;
    let outcome = handle_manual_frame_at(state, claims, command, now, route_id);
    assert((outcome is Dropped <==> !old(state)@.frame_allowed(claims@, kind_of(sent), now@))
        && state@ == old(state)@.after_frame(
        claims@,
        sent,
        now@,
        route_id,
        outcome.cancelled(),
        outcome.delivered(),
    ));
    outcome
}

impl StoreView {
    /// The public status report at `now`: the telemetry, or `UNKNOWN` and an
    /// empty battery where none has arrived; the holder of the lock if the
    /// lock is effective; and whether the robot is connected.
    pub open spec fn status(self, now: int) -> StatusView {
        let holder = match self.effective_lock(now) {
            Some(l) => Some(l.holder_name),
            None => None,
        };
        match self.telemetry {
            Some(t) => StatusView {
                system_health: t.system_health,
                battery_level: t.battery_level,
                drive_mode: t.drive_mode,
                cargo_status: t.cargo_status,
                last_route: match (t.last_node, t.target_node) {
                    (Some(start), Some(end)) => Some(
                        LastRouteView { start_node: start, end_node: end },
                    ),
                    _ => None,
                },
                position: t.current_position,
                manual_lock_holder_name: holder,
                robot_connected: self.robot_connected(now),
            },
            None => StatusView {
                system_health: "UNKNOWN"@,
                battery_level: 0,
                drive_mode: "UNKNOWN"@,
                cargo_status: "UNKNOWN"@,
                last_route: None,
                position: "UNKNOWN"@,
                manual_lock_holder_name: holder,
                robot_connected: self.robot_connected(now),
            },
        }
    }
}

/// The public status report at `now`.
pub fn get_status_at(state: &SharedRobotState, now: Timestamp) -> (status: StatusResponse)
    ensures
        status@ == state@.status(now@),
{
    let manual_lock_holder_name = match &state.manual_lock {
        Some(l) => {
            if l.is_effective_at(now) {
                Some(l.holder_name.clone())
            } else {
                None
            }
        },
        None => None,
    };
    let robot_connected = state.is_robot_connected_at(now);
    match &state.current_state {
        Some(rs) => {
            let last_route = match (&rs.last_node, &rs.target_node) {
                (Some(start), Some(end)) => Some(
                    LastRoute { start_node: start.clone(), end_node: end.clone() },
                ),
                _ => None,
            };
            StatusResponse {
                system_health: rs.system_health.clone(),
                battery_level: rs.battery_level,
                drive_mode: rs.drive_mode.clone(),
                cargo_status: rs.cargo_status.clone(),
                last_route,
                position: rs.current_position.clone(),
                manual_lock_holder_name,
                robot_connected,
            }
        },
        None => StatusResponse {
            system_health: UNKNOWN.to_owned(),
            battery_level: 0,
            drive_mode: UNKNOWN.to_owned(),
            cargo_status: UNKNOWN.to_owned(),
            last_route: None,
            position: UNKNOWN.to_owned(),
            manual_lock_holder_name,
            robot_connected,
        },
    }
}

/// The public status report by the wall clock.
pub fn get_status(state: &SharedRobotState) -> (status: StatusResponse)
    ensures
        exists|now: int| status@ == #[trigger] state@.status(now),
{
    let now = wall_clock();
    let status = get_status_at(state, now);
    assert(status@ == state@.status(now@));
    status
}

/// What to do for a request of the node list, once the key/value tier has
/// answered.
#[derive(Debug, PartialEq, Eq)]
pub enum NodesPlan {
    /// Answer with these nodes; `write_kv` asks to copy them to the
    /// key/value tier, which did not have them.
    Serve { nodes: Vec<String>, write_kv: bool },
    /// Ask the robot at this URL.
    Fetch { url: String },
    /// No tier has the list and the robot's URL is not known.
    Unavailable,
}

pub enum NodesPlanView {
    Serve { nodes: Seq<Seq<char>>, write_kv: bool },
    Fetch { url: Seq<char> },
    Unavailable,
}

impl View for NodesPlan {
    type V = NodesPlanView;

    open spec fn view(&self) -> NodesPlanView {
        match *self {
            NodesPlan::Serve { nodes, write_kv } => NodesPlanView::Serve {
                nodes: names_view(nodes@),
                write_kv,
            },
            NodesPlan::Fetch { url } => NodesPlanView::Fetch { url: url@ },
            NodesPlan::Unavailable => NodesPlanView::Unavailable,
        }
    }
}

/// The answer to a request of the node list.
#[derive(Debug)]
pub struct NodesReply {
    /// 200 with the list, or 503 with an empty one.
    pub status: u16,
    pub body: NodesResponse,
    /// Whether the list is to be written to the key/value tier.
    pub write_kv: bool,
}

impl StoreView {
    /// The plan for a request of the node list: the key/value tier first,
    /// then the list in memory, then the robot.
    pub open spec fn nodes_plan(self, kv: Option<Seq<Seq<char>>>) -> NodesPlanView {
        match kv {
            Some(nodes) => NodesPlanView::Serve { nodes, write_kv: false },
            None => match self.cached_nodes {
                Some(nodes) => NodesPlanView::Serve { nodes, write_kv: true },
                None => match self.robot_url {
                    Some(url) => NodesPlanView::Fetch { url: url + "/nodes"@ },
                    None => NodesPlanView::Unavailable,
                },
            },
        }
    }

    /// The store after the robot was asked for its nodes.
    pub open spec fn with_fetched_nodes(self, fetched: Option<Seq<Seq<char>>>) -> StoreView {
        match fetched {
            Some(nodes) => StoreView { cached_nodes: Some(nodes), ..self },
            None => self,
        }
    }
}

/// A copy of a list of names.
pub fn clone_names(names: &Vec<String>) -> (copy: Vec<String>)
    ensures
        copy@ == names@,
{
    let mut copy: Vec<String> = Vec::new();
    let mut i: usize = 0;
    while i < names.len()
        invariant
            i <= names.len(),
            copy@ =~= names@.subrange(0, i as int),
        decreases names.len() - i,
    {
        copy.push(names[i].clone());
        i = i + 1;
    }
    assert(names@.subrange(0, i as int) =~= names@);
    copy
}

/// Plans the answer to a request of the node list, given what the
/// key/value tier holds (`None` where it has nothing, or failed).
pub fn get_nodes(state: &SharedRobotState, kv: Option<Vec<String>>) -> (plan: NodesPlan)
    ensures
        plan@ == state@.nodes_plan(nodes_view(kv)),
{
    match kv {
        Some(nodes) => NodesPlan::Serve { nodes, write_kv: false },
        None => match &state.cached_nodes {
            Some(nodes) => NodesPlan::Serve { nodes: clone_names(nodes), write_kv: true },
            None => match &state.robot_url {
                Some(url) => NodesPlan::Fetch { url: join_text(url.as_str(), "/nodes") },
                None => NodesPlan::Unavailable,
            },
        },
    }
}

/// Finishes a request of the node list after the robot was asked: a list
/// that it gave is kept in memory, answered with 200 and passed on to the
/// key/value tier; a failed fetch is answered with 503 and an empty list.
pub fn store_fetched_nodes(state: &mut SharedRobotState, fetched: Option<Vec<String>>) -> (reply:
    NodesReply)
    ensures
        final(state)@ == old(state)@.with_fetched_nodes(nodes_view(fetched)),
        fetched matches Some(nodes) ==> reply.status == 200 && reply.write_kv && names_view(
            reply.body.nodes@,
        ) == names_view(nodes@),
        fetched is None ==> reply.status == 503 && !reply.write_kv && reply.body.nodes@.len() == 0,
{
    match fetched {
        Some(nodes) => {
            let body = NodesResponse { nodes: clone_names(&nodes) };
            state.cached_nodes = Some(nodes);
            NodesReply { status: 200, body, write_kv: true }
        },
        None => NodesReply { status: 503, body: NodesResponse { nodes: Vec::new() }, write_kv: false },
    }
}

/// What a probe of the robot's health endpoint gave.
#[derive(Debug)]
pub enum Probe {
    /// No URL of the robot is on record, so nothing was asked.
    NoUrl,
    /// The request failed, for this reason.
    Unreachable { reason: String },
    /// The robot answered with this HTTP status.
    Answered { status: u16 },
}

/// The report of a connection check.
#[derive(Debug, PartialEq, Eq)]
pub struct ConnectionReport {
    /// Whether the robot answered the probe.
    pub reached: bool,
    /// Whether telemetry is fresh.
    pub connected: bool,
    pub robot_status: Option<u16>,
    pub url: Option<String>,
    pub message: Option<String>,
}

pub struct ConnectionReportView {
    pub reached: bool,
    pub connected: bool,
    pub robot_status: Option<u16>,
    pub url: Option<Seq<char>>,
    pub message: Option<Seq<char>>,
}

impl View for ConnectionReport {
    type V = ConnectionReportView;

    open spec fn view(&self) -> ConnectionReportView {
        ConnectionReportView {
            reached: self.reached,
            connected: self.connected,
            robot_status: self.robot_status,
            url: url_view(self.url),
            message: url_view(self.message),
        }
    }
}

impl StoreView {
    /// The URL of the robot's health endpoint, if the robot's URL is known.
    pub open spec fn health_url(self) -> Option<Seq<char>> {
        match self.robot_url {
            Some(url) => Some(url + "/health"@),
            None => None,
        }
    }

    /// The report of a connection check at `now`.
    pub open spec fn connection_report(self, probe: Probe, now: int) -> ConnectionReportView {
        match probe {
            Probe::NoUrl => ConnectionReportView {
                reached: false,
                connected: self.robot_connected(now),
                robot_status: None,
                url: None,
                message: Some("No robot URL registered"@),
            },
            Probe::Unreachable { reason } => ConnectionReportView {
                reached: false,
                connected: self.robot_connected(now),
                robot_status: None,
                url: self.robot_url,
                message: Some("Failed to reach robot: "@ + reason@),
            },
            Probe::Answered { status } => ConnectionReportView {
                reached: true,
                connected: self.robot_connected(now),
                robot_status: Some(status),
                url: self.robot_url,
                message: None,
            },
        }
    }
}

/// The URL to probe for a connection check.
pub fn health_url(state: &SharedRobotState) -> (url: Option<String>)
    ensures
        url_view(url) == state@.health_url(),
{
    match &state.robot_url {
        Some(url) => Some(join_text(url.as_str(), "/health")),
        None => None,
    }
}

/// Reports on the connection to the robot at `now`: what the probe of its
/// health endpoint gave, and whether its telemetry is fresh.
pub fn check_robot_connection_at(state: &SharedRobotState, probe: Probe, now: Timestamp) -> (report:
    ConnectionReport)
    ensures
        report@ == state@.connection_report(probe, now@),
{
    let connected = state.is_robot_connected_at(now);
    match probe {
        Probe::NoUrl => ConnectionReport {
            reached: false,
            connected,
            robot_status: None,
            url: None,
            message: Some("No robot URL registered".to_owned()),
        },
        Probe::Unreachable { reason } => ConnectionReport {
            reached: false,
            connected,
            robot_status: None,
            url: clone_text(&state.robot_url),
            message: Some(join_text("Failed to reach robot: ", reason.as_str())),
        },
        Probe::Answered { status } => ConnectionReport {
            reached: true,
            connected,
            robot_status: Some(status),
            url: clone_text(&state.robot_url),
            message: None,
        },
    }
}

/// Reports on the connection to the robot by the wall clock.
pub fn check_robot_connection(state: &SharedRobotState, probe: Probe) -> (report: ConnectionReport)
    ensures
        exists|now: int| report@ == #[trigger] state@.connection_report(probe, now),
{
    let now = wall_clock();
    let ghost asked = probe;
    let report = check_robot_connection_at(state, probe, now);
    assert(report@ == state@.connection_report(asked, now@));
    report
}

} // verus!
