//! The robot state store: one owning record of telemetry, lock, queue and
//! active route, with the predicates that every rule of the core reads.

use crate::clock::{wall_clock, Timestamp, ROBOT_STALE_TIMEOUT_SECS};
use crate::ids::{uuid_text, uuid_to_text};
use crate::robot::bus::{CommandBus, Emission, COMMAND_BUS_CAPACITY};
use crate::robot::models::{
    route_view, route_views, QueuedRoute, RobotState, RobotStateView, RouteView,
};
use crate::text::str_eq;
use std::collections::VecDeque;
use vstd::prelude::*;

verus! {

/// The manual-drive lock: who holds it, and until when.
#[derive(Debug, PartialEq, Eq)]
pub struct LockInfo {
    pub holder_id: u128,
    pub holder_name: String,
    pub expires_at: Timestamp,
}

pub struct LockView {
    pub holder_id: u128,
    pub holder_name: Seq<char>,
    pub expires_at: int,
}

impl View for LockInfo {
    type V = LockView;

    open spec fn view(&self) -> LockView {
        LockView {
            holder_id: self.holder_id,
            holder_name: self.holder_name@,
            expires_at: self.expires_at@,
        }
    }
}

impl Clone for LockInfo {
    fn clone(&self) -> (c: LockInfo)
        ensures
            c == *self,
    {
        LockInfo {
            holder_id: self.holder_id,
            holder_name: self.holder_name.clone(),
            expires_at: self.expires_at,
        }
    }
}

impl LockView {
    /// A lock is effective while its expiry lies strictly in the future.
    pub open spec fn effective(self, now: int) -> bool {
        self.expires_at > now
    }

    /// Whether the user with this token subject holds the lock: the subject
    /// is the text form of the holder's identifier.
    pub open spec fn held_by(self, sub: Seq<char>) -> bool {
        uuid_text(self.holder_id) == sub
    }
}

impl LockInfo {
    pub fn is_effective_at(&self, now: Timestamp) -> (yes: bool)
        ensures
            yes == self@.effective(now@),
    {
        self.expires_at.is_after(now)
    }

    pub fn is_held_by(&self, sub: &str) -> (yes: bool)
        ensures
            yes == self@.held_by(sub@),
    {
        let holder = uuid_to_text(self.holder_id);
        str_eq(holder.as_str(), sub)
    }
}

pub open spec fn lock_view(l: Option<LockInfo>) -> Option<LockView> {
    match l {
        Some(k) => Some(k@),
        None => None,
    }
}

pub open spec fn telemetry_view(t: Option<RobotState>) -> Option<RobotStateView> {
    match t {
        Some(s) => Some(s@),
        None => None,
    }
}

pub open spec fn instant_view(t: Option<Timestamp>) -> Option<int> {
    match t {
        Some(i) => Some(i@),
        None => None,
    }
}

pub open spec fn url_view(u: Option<String>) -> Option<Seq<char>> {
    match u {
        Some(s) => Some(s@),
        None => None,
    }
}

/// The texts of a list of names, in order.
pub open spec fn names_view(ns: Seq<String>) -> Seq<Seq<char>> {
    ns.map_values(|s: String| s@)
}

pub open spec fn nodes_view(n: Option<Vec<String>>) -> Option<Seq<Seq<char>>> {
    match n {
        Some(v) => Some(names_view(v@)),
        None => None,
    }
}

/// The state of the control core, process-wide. The caller serialises access;
/// every operation on it is one transaction.
pub struct SharedRobotState {
    pub current_state: Option<RobotState>,
    pub last_state_update: Option<Timestamp>,
    pub manual_lock: Option<LockInfo>,
    pub command_sender: CommandBus,
    pub robot_url: Option<String>,
    pub cached_nodes: Option<Vec<String>>,
    pub queue: VecDeque<QueuedRoute>,
    pub active_route: Option<QueuedRoute>,
}

/// The store as a mathematical value.
pub struct StoreView {
    pub telemetry: Option<RobotStateView>,
    pub last_update: Option<int>,
    pub lock: Option<LockView>,
    pub emissions: Seq<Emission>,
    pub robot_url: Option<Seq<char>>,
    pub cached_nodes: Option<Seq<Seq<char>>>,
    pub queue: Seq<RouteView>,
    pub active_route: Option<RouteView>,
}

impl View for SharedRobotState {
    type V = StoreView;

    open spec fn view(&self) -> StoreView {
        StoreView {
            telemetry: telemetry_view(self.current_state),
            last_update: instant_view(self.last_state_update),
            lock: lock_view(self.manual_lock),
            emissions: self.command_sender@,
            robot_url: url_view(self.robot_url),
            cached_nodes: nodes_view(self.cached_nodes),
            queue: route_views(self.queue@),
            active_route: route_view(self.active_route),
        }
    }
}

impl StoreView {
    /// The store at start-up: nothing known, nothing queued, nothing sent.
    pub open spec fn initial() -> StoreView {
        StoreView {
            telemetry: None,
            last_update: None,
            lock: None,
            emissions: Seq::empty(),
            robot_url: None,
            cached_nodes: None,
            queue: Seq::empty(),
            active_route: None,
        }
    }

    /// The stored lock, if it is effective at `now`; otherwise no lock.
    pub open spec fn effective_lock(self, now: int) -> Option<LockView> {
        match self.lock {
            Some(l) => if l.effective(now) {
                Some(l)
            } else {
                None
            },
            None => None,
        }
    }

    /// The robot is connected while its last telemetry is younger than the
    /// stale timeout.
    pub open spec fn robot_connected(self, now: int) -> bool {
        match self.last_update {
            Some(t) => now - t < ROBOT_STALE_TIMEOUT_SECS * 1000,
            None => false,
        }
    }

    /// Whether the slot holds a lock that is no longer effective.
    pub open spec fn has_expired_lock(self, now: int) -> bool {
        self.lock is Some && self.effective_lock(now) is None
    }

    /// The store after the sweeper passed at `now`.
    pub open spec fn swept(self, now: int) -> StoreView {
        if self.has_expired_lock(now) {
            StoreView { lock: None, ..self }
        } else {
            self
        }
    }

    /// Whether the user with this token subject holds an effective lock.
    pub open spec fn lock_held_by(self, sub: Seq<char>, now: int) -> bool {
        match self.effective_lock(now) {
            Some(l) => l.held_by(sub),
            None => false,
        }
    }
}

impl SharedRobotState {
    /// An empty store with a command bus of the usual capacity.
    pub fn new() -> (s: SharedRobotState)
        ensures
            s@ == StoreView::initial(),
    {
        let s = SharedRobotState {
            current_state: None,
            last_state_update: None,
            manual_lock: None,
            command_sender: CommandBus::new(COMMAND_BUS_CAPACITY),
            robot_url: None,
            cached_nodes: None,
            queue: VecDeque::new(),
            active_route: None,
        };
        assert(s@.queue =~= Seq::<RouteView>::empty());
        s
    }

    /// Whether the robot posted telemetry within the stale timeout before `now`.
    pub fn is_robot_connected_at(&self, now: Timestamp) -> (connected: bool)
        ensures
            connected == self@.robot_connected(now@),
    {
        match &self.last_state_update {
            Some(t) => now.within_secs_of(*t, ROBOT_STALE_TIMEOUT_SECS),
            None => false,
        }
    }

    /// Whether the robot is connected by the wall clock. With no telemetry
    /// ever received the answer is `false` whatever the clock says.
    pub fn is_robot_connected(&self) -> (connected: bool)
        ensures
            exists|now: int| connected == #[trigger] self@.robot_connected(now),
    {
        let now = wall_clock();
        let connected = self.is_robot_connected_at(now);
        assert(connected == self@.robot_connected(now@));
        connected
    }

    /// A copy of the lock if it is effective at `now`. The store is not
    /// changed: an expired lock stays in its slot until it is swept.
    pub fn effective_lock_at(&self, now: Timestamp) -> (lock: Option<LockInfo>)
        ensures
            lock_view(lock) == self@.effective_lock(now@),
    {
        match &self.manual_lock {
            Some(l) => {
                if l.is_effective_at(now) {
                    Some(l.clone())
                } else {
                    None
                }
            },
            None => None,
        }
    }

    /// A copy of the lock if it is effective by the wall clock.
    pub fn effective_lock(&self) -> (lock: Option<LockInfo>)
        ensures
            exists|now: int| lock_view(lock) == #[trigger] self@.effective_lock(now),
    {
        let now = wall_clock();
        let lock = self.effective_lock_at(now);
        assert(lock_view(lock) == self@.effective_lock(now@));
        lock
    }

    /// Whether an effective lock exists at `now`.
    pub fn is_locked_at(&self, now: Timestamp) -> (locked: bool)
        ensures
            locked == self@.effective_lock(now@) is Some,
    {
        match &self.manual_lock {
            Some(l) => l.is_effective_at(now),
            None => false,
        }
    }

    /// Whether the user with this token subject holds an effective lock.
    pub fn holds_lock_at(&self, sub: &str, now: Timestamp) -> (holds: bool)
        ensures
            holds == self@.lock_held_by(sub@, now@),
    {
        match &self.manual_lock {
            Some(l) => l.is_effective_at(now) && l.is_held_by(sub),
            None => false,
        }
    }

    /// Clears the lock if it has expired at `now`, and says whether it did.
    pub fn clear_expired_lock_at(&mut self, now: Timestamp) -> (cleared: bool)
        ensures
            cleared == old(self)@.has_expired_lock(now@),
            final(self)@ == old(self)@.swept(now@),
    {
        let expired = match &self.manual_lock {
            Some(l) => !l.is_effective_at(now),
            None => false,
        };
        if expired {
            self.manual_lock = None;
        }
        expired
    }

    /// Clears the lock if it has expired by the wall clock. Returns true if a
    /// lock was cleared.
    pub fn clear_expired_lock(&mut self) -> (cleared: bool)
        ensures
            exists|now: int|
                cleared == #[trigger] old(self)@.has_expired_lock(now)
                    && final(self)@ == old(self)@.swept(now),
    {
        let now = wall_clock();
        let cleared = self.clear_expired_lock_at(now);
        assert(cleared == old(self)@.has_expired_lock(now@) && self@ == old(self)@.swept(now@));
        cleared
    }
}

impl Default for SharedRobotState {
    fn default() -> (s: SharedRobotState)
        ensures
            s@ == StoreView::initial(),
    {
        SharedRobotState::new()
    }
}

} // verus!
