//! The robot control core.

pub mod bus;
pub mod client_routes;
pub mod discovery;
pub mod laws;
pub mod models;
pub mod optimization_helper;
pub mod queue_routes;
pub mod robot_routes;
pub mod state;
pub mod telemetry;

use crate::clock::{wall_clock, Timestamp};
use crate::robot::bus::Emission;
use crate::robot::models::{
    navigate_to, route_view, CommandView, QueuedRoute, RobotCommand, RouteView,
};
use crate::robot::state::{SharedRobotState, StoreView};
use vstd::prelude::*;

verus! {

/// How a pass of the queue dispatcher ended.
#[derive(Clone, Copy, Debug, PartialEq, Eq, Structural)]
pub enum DispatchOutcome {
    /// The dispatch precondition did not hold, or the queue was empty.
    NotReady,
    /// The head of the queue was sent to the robot and is now the active route.
    Dispatched,
    /// The bus did not take the command; the route is back at the head.
    Requeued,
}

impl StoreView {
    /// The dispatch precondition: no effective lock, a connected robot that
    /// reports idle, no active route, and a route waiting.
    pub open spec fn dispatch_ready(self, now: int) -> bool {
        &&& self.effective_lock(now) is None
        &&& self.robot_connected(now)
        &&& self.telemetry matches Some(t) && t.is_idle()
        &&& self.active_route is None
        &&& self.queue.len() > 0
    }

    /// The store with the head of its queue taken out.
    pub open spec fn without_head(self) -> StoreView {
        StoreView { queue: self.queue.drop_first(), ..self }
    }

    /// The store after a send to the bus.
    pub open spec fn having_sent(self, command: CommandView, delivered: bool) -> StoreView {
        StoreView { emissions: self.emissions.push(Emission { command, delivered }), ..self }
    }

    /// The store after the Navigate for `route` came back from the bus: the
    /// route is active if the bus took the command, and back at the head of
    /// the queue if it did not.
    pub open spec fn settled(self, route: RouteView, delivered: bool) -> StoreView {
        if delivered {
            StoreView { active_route: Some(route), ..self }
        } else {
            StoreView { queue: seq![route] + self.queue, ..self }
        }
    }

    /// The store after a pass of the dispatcher at `now`, given what the bus
    /// did with the command.
    pub open spec fn after_dispatch(self, now: int, delivered: bool) -> StoreView {
        if self.dispatch_ready(now) {
            let head = self.queue[0];
            self.without_head().having_sent(navigate_to(head), delivered).settled(head, delivered)
        } else {
            self
        }
    }
}

impl SharedRobotState {
    /// Steps one to five of the dispatcher: where the dispatch precondition
    /// holds at `now`, takes the head of the queue out and hands it back;
    /// otherwise changes nothing.
    pub fn take_next_route_at(&mut self, now: Timestamp) -> (next: Option<QueuedRoute>)
        ensures
            old(self)@.dispatch_ready(now@) ==> route_view(next) == Some(old(self)@.queue[0])
                && final(self)@ == old(self)@.without_head(),
            !old(self)@.dispatch_ready(now@) ==> next is None && final(self)@ == old(self)@,
    {
        if self.is_locked_at(now) {
            return None;
        }
        if !self.is_robot_connected_at(now) {
            return None;
        }
        let is_idle = match &self.current_state {
            Some(s) => s.is_idle(),
            None => false,
        };
        if !is_idle {
            return None;
        }
        if self.active_route.is_some() {
            return None;
        }
        let next = self.queue.pop_front();
        proof {
            if next is Some {
                assert(self@.queue =~= old(self)@.queue.drop_first());
            } else {
                assert(self@.queue =~= old(self)@.queue);
            }
        }
        next
    }

    /// Step six of the dispatcher, after the send: makes `route` the active
    /// route if the bus took its command, and puts it back at the head of the
    /// queue if not.
    pub fn settle_dispatch(&mut self, route: QueuedRoute, delivered: bool)
        ensures
            final(self)@ == old(self)@.settled(route@, delivered),
    {
        if delivered {
            self.active_route = Some(route);
        } else {
            self.queue.push_front(route);
            assert(self@.queue =~= seq![route@] + old(self)@.queue);
        }
    }

    /// Sends a command on the bus, whatever the state of the store.
    pub fn emit(&mut self, command: RobotCommand) -> (delivered: bool)
        ensures
            final(self)@ == old(self)@.having_sent(command@, delivered),
    {
        self.command_sender.send(command)
    }
}

/// One pass of the queue dispatcher at `now`. Where the dispatch precondition
/// holds, the head of the queue is sent to the robot as a Navigate command; it
/// becomes the active route if the bus took the command and returns to the
/// head of the queue if not. Otherwise nothing changes.
pub fn process_queue_at(state: &mut SharedRobotState, now: Timestamp) -> (outcome: DispatchOutcome)
    ensures
        outcome is NotReady <==> !old(state)@.dispatch_ready(now@),
        final(state)@ == old(state)@.after_dispatch(now@, outcome is Dispatched),
{
    match state.take_next_route_at(now) {
        None => DispatchOutcome::NotReady,
        Some(next_route) => {
            let command = RobotCommand::Navigate {
                start: next_route.start.clone(),
                destination: next_route.destination.clone(),
            };
            let delivered = state.emit(command);
            state.settle_dispatch(next_route, delivered);
            if delivered {
                DispatchOutcome::Dispatched
            } else {
                DispatchOutcome::Requeued
            }
        },
    }
}

/// One pass of the queue dispatcher by the wall clock.
pub fn process_queue(state: &mut SharedRobotState) -> (outcome: DispatchOutcome)
    ensures
        exists|now: int|
            (outcome is NotReady <==> !#[trigger] old(state)@.dispatch_ready(now))
                && final(state)@ == old(state)@.after_dispatch(now, outcome is Dispatched),
{
    let now = wall_clock();
    let outcome = process_queue_at(state, now);
    assert((outcome is NotReady <==> !old(state)@.dispatch_ready(now@))
        && state@ == old(state)@.after_dispatch(now@, outcome is Dispatched));
    outcome
}

impl StoreView {
    /// The store after a tick of the expiry sweeper at `now`: an expired
    /// lock is cleared, and only then does the dispatcher run.
    pub open spec fn after_sweep(self, now: int, delivered: bool) -> StoreView {
        if self.has_expired_lock(now) {
            self.swept(now).after_dispatch(now, delivered)
        } else {
            self
        }
    }
}

/// One tick of the expiry sweeper at `now`: clears the lock if it has
/// expired and, if it did, runs the dispatcher. `None` where no lock was
/// cleared; otherwise how the dispatch ended.
pub fn sweep_at(state: &mut SharedRobotState, now: Timestamp) -> (swept: Option<DispatchOutcome>)
    ensures
        swept is Some <==> old(state)@.has_expired_lock(now@),
        swept matches Some(outcome) ==> (outcome is NotReady <==> !old(state)@.swept(
            now@,
        ).dispatch_ready(now@)),
        final(state)@ == old(state)@.after_sweep(now@, swept == Some(DispatchOutcome::Dispatched)),
{
    if state.clear_expired_lock_at(now) {
        Some(process_queue_at(state, now))
    } else {
        None
    }
}

/// One tick of the expiry sweeper by the wall clock.
pub fn sweep(state: &mut SharedRobotState) -> (swept: Option<DispatchOutcome>)
    ensures
        exists|now: int|
            (swept is Some <==> #[trigger] old(state)@.has_expired_lock(now)) && final(state)@
                == old(state)@.after_sweep(now, swept == Some(DispatchOutcome::Dispatched)),
{
    let now = wall_clock();
    let swept = sweep_at(state, now);
    assert((swept is Some <==> old(state)@.has_expired_lock(now@)) && state@ == old(
        state,
    )@.after_sweep(now@, swept == Some(DispatchOutcome::Dispatched)));
    swept
}

} // verus!
