//! Route queue: listing, adding, deleting.

use crate::auth::models::{Claims, ClaimsView};
use crate::auth::roles::{is_admin, is_admin_name};
use crate::clock::{wall_clock, Timestamp};
use crate::error::{ControlError, ControlErrorView};
use crate::ids::random_uuid;
use crate::robot::client_routes::{new_route, refusal_view};
use crate::robot::models::{route_views, QueuedRoute, RouteView};
use crate::robot::optimization_helper::{
    arrivals, endpoint_cost, endpoint_costs, is_optimized, optimizer_restless,
    solve_with_costs_within, CostMatrix,
};
use crate::robot::state::{SharedRobotState, StoreView};
use crate::robot::{process_queue_at, DispatchOutcome};
use std::collections::VecDeque;
use vstd::prelude::*;

verus! {

/// The body of a request to add a route.
#[derive(Debug)]
pub struct AddRouteRequest {
    pub start: String,
    pub destination: String,
}

/// Whether position `i` holds the first route of `queue` with the id `id`.
pub open spec fn is_first_with_id(queue: Seq<RouteView>, id: u128, i: int) -> bool {
    &&& 0 <= i < queue.len()
    &&& queue[i].id == id
    &&& forall|j: int| 0 <= j < i ==> queue[j].id != id
}

/// Whether some route of `queue` has the id `id`.
pub open spec fn has_id(queue: Seq<RouteView>, id: u128) -> bool {
    exists|i: int| 0 <= i < queue.len() && queue[i].id == id
}

impl StoreView {
    /// What the route listing shows: the active route, if any, then the
    /// queue in order.
    pub open spec fn listing(self) -> Seq<RouteView> {
        match self.active_route {
            Some(a) => seq![a] + self.queue,
            None => self.queue,
        }
    }

    /// Why an administrator's request is refused, if it is.
    pub open spec fn admin_refusal(c: ClaimsView) -> Option<ControlErrorView> {
        if !is_admin_name(c.role) {
            Some(ControlErrorView::Forbidden)
        } else {
            None
        }
    }

    /// The store after a request to add a route, given how the dispatch that
    /// follows it ended.
    pub open spec fn after_add(self, c: ClaimsView, route: RouteView, now: int, delivered: bool) -> StoreView {
        if is_admin_name(c.role) {
            self.with_queued(route).after_dispatch(now, delivered)
        } else {
            self
        }
    }

    /// Why a request to delete the route `id` is refused, if it is.
    pub open spec fn delete_refusal(self, c: ClaimsView, id: u128) -> Option<ControlErrorView> {
        if !is_admin_name(c.role) {
            Some(ControlErrorView::Forbidden)
        } else if !has_id(self.queue, id) {
            Some(ControlErrorView::NotFound)
        } else {
            None
        }
    }

    /// The store with the queue entry at position `i` taken out.
    pub open spec fn without_entry(self, i: int) -> StoreView {
        StoreView { queue: self.queue.remove(i), ..self }
    }
}

/// The routes as the listing shows them: the active route first, if there is
/// one, then the queue from head to tail. The result is a copy.
pub fn get_routes(state: &SharedRobotState) -> (routes: Vec<QueuedRoute>)
    ensures
        route_views(routes@) == state@.listing(),
{
    let mut routes: Vec<QueuedRoute> = Vec::new();
    match &state.active_route {
        Some(route) => {
            routes.push(route.clone());
        },
        None => {},
    }
    let ghost lead = route_views(routes@);
    assert(state@.listing() =~= lead + state@.queue);
    let mut i: usize = 0;
    while i < state.queue.len()
        invariant
            i <= state.queue@.len(),
            route_views(routes@) =~= lead + state@.queue.subrange(0, i as int),
        decreases state.queue@.len() - i,
    {
        let ghost before = routes@;
        routes.push(state.queue[i].clone());
        assert(route_views(routes@) =~= route_views(before).push(state.queue@[i as int]@));
        assert(state@.queue.subrange(0, i + 1) =~= state@.queue.subrange(0, i as int).push(
            state.queue@[i as int]@,
        ));
        i = i + 1;
    }
    assert(state@.queue.subrange(0, i as int) =~= state@.queue);
    routes
}

/// Appends a route for an administrator at `now`, under the id `route_id`,
/// and runs the dispatcher. Hands back the new entry and how the dispatch ended.
pub fn add_route_at(
    state: &mut SharedRobotState,
    claims: &Claims,
    request: AddRouteRequest,
    now: Timestamp,
    route_id: u128,
) -> (added: Result<(QueuedRoute, DispatchOutcome), ControlError>)
    ensures
        refusal_view(added) == StoreView::admin_refusal(claims@),
        added matches Ok(pair) ==> pair.0@ == new_route(
            route_id,
            request.start@,
            request.destination@,
            now@,
            claims@.name,
        ) && (pair.1 is NotReady <==> !old(state)@.with_queued(pair.0@).dispatch_ready(now@)),
        final(state)@ == old(state)@.after_add(
            claims@,
            new_route(route_id, request.start@, request.destination@, now@, claims@.name),
            now@,
            added_dispatched(added),
        ),
{
    if !is_admin(claims.role.as_str()) {
        return Err(ControlError::Forbidden);
    }
    let route = QueuedRoute {
        id: route_id,
        start: request.start,
        destination: request.destination,
        added_at: now,
        added_by: claims.name.clone(),
    };
    state.queue.push_back(route.clone());
    assert(state@.queue =~= old(state)@.queue.push(route@));
    let outcome = process_queue_at(state, now);
    Ok((route, outcome))
}

/// Whether a request to add a route ended with a route sent to the robot.
pub open spec fn added_dispatched(r: Result<(QueuedRoute, DispatchOutcome), ControlError>) -> bool {
    r matches Ok(pair) && pair.1 is Dispatched
}

/// Appends a route for an administrator by the wall clock, under a fresh
/// random id.
pub fn add_route(state: &mut SharedRobotState, claims: &Claims, request: AddRouteRequest) -> (added:
    Result<(QueuedRoute, DispatchOutcome), ControlError>)
    ensures
        refusal_view(added) == StoreView::admin_refusal(claims@),
        exists|now: int, route_id: u128|
            (added matches Ok(pair) ==> pair.0@ == #[trigger] new_route(
                route_id,
                request.start@,
                request.destination@,
                now,
                claims@.name,
            )) && final(state)@ == old(state)@.after_add(
                claims@,
                new_route(route_id, request.start@, request.destination@, now, claims@.name),
                now,
                added_dispatched(added),
            ),
{
    let now = wall_clock();
    let route_id = random_uuid();
    let ghost route = new_route(route_id, request.start@, request.destination@, now@, claims@.name);
    let added = add_route_at(state, claims, request, now, route_id);
    assert((added matches Ok(pair) ==> pair.0@ == route) && state@ == old(state)@.after_add(
        claims@,
        route,
        now@,
        added_dispatched(added),
    ));
    added
}

/// Removes the first queued route with the id `id`, for an administrator. The
/// active route is not touched. `NotFound` where no queued route has the id.
pub fn delete_route(state: &mut SharedRobotState, claims: &Claims, id: u128) -> (deleted: Result<
    (),
    ControlError,
>)
    ensures
        refusal_view(deleted) == old(state)@.delete_refusal(claims@, id),
        deleted is Ok ==> exists|i: int|
            is_first_with_id(old(state)@.queue, id, i) && final(state)@ == #[trigger] old(
                state,
            )@.without_entry(i),
        deleted is Err ==> final(state)@ == old(state)@,
{
    if !is_admin(claims.role.as_str()) {
        return Err(ControlError::Forbidden);
    }
    let mut pos: usize = 0;
    while pos < state.queue.len() && state.queue[pos].id != id
        invariant
            pos <= state.queue@.len(),
            forall|j: int| 0 <= j < pos ==> state@.queue[j].id != id,
            *state == *old(state),
        decreases state.queue@.len() - pos,
    {
        pos = pos + 1;
    }
    if pos < state.queue.len() {
        assert(is_first_with_id(old(state)@.queue, id, pos as int));
        state.queue.remove(pos);
        assert(state@.queue =~= old(state)@.queue.remove(pos as int));
        assert(state@ == old(state)@.without_entry(pos as int));
        Ok(())
    } else {
        Err(ControlError::NotFound)
    }
}

/// Whether a matrix holds the cost that is in service for every pair of
/// the routes of a queue.
pub open spec fn is_endpoint_matrix(m: CostMatrix, queue: Seq<RouteView>) -> bool {
    &&& m.wf()
    &&& m.size() == queue.len()
    &&& forall|a: int, b: int|
        0 <= a < queue.len() && 0 <= b < queue.len() ==> #[trigger] m.entry(a, b) == endpoint_cost(
            queue[a].destination,
            queue[b].start,
        )
}

/// Whether `result` is the queue `queue` in the order the optimizer gives
/// it under the cost that is in service.
pub open spec fn is_optimized_queue(result: Seq<RouteView>, queue: Seq<RouteView>) -> bool {
    exists|m: CostMatrix| #[trigger] is_endpoint_matrix(m, queue) && is_optimized(result, queue, m)
}

/// Whether the optimizer is still moving on the queue in each of its first
/// `passes` passes of 2-opt.
pub open spec fn is_restless_queue(queue: Seq<RouteView>, passes: nat) -> bool {
    exists|m: CostMatrix| #[trigger]
        is_endpoint_matrix(m, queue) && optimizer_restless(arrivals(queue), m, passes)
}

/// Reorders the queue for an administrator, by the optimizer under the cost
/// that is in service, with at most `max_passes` passes of 2-opt. The result
/// says whether the queue was reordered: where 2-opt did not come to rest
/// within the passes allowed, the queue stays as it is. The active route is
/// not touched.
pub fn optimize_routes(state: &mut SharedRobotState, claims: &Claims, max_passes: usize) -> (optimized:
    Result<bool, ControlError>)
    ensures
        refusal_view(optimized) == StoreView::admin_refusal(claims@),
        optimized matches Ok(reordered) ==> (if reordered {
            is_optimized_queue(final(state)@.queue, old(state)@.queue)
        } else {
            is_restless_queue(old(state)@.queue, max_passes as nat) && final(state)@.queue == old(
                state,
            )@.queue
        }) && final(state)@ == (StoreView { queue: final(state)@.queue, ..old(state)@ }),
        optimized is Err ==> final(state)@ == old(state)@,
{
    if !is_admin(claims.role.as_str()) {
        return Err(ControlError::Forbidden);
    }
    let mut routes: Vec<QueuedRoute> = Vec::new();
    let mut i: usize = 0;
    while i < state.queue.len()
        invariant
            i <= state.queue@.len(),
            routes@ =~= state.queue@.subrange(0, i as int),
            *state == *old(state),
        decreases state.queue@.len() - i,
    {
        routes.push(state.queue[i].clone());
        i = i + 1;
    }
    assert(routes@ =~= state.queue@);
    let m = endpoint_costs(&routes);
    proof {
        assert forall|a: int, b: int|
            0 <= a < state@.queue.len() && 0 <= b < state@.queue.len() implies #[trigger] m.entry(
            a,
            b,
        ) == endpoint_cost(state@.queue[a].destination, state@.queue[b].start) by {
            assert(state@.queue[a] == routes@[a]@);
            assert(state@.queue[b] == routes@[b]@);
        }
        assert(is_endpoint_matrix(m, old(state)@.queue));
    }
    match solve_with_costs_within(routes, &m, max_passes) {
        Some(path) => {
            let mut queue: VecDeque<QueuedRoute> = VecDeque::new();
            let mut k: usize = 0;
            while k < path.len()
                invariant
                    k <= path@.len(),
                    queue@ =~= path@.subrange(0, k as int),
                decreases path@.len() - k,
            {
                queue.push_back(path[k].clone());
                k = k + 1;
            }
            assert(queue@ =~= path@);
            state.queue = queue;
            Ok(true)
        },
        None => Ok(false),
    }
}

} // verus!
