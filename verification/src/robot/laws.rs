//! What holds of the control core whatever the inputs: statements that tie
//! several of its operations together.

use crate::auth::models::ClaimsView;
use crate::auth::roles::is_admin_name;
use crate::clock::LOCK_TTL_SECS;
use crate::robot::bus::{commands_of, Emission};
use crate::robot::client_routes::new_route;
use crate::robot::models::{
    kind_of, navigate_to, CommandKind, CommandView, RobotStateView, RouteView,
};
use crate::robot::optimization_helper::{
    arranged, arrivals, is_arrangement, is_optimized, is_solution, CostMatrix,
};
use crate::robot::state::StoreView;
use vstd::prelude::*;

verus! {

/// The store has one slot for the lock, so at most one lock exists; and at
/// every instant the effective lock is the stored one exactly when its
/// expiry lies strictly after that instant.
pub proof fn effective_lock_is_unexpired_lock(s: StoreView, t: int)
    ensures
        s.effective_lock(t) is Some <==> (s.lock is Some && s.lock->0.expires_at > t),
        s.effective_lock(t) is Some ==> s.effective_lock(t) == s.lock,
{
}

/// An expired lock counts as no lock: every check gives the same answer
/// before and after the sweeper clears it.
pub proof fn expired_lock_is_no_lock(s: StoreView, c: ClaimsView, now: int)
    requires
        s.has_expired_lock(now),
    ensures
        s.swept(now).lock is None,
        s.dispatch_ready(now) == s.swept(now).dispatch_ready(now),
        s.acquire_refusal(c, now) == s.swept(now).acquire_refusal(c, now),
        s.release_refusal(c, now) == s.swept(now).release_refusal(c, now),
        s.select_refusal(c, now) == s.swept(now).select_refusal(c, now),
        s.status(now) == s.swept(now).status(now),
        forall|k| s.frame_allowed(c, k, now) == s.swept(now).frame_allowed(c, k, now),
{
}

/// A dispatch that makes a route active sent exactly one Navigate for that
/// route, which the bus took; the route was the head of the queue, and the
/// queue is shorter by that one entry.
pub proof fn dispatch_sends_the_head(s: StoreView, now: int, delivered: bool, r: RouteView)
    requires
        s.active_route is None,
        s.after_dispatch(now, delivered).active_route == Some(r),
    ensures
        s.queue.len() > 0,
        r == s.queue[0],
        delivered,
        s.after_dispatch(now, delivered).queue == s.queue.drop_first(),
        s.after_dispatch(now, delivered).queue.len() == s.queue.len() - 1,
        s.after_dispatch(now, delivered).emissions == s.emissions.push(
            Emission { command: navigate_to(r), delivered: true },
        ),
{
}

/// A dispatch changes the store only where the dispatch precondition
/// holds, and then it sends one command: without the precondition nothing
/// is sent and nothing moves.
pub proof fn dispatch_needs_its_precondition(s: StoreView, now: int, delivered: bool)
    requires
        !s.dispatch_ready(now),
    ensures
        s.after_dispatch(now, delivered) == s,
{
}

/// Dispatch is single-winner: once a route is active, no dispatch is due at
/// any instant, so a second pass changes nothing.
pub proof fn dispatch_once(s: StoreView, now: int, later: int, delivered: bool)
    requires
        s.dispatch_ready(now),
    ensures
        !s.after_dispatch(now, true).dispatch_ready(later),
        s.after_dispatch(now, true).after_dispatch(later, delivered) == s.after_dispatch(now, true),
{
}

/// A bus failure loses no route: the queue after a dispatch that the bus
/// did not take is the queue before it.
pub proof fn failed_dispatch_keeps_the_queue(s: StoreView, now: int)
    ensures
        s.after_dispatch(now, false).queue == s.queue,
        s.after_dispatch(now, false).active_route == s.active_route,
{
    if s.dispatch_ready(now) {
        assert(seq![s.queue[0]] + s.queue.drop_first() =~= s.queue);
    }
}

/// Telemetry that reports idle completes the active route. Once the
/// dispatcher has run after it, a route is active only if it is the former
/// head of the queue, sent just now and taken by the bus.
pub proof fn idle_telemetry_completes_the_route(
    s: StoreView,
    payload: RobotStateView,
    now: int,
    delivered: bool,
)
    requires
        payload.is_idle(),
    ensures
        s.with_telemetry(payload, now).active_route is None,
        s.after_state_post(false, payload, now, delivered).active_route is Some <==> (
        s.with_telemetry(payload, now).dispatch_ready(now) && delivered),
        s.after_state_post(false, payload, now, delivered).active_route is Some ==> s.queue.len()
            > 0 && s.after_state_post(false, payload, now, delivered).active_route == Some(
            s.queue[0],
        ),
{
}

/// Telemetry that does not report idle leaves the active route as it is,
/// and no dispatch follows it.
pub proof fn busy_telemetry_keeps_the_route(
    s: StoreView,
    payload: RobotStateView,
    now: int,
    delivered: bool,
)
    requires
        !payload.is_idle(),
    ensures
        s.after_state_post(false, payload, now, delivered).active_route == s.active_route,
        s.after_state_post(false, payload, now, delivered).queue == s.queue,
        s.after_state_post(false, payload, now, delivered).emissions == s.emissions,
{
}

/// After an administrator's Navigate no lock of anyone else is left. A route
/// that was active heads the queue unchanged, and a Cancel for it went to
/// the bus just before the new Navigate; the new route is the active one.
pub proof fn preemption_clears_the_way(
    s: StoreView,
    c: ClaimsView,
    start: Seq<char>,
    destination: Seq<char>,
    now: int,
    route_id: u128,
    cancelled: bool,
    delivered: bool,
)
    requires
        is_admin_name(c.role),
    ensures
        ({
            let command = CommandView::Navigate { start, destination };
            let after = s.after_frame(c, command, now, route_id, cancelled, delivered);
            &&& after.lock matches Some(l) ==> l.held_by(c.sub) && s.lock == Some(l)
            &&& after.active_route == Some(new_route(route_id, start, destination, now, c.name))
            &&& s.active_route matches Some(p) ==> after.queue == seq![p] + s.queue
                && after.queue[0] == p && commands_of(after.emissions) == commands_of(
                s.emissions,
            ) + seq![CommandView::Cancel, command]
            &&& s.active_route is None ==> after.queue == s.queue && commands_of(after.emissions)
                == commands_of(s.emissions) + seq![command]
        }),
{
    let command = CommandView::Navigate { start, destination };
    let after = s.after_frame(c, command, now, route_id, cancelled, delivered);
    let route = new_route(route_id, start, destination, now, c.name);
    assert(navigate_to(route) == command);
    match s.active_route {
        Some(p) => {
            let e1 = Emission { command: CommandView::Cancel, delivered: cancelled };
            let e2 = Emission { command, delivered };
            assert(after.emissions == s.emissions.push(e1).push(e2));
            assert(commands_of(after.emissions) =~= commands_of(s.emissions) + seq![
                CommandView::Cancel,
                command,
            ]);
        },
        None => {
            let e2 = Emission { command, delivered };
            assert(after.emissions == s.emissions.push(e2));
            assert(commands_of(after.emissions) =~= commands_of(s.emissions) + seq![command]);
        },
    }
}

/// Renewal: whoever was granted the lock and is granted it again at a later
/// instant holds it longer than before. Both instants are clock readings,
/// and the second grant must not reach the end of their range, where
/// expiries saturate.
pub proof fn renewal_extends_the_lock(s: StoreView, c: ClaimsView, first: int, second: int)
    requires
        s.acquire_refusal(c, first) is None,
        s.after_acquire(c, first).acquire_refusal(c, second) is None,
        i64::MIN <= first < second,
        second + LOCK_TTL_SECS * 1000 <= i64::MAX,
    ensures
        ({
            let granted = s.after_acquire(c, first);
            let renewed = granted.after_acquire(c, second);
            &&& granted.lock is Some
            &&& renewed.lock is Some
            &&& renewed.lock->0.expires_at > granted.lock->0.expires_at
            &&& renewed.lock->0.holder_id == granted.lock->0.holder_id
            &&& renewed.lock->0.holder_name == granted.lock->0.holder_name
        }),
{
}

/// A renewal never shortens a lock that the caller holds, whenever it
/// comes: the new expiry is the renewal's instant plus the time to live.
pub proof fn renewal_sets_the_expiry(s: StoreView, c: ClaimsView, now: int)
    requires
        s.lock_held_by(c.sub, now),
        s.acquire_refusal(c, now) is None,
        s.lock->0.expires_at <= now + LOCK_TTL_SECS * 1000,
        i64::MIN <= now,
        now + LOCK_TTL_SECS * 1000 <= i64::MAX,
    ensures
        s.after_acquire(c, now).lock->0.expires_at == now + LOCK_TTL_SECS * 1000,
        s.after_acquire(c, now).lock->0.expires_at >= s.lock->0.expires_at,
{
}

/// Whoever does not hold an effective lock cannot release one: the refusal
/// leaves the lock in place.
pub proof fn only_the_holder_releases(s: StoreView, c: ClaimsView, now: int)
    ensures
        s.release_refusal(c, now) is None ==> s.lock_held_by(c.sub, now) && s.after_release(
            c,
            now,
        ).lock is None,
        s.release_refusal(c, now) is Some ==> s.after_release(c, now) == s,
{
}

/// Whether no two routes of the store, queued or active, share an id.
pub open spec fn ids_distinct(s: StoreView) -> bool {
    forall|i: int, j: int|
        0 <= i < j < s.listing().len() ==> s.listing()[i].id != s.listing()[j].id
}

/// Whether no route of the store, queued or active, has the id `id`.
pub open spec fn id_is_fresh(s: StoreView, id: u128) -> bool {
    forall|i: int| 0 <= i < s.listing().len() ==> (#[trigger] s.listing()[i]).id != id
}

/// Ids stay distinct under dispatch, completion, deletion and release of
/// routes: none of them brings a new route in.
pub proof fn ids_stay_distinct(
    s: StoreView,
    payload: RobotStateView,
    now: int,
    delivered: bool,
    entry: int,
)
    requires
        ids_distinct(s),
    ensures
        ids_distinct(s.after_dispatch(now, delivered)),
        ids_distinct(s.with_telemetry(payload, now)),
        ids_distinct(s.after_state_post(false, payload, now, delivered)),
        0 <= entry < s.queue.len() ==> ids_distinct(s.without_entry(entry)),
{
    lemma_dispatch_keeps_listing(s, now, delivered);
    let t = s.with_telemetry(payload, now);
    assert(ids_distinct(t)) by {
        if s.active_route is Some && t.active_route is None {
            assert forall|i: int, j: int| 0 <= i < j < t.listing().len() implies t.listing()[i].id
                != t.listing()[j].id by {
                assert(t.listing()[i] == s.listing()[i + 1]);
                assert(t.listing()[j] == s.listing()[j + 1]);
            }
        } else {
            assert(t.listing() =~= s.listing());
        }
    }
    lemma_dispatch_keeps_listing(t, now, delivered);
    if 0 <= entry < s.queue.len() {
        let d = s.without_entry(entry);
        let lead: int = if s.active_route is Some {
            1
        } else {
            0
        };
        assert forall|i: int, j: int| 0 <= i < j < d.listing().len() implies d.listing()[i].id
            != d.listing()[j].id by {
            let x = if i < lead + entry {
                i
            } else {
                i + 1
            };
            let y = if j < lead + entry {
                j
            } else {
                j + 1
            };
            assert(d.listing()[i] == s.listing()[x]);
            assert(d.listing()[j] == s.listing()[y]);
        }
    }
}

proof fn lemma_dispatch_keeps_listing(s: StoreView, now: int, delivered: bool)
    requires
        ids_distinct(s),
    ensures
        ids_distinct(s.after_dispatch(now, delivered)),
        s.after_dispatch(now, delivered).listing() == s.listing(),
{
    if s.dispatch_ready(now) {
        assert(seq![s.queue[0]] + s.queue.drop_first() =~= s.queue);
        assert(s.after_dispatch(now, delivered).listing() =~= s.listing());
    }
}

/// Ids stay distinct when a route comes in under an id that no route of
/// the store has: by an enqueue, with the dispatch that follows it, or by
/// an administrator's preemption.
pub proof fn fresh_ids_stay_distinct(
    s: StoreView,
    route: RouteView,
    sub: Seq<char>,
    now: int,
    cancelled: bool,
    delivered: bool,
)
    requires
        ids_distinct(s),
        id_is_fresh(s, route.id),
    ensures
        ids_distinct(s.with_queued(route)),
        ids_distinct(s.with_queued(route).after_dispatch(now, delivered)),
        ids_distinct(s.preempted(sub, route, cancelled, delivered)),
{
    let q = s.with_queued(route);
    assert(q.listing() =~= s.listing().push(route));
    assert(ids_distinct(q)) by {
        assert forall|i: int, j: int| 0 <= i < j < q.listing().len() implies q.listing()[i].id
            != q.listing()[j].id by {
            assert(q.listing()[i] == s.listing()[i]);
            if j < s.listing().len() {
                assert(q.listing()[j] == s.listing()[j]);
            }
        }
    }
    lemma_dispatch_keeps_listing(q, now, delivered);
    let p = s.preempted(sub, route, cancelled, delivered);
    assert(p.listing() =~= seq![route] + s.listing());
    assert forall|i: int, j: int| 0 <= i < j < p.listing().len() implies p.listing()[i].id
        != p.listing()[j].id by {
        assert(p.listing()[j] == s.listing()[j - 1]);
        if i > 0 {
            assert(p.listing()[i] == s.listing()[i - 1]);
        }
    }
}

/// Ids stay distinct when the optimizer reorders the queue.
pub proof fn optimizing_keeps_ids_distinct(s: StoreView, result: Seq<RouteView>, m: CostMatrix)
    requires
        ids_distinct(s),
        is_optimized(result, s.queue, m),
    ensures
        ids_distinct(StoreView { queue: result, ..s }),
{
    let order = choose|order: Seq<usize>| #[trigger]
        is_solution(order, arrivals(s.queue), m) && is_arrangement(order, s.queue.len())
            && result == arranged(s.queue, order);
    let t = StoreView { queue: result, ..s };
    let lead: int = if s.active_route is Some {
        1
    } else {
        0
    };
    assert forall|i: int, j: int| 0 <= i < j < t.listing().len() implies t.listing()[i].id
        != t.listing()[j].id by {
        let x = if i < lead {
            i
        } else {
            lead + order[i - lead]
        };
        let y = if j < lead {
            j
        } else {
            lead + order[j - lead]
        };
        assert(t.listing()[i] == s.listing()[x]);
        assert(t.listing()[j] == s.listing()[y]);
        if i >= lead {
            assert(order[i - lead] != order[j - lead]);
        }
        if x < y {
            assert(s.listing()[x].id != s.listing()[y].id);
        } else {
            assert(s.listing()[y].id != s.listing()[x].id);
        }
    }
}

/// The last Navigate handed to the bus, if there was one.
pub open spec fn last_navigate(history: Seq<Emission>) -> Option<CommandView>
    decreases history.len(),
{
    if history.len() == 0 {
        None
    } else if history.last().command is Navigate {
        Some(history.last().command)
    } else {
        last_navigate(history.drop_last())
    }
}

/// Whether the active route, if there is one, is the route of the last
/// Navigate handed to the bus.
pub open spec fn active_follows_navigate(s: StoreView) -> bool {
    s.active_route matches Some(r) ==> last_navigate(s.emissions) == Some(navigate_to(r))
}

proof fn lemma_last_navigate_after(history: Seq<Emission>, e: Emission)
    ensures
        last_navigate(history.push(e)) == (if e.command is Navigate {
            Some(e.command)
        } else {
            last_navigate(history)
        }),
{
    assert(history.push(e).drop_last() =~= history);
    assert(history.push(e).last() == e);
}

/// While a route is active, its Navigate is the last Navigate that went to
/// the bus: every operation of the core keeps it so. Of the frames of the
/// manual-drive socket only an administrator's can carry a Navigate, and
/// that one makes its route the active one.
pub proof fn active_route_follows_last_navigate(
    s: StoreView,
    c: ClaimsView,
    command: CommandView,
    payload: RobotStateView,
    now: int,
    route: RouteView,
    cancelled: bool,
    delivered: bool,
)
    requires
        active_follows_navigate(s),
    ensures
        active_follows_navigate(s.after_dispatch(now, delivered)),
        active_follows_navigate(s.after_sweep(now, delivered)),
        active_follows_navigate(s.after_state_post(false, payload, now, delivered)),
        active_follows_navigate(s.after_select(c, route, now, delivered)),
        active_follows_navigate(s.after_add(c, route, now, delivered)),
        active_follows_navigate(s.after_acquire(c, now)),
        active_follows_navigate(s.after_release(c, now)),
        active_follows_navigate(s.after_frame(c, command, now, route.id, cancelled, delivered)),
{
    lemma_dispatch_follows(s, now, delivered);
    lemma_dispatch_follows(s.swept(now), now, delivered);
    lemma_dispatch_follows(s.with_telemetry(payload, now), now, delivered);
    lemma_dispatch_follows(s.with_queued(route), now, delivered);
    let f = s.after_frame(c, command, now, route.id, cancelled, delivered);
    if s.frame_allowed(c, kind_of(command), now) {
        if s.frame_preempts(c, command) {
            let installed = new_route(
                route.id,
                command->Navigate_start,
                command->Navigate_destination,
                now,
                c.name,
            );
            let cleared = s.revoked_for(c.sub).with_active_cancelled(cancelled);
            lemma_last_navigate_after(
                cleared.emissions,
                Emission { command: navigate_to(installed), delivered },
            );
        } else {
            lemma_last_navigate_after(s.emissions, Emission { command, delivered });
            if command is Navigate {
                assert(!is_admin_name(c.role));
                assert(kind_of(command) == CommandKind::Navigate);
                assert(false);
            }
        }
    }
}

proof fn lemma_dispatch_follows(s: StoreView, now: int, delivered: bool)
    requires
        active_follows_navigate(s),
    ensures
        active_follows_navigate(s.after_dispatch(now, delivered)),
{
    if s.dispatch_ready(now) {
        let head = s.queue[0];
        lemma_last_navigate_after(
            s.emissions,
            Emission { command: navigate_to(head), delivered },
        );
    }
}

} // verus!
