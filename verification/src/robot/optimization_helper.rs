//! Reordering the queue: an open-path asymmetric travelling-salesman
//! heuristic, greedy nearest neighbour followed by 2-opt.

use crate::robot::models::{route_views, QueuedRoute, RouteView};
use crate::text::str_eq;
use vstd::prelude::*;

verus! {

/// The cost of driving each route of a list directly after each other one:
/// row `a`, column `b` holds the cost of the transition from the destination
/// of route `a` to the start of route `b`.
pub struct CostMatrix {
    rows: Vec<Vec<u64>>,
}

impl CostMatrix {
    /// The number of routes the matrix speaks of.
    pub closed spec fn size(&self) -> nat {
        self.rows@.len()
    }

    /// The entry in row `a`, column `b`.
    pub closed spec fn entry(&self, a: int, b: int) -> u64 {
        self.rows@[a]@[b]
    }

    /// The cost of the transition from route `a` to route `b`.
    pub open spec fn at(&self, a: int, b: int) -> int {
        self.entry(a, b) as int
    }

    /// Every row has one entry for every route.
    pub closed spec fn wf(&self) -> bool {
        forall|a: int| 0 <= a < self.rows@.len() ==> (#[trigger] self.rows@[a])@.len()
            == self.rows@.len()
    }

    pub fn len(&self) -> (n: usize)
        ensures
            n == self.size(),
    {
        self.rows.len()
    }

    pub fn get(&self, a: usize, b: usize) -> (c: u64)
        requires
            self.wf(),
            a < self.size(),
            b < self.size(),
        ensures
            c == self.entry(a as int, b as int),
    {
        self.rows[a][b]
    }

    /// The matrix with the given rows; `None` unless every row has as many
    /// entries as there are rows.
    pub fn from_rows(rows: Vec<Vec<u64>>) -> (m: Option<CostMatrix>)
        ensures
            m is Some <==> (forall|a: int| 0 <= a < rows@.len() ==> (#[trigger] rows@[a])@.len()
                == rows@.len()),
            m matches Some(t) ==> t.wf() && t.size() == rows@.len() && forall|a: int, b: int|
                0 <= a < rows@.len() && 0 <= b < rows@.len() ==> #[trigger] t.entry(a, b)
                    == rows@[a]@[b],
    {
        let n = rows.len();
        let mut a: usize = 0;
        while a < n
            invariant
                a <= n,
                n == rows@.len(),
                forall|k: int| 0 <= k < a ==> (#[trigger] rows@[k])@.len() == n,
            decreases n - a,
        {
            if rows[a].len() != n {
                return None;
            }
            a = a + 1;
        }
        Some(CostMatrix { rows })
    }
}

/// The cost that is in service: nothing where one route ends where the
/// next begins, one otherwise.
pub open spec fn endpoint_cost(from: Seq<char>, to: Seq<char>) -> int {
    if from == to {
        0
    } else {
        1
    }
}

/// The cost that is in service, for one transition.
pub fn transition_cost(a: &QueuedRoute, b: &QueuedRoute) -> (c: u64)
    ensures
        c == endpoint_cost(a@.destination, b@.start),
{
    if str_eq(a.destination.as_str(), b.start.as_str()) {
        0
    } else {
        1
    }
}

/// The matrix of the cost that is in service, for a list of routes.
pub fn endpoint_costs(routes: &Vec<QueuedRoute>) -> (m: CostMatrix)
    ensures
        m.wf(),
        m.size() == routes@.len(),
        forall|a: int, b: int|
            0 <= a < routes@.len() && 0 <= b < routes@.len() ==> #[trigger] m.entry(a, b)
                == endpoint_cost(routes@[a]@.destination, routes@[b]@.start),
{
    let n = routes.len();
    let mut rows: Vec<Vec<u64>> = Vec::new();
    let mut a: usize = 0;
    while a < n
        invariant
            a <= n,
            n == routes@.len(),
            rows@.len() == a,
            forall|k: int| 0 <= k < a ==> (#[trigger] rows@[k])@.len() == n,
            forall|k: int, b: int|
                0 <= k < a && 0 <= b < n ==> (#[trigger] rows@[k]@[b]) == endpoint_cost(
                    routes@[k]@.destination,
                    routes@[b]@.start,
                ),
        decreases n - a,
    {
        let mut row: Vec<u64> = Vec::new();
        let mut b: usize = 0;
        while b < n
            invariant
                b <= n,
                a < n,
                n == routes@.len(),
                row@.len() == b,
                forall|j: int|
                    0 <= j < b ==> (#[trigger] row@[j]) == endpoint_cost(
                        routes@[a as int]@.destination,
                        routes@[j]@.start,
                    ),
            decreases n - b,
        {
            row.push(transition_cost(&routes[a], &routes[b]));
            b = b + 1;
        }
        rows.push(row);
        a = a + 1;
    }
    CostMatrix { rows }
}

/// Whether `c` is a cost that the injected cost function gives for the
/// transition between two node names.
pub open spec fn is_cost_of<F: Fn(&str, &str) -> u64>(
    cost: F,
    from: Seq<char>,
    to: Seq<char>,
    c: u64,
) -> bool {
    exists|f: &str, t: &str| f@ == from && t@ == to && #[trigger] cost.ensures((f, t), c)
}

/// Whether a matrix holds, for every pair of routes, a cost that the
/// injected cost function gives for that transition.
pub open spec fn costs_come_from<F: Fn(&str, &str) -> u64>(
    m: CostMatrix,
    routes: Seq<QueuedRoute>,
    cost: F,
) -> bool {
    &&& m.wf()
    &&& m.size() == routes.len()
    &&& forall|a: int, b: int|
        0 <= a < routes.len() && 0 <= b < routes.len() ==> is_cost_of(
            cost,
            routes[a]@.destination,
            routes[b]@.start,
            #[trigger] m.entry(a, b),
        )
}

/// Asks the injected cost function once for every ordered pair of routes.
pub fn transition_costs<F: Fn(&str, &str) -> u64>(routes: &Vec<QueuedRoute>, cost: F) -> (m:
    CostMatrix)
    requires
        forall|from: &str, to: &str| cost.requires((from, to)),
    ensures
        costs_come_from(m, routes@, cost),
{
    let n = routes.len();
    let mut rows: Vec<Vec<u64>> = Vec::new();
    let mut a: usize = 0;
    while a < n
        invariant
            a <= n,
            n == routes@.len(),
            rows@.len() == a,
            forall|from: &str, to: &str| cost.requires((from, to)),
            forall|k: int| 0 <= k < a ==> (#[trigger] rows@[k])@.len() == n,
            forall|k: int, b: int|
                0 <= k < a && 0 <= b < n ==> is_cost_of(
                    cost,
                    routes@[k]@.destination,
                    routes@[b]@.start,
                    #[trigger] rows@[k]@[b],
                ),
        decreases n - a,
    {
        let mut row: Vec<u64> = Vec::new();
        let mut b: usize = 0;
        while b < n
            invariant
                b <= n,
                a < n,
                n == routes@.len(),
                row@.len() == b,
                forall|from: &str, to: &str| cost.requires((from, to)),
                forall|j: int|
                    0 <= j < b ==> is_cost_of(
                        cost,
                        routes@[a as int]@.destination,
                        routes@[j]@.start,
                        #[trigger] row@[j],
                    ),
            decreases n - b,
        {
            let from = routes[a].destination.as_str();
            let to = routes[b].start.as_str();
            let c = cost(from, to);
            row.push(c);
            assert(cost.ensures((from, to), c));
            assert(is_cost_of(
                cost,
                routes@[a as int]@.destination,
                routes@[b as int]@.start,
                c,
            ));
            b = b + 1;
        }
        rows.push(row);
        a = a + 1;
    }
    let m = CostMatrix { rows };
    assert forall|x: int, y: int| 0 <= x < routes@.len() && 0 <= y < routes@.len() implies is_cost_of(
        cost,
        routes@[x]@.destination,
        routes@[y]@.start,
        #[trigger] m.entry(x, y),
    ) by {
        assert(m.entry(x, y) == rows@[x]@[y]);
    }
    m
}

/// Whether route `x` comes before route `y` in the order of arrival: it was
/// added earlier, or at the same instant and stands earlier in the list.
/// `keys` holds the instant at which each route was added.
pub open spec fn precedes(keys: Seq<int>, x: int, y: int) -> bool {
    keys[x] < keys[y] || (keys[x] == keys[y] && x < y)
}

/// Whether, coming from route `last`, route `x` is the better next stop
/// than route `y`: the transition to it costs less, or the same and `x`
/// precedes `y`.
pub open spec fn nearer(m: CostMatrix, keys: Seq<int>, last: int, x: int, y: int) -> bool {
    m.at(last, x) < m.at(last, y) || (m.at(last, x) == m.at(last, y) && precedes(keys, x, y))
}

/// Whether `order` lists each of the positions `0..n` exactly once.
pub open spec fn is_arrangement(order: Seq<usize>, n: nat) -> bool {
    &&& order.len() == n
    &&& forall|i: int| 0 <= i < n ==> (#[trigger] order[i]) < n
    &&& forall|i: int, j: int| 0 <= i < j < n ==> order[i] != order[j]
}

/// Whether `order` is the greedy nearest-neighbour path: it starts with the
/// route that arrived first, and every further stop is, among the routes not
/// yet visited, the nearest to the stop before it.
pub open spec fn is_greedy_path(order: Seq<usize>, keys: Seq<int>, m: CostMatrix) -> bool {
    &&& is_arrangement(order, keys.len())
    &&& forall|j: int| 1 <= j < order.len() ==> precedes(keys, order[0] as int, #[trigger] order[j] as int)
    &&& forall|k: int, j: int|
        1 <= k < j < order.len() ==> nearer(
            m,
            keys,
            order[k - 1] as int,
            #[trigger] order[k] as int,
            #[trigger] order[j] as int,
        )
}

/// The instants of a list of clock readings.
pub open spec fn instants(keys: Seq<i64>) -> Seq<int> {
    keys.map_values(|k: i64| k as int)
}

fn comes_before(keys: &Vec<i64>, x: usize, y: usize) -> (yes: bool)
    requires
        x < keys@.len(),
        y < keys@.len(),
    ensures
        yes == precedes(instants(keys@), x as int, y as int),
{
    keys[x] < keys[y] || (keys[x] == keys[y] && x < y)
}

fn is_nearer(m: &CostMatrix, keys: &Vec<i64>, last: usize, x: usize, y: usize) -> (yes: bool)
    requires
        m.wf(),
        m.size() == keys@.len(),
        last < keys@.len(),
        x < keys@.len(),
        y < keys@.len(),
    ensures
        yes == nearer(*m, instants(keys@), last as int, x as int, y as int),
{
    let cx = m.get(last, x);
    let cy = m.get(last, y);
    cx < cy || (cx == cy && comes_before(keys, x, y))
}

/// The greedy nearest-neighbour path through the routes, as positions in
/// the list: the seed is the route that arrived first; then, again and
/// again, the route not yet visited that is cheapest to reach from the last
/// one, the earlier arrival winning a tie.
pub fn greedy_atsp_path(keys: &Vec<i64>, m: &CostMatrix) -> (order: Vec<usize>)
    requires
        m.wf(),
        m.size() == keys@.len(),
    ensures
        is_greedy_path(order@, instants(keys@), *m),
{
    let n = keys.len();
    let mut path: Vec<usize> = Vec::new();
    let mut remaining: Vec<usize> = Vec::new();
    if n == 0 {
        return path;
    }
    let mut i: usize = 0;
    while i < n
        invariant
            i <= n,
            remaining@.len() == i,
            forall|k: int| 0 <= k < i ==> remaining@[k] == k,
        decreases n - i,
    {
        remaining.push(i);
        i = i + 1;
    }
    let mut best: usize = 0;
    let mut c: usize = 1;
    while c < n
        invariant
            1 <= c <= n,
            best < c,
            n == keys@.len(),
            remaining@.len() == n,
            forall|k: int| 0 <= k < n ==> remaining@[k] == k,
            forall|k: int| 0 <= k < c && k != best ==> (keys@[best as int] < #[trigger] keys@[k] || (
                keys@[best as int] == keys@[k] && best < k)),
        decreases n - c,
    {
        if comes_before(keys, c, best) {
            best = c;
        }
        c = c + 1;
    }
    let first = remaining.remove(best);
    path.push(first);
    while remaining.len() > 0
        invariant
            n == keys@.len(),
            m.wf(),
            m.size() == n,
            path@.len() >= 1,
            path@.len() + remaining@.len() == n,
            forall|k: int| 0 <= k < path@.len() ==> (#[trigger] path@[k]) < n,
            forall|k: int| 0 <= k < remaining@.len() ==> (#[trigger] remaining@[k]) < n,
            forall|k: int, j: int| 0 <= k < j < path@.len() ==> path@[k] != path@[j],
            forall|k: int, j: int| 0 <= k < j < remaining@.len() ==> remaining@[k] != remaining@[j],
            forall|k: int, j: int|
                0 <= k < path@.len() && 0 <= j < remaining@.len() ==> path@[k] != remaining@[j],
            forall|j: int|
                1 <= j < path@.len() ==> precedes(instants(keys@), path@[0] as int, #[trigger] path@[j] as int),
            forall|j: int|
                0 <= j < remaining@.len() ==> precedes(
                    instants(keys@),
                    path@[0] as int,
                    #[trigger] remaining@[j] as int,
                ),
            forall|k: int, j: int|
                1 <= k < j < path@.len() ==> nearer(
                    *m,
                    instants(keys@),
                    path@[k - 1] as int,
                    #[trigger] path@[k] as int,
                    #[trigger] path@[j] as int,
                ),
            forall|k: int, j: int|
                1 <= k < path@.len() && 0 <= j < remaining@.len() ==> nearer(
                    *m,
                    instants(keys@),
                    path@[k - 1] as int,
                    #[trigger] path@[k] as int,
                    #[trigger] remaining@[j] as int,
                ),
        decreases remaining@.len(),
    {
        let last = path[path.len() - 1];
        let mut best: usize = 0;
        let mut c: usize = 1;
        while c < remaining.len()
            invariant
                1 <= c <= remaining@.len(),
                best < c,
                n == keys@.len(),
                m.wf(),
                m.size() == n,
                last < n,
                forall|k: int| 0 <= k < remaining@.len() ==> (#[trigger] remaining@[k]) < n,
                forall|k: int, j: int|
                    0 <= k < j < remaining@.len() ==> remaining@[k] != remaining@[j],
                forall|k: int|
                    0 <= k < c && k != best ==> nearer(
                        *m,
                        instants(keys@),
                        last as int,
                        remaining@[best as int] as int,
                        #[trigger] remaining@[k] as int,
                    ),
            decreases remaining@.len() - c,
        {
            if is_nearer(m, keys, last, remaining[c], remaining[best]) {
                best = c;
            }
            c = c + 1;
        }
        let ghost before = remaining@;
        let ghost walked = path@;
        let next = remaining.remove(best);
        path.push(next);
        proof {
            assert(remaining@ == before.remove(best as int));
            assert forall|k: int| 0 <= k < remaining@.len() implies #[trigger] remaining@[k]
                == before[if k < best { k } else { k + 1 }] by {}
            assert(path@ == walked.push(next));
            assert(next == before[best as int]);
        }
    }
    path
}

/// Whether the 2-opt move at `i < j` pays: with `a`, `b` the stops at `i`
/// and `i + 1` and `c`, `d` those at `j - 1` and `j`, going from `a` to `c`
/// and from `b` to `d` costs less than going from `a` to `b` and from `c`
/// to `d`.
pub open spec fn improves(p: Seq<usize>, m: CostMatrix, i: int, j: int) -> bool {
    m.at(p[i] as int, p[j - 1] as int) + m.at(p[i + 1] as int, p[j] as int) < m.at(
        p[i] as int,
        p[i + 1] as int,
    ) + m.at(p[j - 1] as int, p[j] as int)
}

/// The path with the stretch strictly between the positions `i` and `j`
/// turned round.
pub open spec fn reversed_between(p: Seq<usize>, i: int, j: int) -> Seq<usize> {
    Seq::new(
        p.len(),
        |k: int|
            if i < k < j {
                p[i + j - k]
            } else {
                p[k]
            },
    )
}

/// The path after the 2-opt move at `i < j` was tried.
pub open spec fn after_move(p: Seq<usize>, m: CostMatrix, i: int, j: int) -> Seq<usize> {
    if improves(p, m, i, j) {
        reversed_between(p, i, j)
    } else {
        p
    }
}

/// The path after the moves at `(i, j)`, `(i, j + 1)`, ... up to
/// `(i, n - 1)` were tried in turn, each on the path the one before left.
pub open spec fn after_row(p: Seq<usize>, m: CostMatrix, i: int, j: int, n: int) -> Seq<usize>
    decreases n - j,
{
    if j >= n {
        p
    } else {
        after_row(after_move(p, m, i, j), m, i, j + 1, n)
    }
}

/// Whether one of those moves paid.
pub open spec fn row_moves(p: Seq<usize>, m: CostMatrix, i: int, j: int, n: int) -> bool
    decreases n - j,
{
    if j >= n {
        false
    } else {
        improves(p, m, i, j) || row_moves(after_move(p, m, i, j), m, i, j + 1, n)
    }
}

/// The path of `n` stops after the rows `i`, `i + 1`, ... were gone
/// through, each from its first move at `j = i + 2`.
pub open spec fn after_rows(p: Seq<usize>, m: CostMatrix, i: int, n: int) -> Seq<usize>
    decreases n - i,
{
    if i + 2 >= n {
        p
    } else {
        after_rows(after_row(p, m, i, i + 2, n), m, i + 1, n)
    }
}

/// Whether a move paid in one of those rows.
pub open spec fn rows_move(p: Seq<usize>, m: CostMatrix, i: int, n: int) -> bool
    decreases n - i,
{
    if i + 2 >= n {
        false
    } else {
        row_moves(p, m, i, i + 2, n) || rows_move(after_row(p, m, i, i + 2, n), m, i + 1, n)
    }
}

/// The path after one full pass of 2-opt: every pair `i < j` with two or
/// more positions between them, in order.
pub open spec fn after_pass(p: Seq<usize>, m: CostMatrix) -> Seq<usize> {
    after_rows(p, m, 0, p.len() as int)
}

/// Whether a move paid during a full pass.
pub open spec fn pass_moves(p: Seq<usize>, m: CostMatrix) -> bool {
    rows_move(p, m, 0, p.len() as int)
}

/// The path after `k` full passes.
pub open spec fn after_passes(p: Seq<usize>, m: CostMatrix, k: nat) -> Seq<usize>
    decreases k,
{
    if k == 0 {
        p
    } else {
        after_pass(after_passes(p, m, (k - 1) as nat), m)
    }
}

/// Whether, after `k` passes, the next pass is the first in which no move
/// pays.
pub open spec fn settles_after(p: Seq<usize>, m: CostMatrix, k: nat) -> bool {
    &&& !pass_moves(after_passes(p, m, k), m)
    &&& forall|j: nat| j < k ==> pass_moves(#[trigger] after_passes(p, m, j), m)
}

/// Whether 2-opt comes to rest on a path: some pass finds no move that
/// pays. With costs that are not symmetric this is not true of every path.
pub open spec fn settles(p: Seq<usize>, m: CostMatrix) -> bool {
    exists|k: nat| settles_after(p, m, k)
}

/// Whether `r` is what 2-opt makes of the path `p`: `p` itself where it has
/// fewer than four stops, and otherwise the path after the first pass in
/// which no move pays.
pub open spec fn is_two_opt_of(r: Seq<usize>, p: Seq<usize>, m: CostMatrix) -> bool {
    if p.len() < 4 {
        r == p
    } else {
        exists|k: nat| #[trigger] settles_after(p, m, k) && r == after_passes(p, m, k + 1)
    }
}

proof fn lemma_reversed_is_arrangement(p: Seq<usize>, i: int, j: int)
    requires
        is_arrangement(p, p.len()),
        0 <= i < j < p.len(),
    ensures
        is_arrangement(reversed_between(p, i, j), p.len()),
{
    let r = reversed_between(p, i, j);
    assert forall|a: int, b: int| 0 <= a < b < p.len() implies r[a] != r[b] by {
        let x = if i < a < j { i + j - a } else { a };
        let y = if i < b < j { i + j - b } else { b };
        assert(r[a] == p[x] && r[b] == p[y]);
        if x < y {
            assert(p[x] != p[y]);
        } else {
            assert(p[y] != p[x]);
        }
    }
}

/// A move keeps a path an arrangement of the same routes.
pub proof fn lemma_move_keeps_arrangement(p: Seq<usize>, m: CostMatrix, i: int, j: int)
    requires
        is_arrangement(p, p.len()),
        0 <= i < j < p.len(),
    ensures
        is_arrangement(after_move(p, m, i, j), p.len()),
{
    lemma_reversed_is_arrangement(p, i, j);
}

/// Turns round the stretch of the path strictly between `i` and `j`.
fn reverse_between(path: &mut Vec<usize>, i: usize, j: usize)
    requires
        i < j < old(path)@.len(),
    ensures
        final(path)@ == reversed_between(old(path)@, i as int, j as int),
{
    let mut lo: usize = i + 1;
    let mut hi: usize = j - 1;
    while lo < hi
        invariant
            i < lo <= j,
            i <= hi < j,
            lo + hi == i + j,
            j < path@.len(),
            path@.len() == old(path)@.len(),
            forall|k: int|
                0 <= k < path@.len() ==> #[trigger] path@[k] == (if (i < k < lo) || (hi < k < j) {
                    old(path)@[i + j - k]
                } else {
                    old(path)@[k]
                }),
        decreases hi + 1 - lo,
    {
        let x = path[lo];
        let y = path[hi];
        path.set(lo, y);
        path.set(hi, x);
        lo = lo + 1;
        hi = hi - 1;
    }
    assert(path@ =~= reversed_between(old(path)@, i as int, j as int));
}

/// One full pass of 2-opt over the path. Says whether a move paid.
pub fn two_opt_pass(path: &mut Vec<usize>, m: &CostMatrix) -> (moved: bool)
    requires
        m.wf(),
        is_arrangement(old(path)@, m.size()),
    ensures
        final(path)@ == after_pass(old(path)@, *m),
        moved == pass_moves(old(path)@, *m),
        is_arrangement(final(path)@, m.size()),
{
    let n = path.len();
    let mut moved = false;
    if n < 3 {
        return moved;
    }
    let mut i: usize = 0;
    while i < n - 2
        invariant
            n >= 3,
            i <= n - 2,
            m.wf(),
            n == m.size(),
            is_arrangement(path@, n as nat),
            after_rows(path@, *m, i as int, n as int) == after_pass(old(path)@, *m),
            (moved || rows_move(path@, *m, i as int, n as int)) == pass_moves(old(path)@, *m),
        decreases n - i,
    {
        let ghost row_start = path@;
        let ghost moved_before = moved;
        let mut j: usize = i + 2;
        while j < n
            invariant
                i + 2 <= j <= n,
                i < n - 2,
                m.wf(),
                n == m.size(),
                is_arrangement(path@, n as nat),
                after_row(path@, *m, i as int, j as int, n as int) == after_row(
                    row_start,
                    *m,
                    i as int,
                    i + 2,
                    n as int,
                ),
                (moved || row_moves(path@, *m, i as int, j as int, n as int)) == (moved_before
                    || row_moves(row_start, *m, i as int, i + 2, n as int)),
            decreases n - j,
        {
            let a = path[i];
            let b = path[i + 1];
            let c = path[j - 1];
            let d = path[j];
            let current: u128 = m.get(a, b) as u128 + m.get(c, d) as u128;
            let swapped: u128 = m.get(a, c) as u128 + m.get(b, d) as u128;
            proof {
                lemma_move_keeps_arrangement(path@, *m, i as int, j as int);
            }
            if swapped < current {
                reverse_between(path, i, j);
                moved = true;
            }
            j = j + 1;
        }
        i = i + 1;
    }
    moved
}

/// Improves a path by 2-opt: full passes, one after the other, until a
/// pass finds no move that pays. A path of fewer than four stops is handed
/// back as it is. The caller knows that 2-opt comes to rest on this path.
pub fn two_opt_atsp_path(path: Vec<usize>, m: &CostMatrix) -> (improved: Vec<usize>)
    requires
        m.wf(),
        is_arrangement(path@, m.size()),
        path@.len() >= 4 ==> settles(path@, *m),
    ensures
        is_two_opt_of(improved@, path@, *m),
        is_arrangement(improved@, m.size()),
{
    let mut current = path;
    let ghost start = current@;
    if current.len() < 4 {
        return current;
    }
    let ghost rest: nat = choose|k: nat| settles_after(start, *m, k);
    let ghost mut done: nat = 0;
    loop
        invariant
            m.wf(),
            is_arrangement(current@, m.size()),
            start == path@,
            start.len() >= 4,
            settles_after(start, *m, rest),
            current@ == after_passes(start, *m, done),
            done <= rest,
            forall|j: nat| j < done ==> pass_moves(#[trigger] after_passes(start, *m, j), *m),
        decreases rest - done,
    {
        let moved = two_opt_pass(&mut current, m);
        proof {
            assert(current@ == after_passes(start, *m, done + 1));
        }
        if !moved {
            proof {
                assert(settles_after(start, *m, done));
                assert(current@ == after_passes(start, *m, done + 1));
                assert(is_two_opt_of(current@, start, *m));
            }
            return current;
        }
        proof {
            assert(done != rest);
            done = done + 1;
        }
    }
}

/// Improves a path by 2-opt, with at most `max_passes` full passes. Hands
/// back the improved path if 2-opt came to rest within them, and `None` if
/// every one of them still found a move that paid.
pub fn two_opt_within(path: Vec<usize>, m: &CostMatrix, max_passes: usize) -> (improved: Option<
    Vec<usize>,
>)
    requires
        m.wf(),
        is_arrangement(path@, m.size()),
    ensures
        improved matches Some(r) ==> is_two_opt_of(r@, path@, *m) && is_arrangement(r@, m.size()),
        improved is None ==> path@.len() >= 4 && forall|j: nat|
            j < max_passes ==> pass_moves(#[trigger] after_passes(path@, *m, j), *m),
{
    let mut current = path;
    let ghost start = current@;
    if current.len() < 4 {
        return Some(current);
    }
    let mut done: usize = 0;
    while done < max_passes
        invariant
            m.wf(),
            is_arrangement(current@, m.size()),
            start == path@,
            start.len() >= 4,
            done <= max_passes,
            current@ == after_passes(start, *m, done as nat),
            forall|j: nat| j < done ==> pass_moves(#[trigger] after_passes(start, *m, j), *m),
        decreases max_passes - done,
    {
        let moved = two_opt_pass(&mut current, m);
        proof {
            assert(current@ == after_passes(start, *m, (done + 1) as nat));
        }
        if !moved {
            proof {
                assert(settles_after(start, *m, done as nat));
                assert(current@ == after_passes(start, *m, done as nat + 1));
                assert(is_two_opt_of(current@, start, *m));
            }
            return Some(current);
        }
        done = done + 1;
    }
    None
}

/// The instants at which the routes of a list were added.
pub open spec fn arrivals(routes: Seq<RouteView>) -> Seq<int> {
    routes.map_values(|r: RouteView| r.added_at)
}

/// The routes of a list, taken in the given order of positions.
pub open spec fn arranged(routes: Seq<RouteView>, order: Seq<usize>) -> Seq<RouteView> {
    Seq::new(order.len(), |i: int| routes[order[i] as int])
}

/// Whether `order` is what the optimizer makes of routes with these
/// arrivals and costs: the greedy path, improved by 2-opt.
pub open spec fn is_solution(order: Seq<usize>, keys: Seq<int>, m: CostMatrix) -> bool {
    exists|greedy: Seq<usize>| #[trigger]
        is_greedy_path(greedy, keys, m) && is_two_opt_of(order, greedy, m)
}

/// Whether `result` lists the routes of `routes` in the order the optimizer
/// gives them.
pub open spec fn is_optimized(result: Seq<RouteView>, routes: Seq<RouteView>, m: CostMatrix) -> bool {
    exists|order: Seq<usize>| #[trigger]
        is_solution(order, arrivals(routes), m) && is_arrangement(order, routes.len())
            && result == arranged(routes, order)
}

/// Whether 2-opt comes to rest on the greedy path through these routes.
pub open spec fn optimizer_settles(keys: Seq<int>, m: CostMatrix) -> bool {
    forall|greedy: Seq<usize>| #[trigger]
        is_greedy_path(greedy, keys, m) && greedy.len() >= 4 ==> settles(greedy, m)
}

/// Whether 2-opt is still moving on the greedy path through these routes
/// in each of its first `passes` passes.
pub open spec fn optimizer_restless(keys: Seq<int>, m: CostMatrix, passes: nat) -> bool {
    exists|greedy: Seq<usize>| #[trigger]
        is_greedy_path(greedy, keys, m) && greedy.len() >= 4 && forall|j: nat|
            j < passes ==> pass_moves(#[trigger] after_passes(greedy, m, j), m)
}

fn arrival_keys(routes: &Vec<QueuedRoute>) -> (keys: Vec<i64>)
    ensures
        instants(keys@) == arrivals(route_views(routes@)),
{
    let mut keys: Vec<i64> = Vec::new();
    let mut i: usize = 0;
    while i < routes.len()
        invariant
            i <= routes@.len(),
            keys@.len() == i,
            forall|k: int| 0 <= k < i ==> keys@[k] == routes@[k].added_at.millis,
        decreases routes@.len() - i,
    {
        keys.push(routes[i].added_at.millis);
        i = i + 1;
    }
    assert(instants(keys@) =~= arrivals(route_views(routes@)));
    keys
}

/// Copies of the routes of a list, in the given order of positions.
fn arrange(routes: &Vec<QueuedRoute>, order: &Vec<usize>) -> (result: Vec<QueuedRoute>)
    requires
        forall|i: int| 0 <= i < order@.len() ==> (#[trigger] order@[i]) < routes@.len(),
    ensures
        route_views(result@) == arranged(route_views(routes@), order@),
{
    let mut result: Vec<QueuedRoute> = Vec::new();
    let mut i: usize = 0;
    while i < order.len()
        invariant
            i <= order@.len(),
            result@.len() == i,
            forall|k: int| 0 <= k < order@.len() ==> (#[trigger] order@[k]) < routes@.len(),
            forall|k: int| 0 <= k < i ==> result@[k] == routes@[order@[k] as int],
        decreases order@.len() - i,
    {
        result.push(routes[order[i]].clone());
        i = i + 1;
    }
    assert(route_views(result@) =~= arranged(route_views(routes@), order@));
    result
}

/// Orders the routes for the least cost of going from each to the next,
/// with the costs given as a matrix: greedy nearest neighbour from the
/// route that arrived first, then 2-opt until no move pays. The caller knows
/// that 2-opt comes to rest on these routes.
pub fn solve_with_costs(routes: Vec<QueuedRoute>, m: &CostMatrix) -> (path: Vec<QueuedRoute>)
    requires
        m.wf(),
        m.size() == routes@.len(),
        optimizer_settles(arrivals(route_views(routes@)), *m),
    ensures
        is_optimized(route_views(path@), route_views(routes@), *m),
{
    let keys = arrival_keys(&routes);
    let greedy = greedy_atsp_path(&keys, m);
    let ghost g = greedy@;
    let order = two_opt_atsp_path(greedy, m);
    proof {
        assert(is_greedy_path(g, arrivals(route_views(routes@)), *m));
        assert(is_solution(order@, arrivals(route_views(routes@)), *m));
    }
    arrange(&routes, &order)
}

/// As `solve_with_costs`, with at most `max_passes` passes of 2-opt. `None`
/// where 2-opt did not come to rest within them.
pub fn solve_with_costs_within(routes: Vec<QueuedRoute>, m: &CostMatrix, max_passes: usize) -> (path:
    Option<Vec<QueuedRoute>>)
    requires
        m.wf(),
        m.size() == routes@.len(),
    ensures
        path matches Some(p) ==> is_optimized(route_views(p@), route_views(routes@), *m),
        path is None ==> optimizer_restless(
            arrivals(route_views(routes@)),
            *m,
            max_passes as nat,
        ),
{
    let keys = arrival_keys(&routes);
    let greedy = greedy_atsp_path(&keys, m);
    let ghost g = greedy@;
    match two_opt_within(greedy, m, max_passes) {
        Some(order) => {
            proof {
                assert(is_greedy_path(g, arrivals(route_views(routes@)), *m));
                assert(is_solution(order@, arrivals(route_views(routes@)), *m));
            }
            Some(arrange(&routes, &order))
        },
        None => {
            proof {
                assert(is_greedy_path(g, arrivals(route_views(routes@)), *m));
            }
            None
        },
    }
}

/// Whether `result` is what the optimizer makes of `routes` under some
/// matrix of costs that the injected cost function gave.
pub open spec fn is_optimized_under<F: Fn(&str, &str) -> u64>(
    result: Seq<RouteView>,
    routes: Seq<QueuedRoute>,
    cost: F,
) -> bool {
    exists|m: CostMatrix| #[trigger]
        costs_come_from(m, routes, cost) && is_optimized(result, route_views(routes), m)
}

/// Orders the routes for the least cost of going from each to the next, by
/// an injected cost function from the destination of one route to the start
/// of the next. The function is asked once for every ordered pair of routes.
/// The caller knows that 2-opt comes to rest on these routes, whatever costs
/// the function gives.
pub fn solve_atsp_path<F: Fn(&str, &str) -> u64>(routes: Vec<QueuedRoute>, cost: F) -> (path: Vec<
    QueuedRoute,
>)
    requires
        forall|from: &str, to: &str| cost.requires((from, to)),
        forall|m: CostMatrix| #[trigger]
            costs_come_from(m, routes@, cost) ==> optimizer_settles(
                arrivals(route_views(routes@)),
                m,
            ),
    ensures
        is_optimized_under(route_views(path@), routes@, cost),
{
    let m = transition_costs(&routes, cost);
    solve_with_costs(routes, &m)
}

/// As `solve_atsp_path`, with at most `max_passes` passes of 2-opt. `None`
/// where 2-opt did not come to rest within them.
pub fn solve_atsp_path_within<F: Fn(&str, &str) -> u64>(
    routes: Vec<QueuedRoute>,
    cost: F,
    max_passes: usize,
) -> (path: Option<Vec<QueuedRoute>>)
    requires
        forall|from: &str, to: &str| cost.requires((from, to)),
    ensures
        path matches Some(p) ==> is_optimized_under(route_views(p@), routes@, cost),
        path is None ==> exists|m: CostMatrix| #[trigger]
            costs_come_from(m, routes@, cost) && optimizer_restless(
                arrivals(route_views(routes@)),
                m,
                max_passes as nat,
            ),
{
    let m = transition_costs(&routes, cost);
    solve_with_costs_within(routes, &m, max_passes)
}

/// An arrangement of `n` positions leaves none of them out.
pub proof fn lemma_arrangement_covers(order: Seq<usize>, n: nat, v: int)
    requires
        is_arrangement(order, n),
        0 <= v < n,
    ensures
        exists|j: int| 0 <= j < n && order[j] == v,
{
    let listed = Seq::new(n, |i: int| order[i] as int);
    assert(listed.no_duplicates()) by {
        assert forall|i: int, j: int|
            0 <= i < listed.len() && 0 <= j < listed.len() && i != j implies listed[i]
            != listed[j] by {
            if i < j {
                assert(order[i] != order[j]);
            } else {
                assert(order[j] != order[i]);
            }
        }
    }
    listed.unique_seq_to_set();
    vstd::set_lib::lemma_int_range(0, n as int);
    let all = vstd::set_lib::set_int_range(0, n as int);
    if !listed.contains(v) {
        let others = all.remove(v);
        assert(listed.to_set().subset_of(others)) by {
            assert forall|x: int| listed.to_set().contains(x) implies others.contains(x) by {
                let i = choose|i: int| 0 <= i < listed.len() && listed[i] == x;
                assert(order[i] < n);
            }
        }
        vstd::set_lib::lemma_len_subset(listed.to_set(), others);
        assert(false);
    }
    let j = choose|j: int| 0 <= j < listed.len() && listed[j] == v;
    assert(order[j] == v);
}

proof fn lemma_greedy_paths_agree(a: Seq<usize>, b: Seq<usize>, keys: Seq<int>, m: CostMatrix, k: int)
    requires
        is_greedy_path(a, keys, m),
        is_greedy_path(b, keys, m),
        0 <= k < keys.len(),
    ensures
        forall|i: int| 0 <= i <= k ==> a[i] == b[i],
    decreases k,
{
    let n = keys.len();
    if k > 0 {
        lemma_greedy_paths_agree(a, b, keys, m, k - 1);
    }
    if a[k] != b[k] {
        lemma_arrangement_covers(b, n, a[k] as int);
        let j = choose|j: int| 0 <= j < n && b[j] == a[k] as int;
        lemma_arrangement_covers(a, n, b[k] as int);
        let h = choose|h: int| 0 <= h < n && a[h] == b[k] as int;
        assert(j > k) by {
            if j < k {
                assert(a[j] == b[j]);
                assert(a[j] != a[k]);
            }
        }
        assert(h > k) by {
            if h < k {
                assert(a[h] == b[h]);
                assert(b[h] != b[k]);
            }
        }
        if k == 0 {
            assert(precedes(keys, b[0] as int, b[j] as int));
            assert(precedes(keys, a[0] as int, a[h] as int));
        } else {
            assert(a[k - 1] == b[k - 1]);
            assert(nearer(m, keys, b[k - 1] as int, b[k] as int, b[j] as int));
            assert(nearer(m, keys, a[k - 1] as int, a[k] as int, a[h] as int));
        }
        assert(false);
    }
}

/// The greedy path is unique: the routes, their arrivals and the costs
/// leave no choice.
pub proof fn greedy_path_is_unique(a: Seq<usize>, b: Seq<usize>, keys: Seq<int>, m: CostMatrix)
    requires
        is_greedy_path(a, keys, m),
        is_greedy_path(b, keys, m),
    ensures
        a == b,
{
    if keys.len() > 0 {
        lemma_greedy_paths_agree(a, b, keys, m, keys.len() - 1);
    }
    assert(a =~= b);
}

/// What 2-opt makes of a path is unique: the first pass without a move
/// that pays is one pass and no other.
pub proof fn two_opt_result_is_unique(r: Seq<usize>, t: Seq<usize>, p: Seq<usize>, m: CostMatrix)
    requires
        is_two_opt_of(r, p, m),
        is_two_opt_of(t, p, m),
    ensures
        r == t,
{
    if p.len() >= 4 {
        let k = choose|k: nat| #[trigger] settles_after(p, m, k) && r == after_passes(p, m, k + 1);
        let h = choose|h: nat| #[trigger] settles_after(p, m, h) && t == after_passes(p, m, h + 1);
        if k < h {
            assert(pass_moves(after_passes(p, m, k), m));
        }
        if h < k {
            assert(pass_moves(after_passes(p, m, h), m));
        }
        assert(k == h);
    }
}

/// The optimizer gives one result: two orders that both are the greedy
/// path improved by 2-opt are the same order, and list the routes alike.
pub proof fn solution_is_unique(a: Seq<usize>, b: Seq<usize>, keys: Seq<int>, m: CostMatrix)
    requires
        is_solution(a, keys, m),
        is_solution(b, keys, m),
    ensures
        a == b,
{
    let g = choose|g: Seq<usize>| #[trigger] is_greedy_path(g, keys, m) && is_two_opt_of(a, g, m);
    let h = choose|h: Seq<usize>| #[trigger] is_greedy_path(h, keys, m) && is_two_opt_of(b, h, m);
    greedy_path_is_unique(g, h, keys, m);
    two_opt_result_is_unique(a, b, g, m);
}

/// The optimizer loses and invents nothing: every route of the list stands
/// in its result exactly once.
pub proof fn optimized_is_a_rearrangement(
    result: Seq<RouteView>,
    routes: Seq<RouteView>,
    m: CostMatrix,
)
    requires
        is_optimized(result, routes, m),
    ensures
        result.len() == routes.len(),
        forall|i: int| 0 <= i < routes.len() ==> result.contains(#[trigger] routes[i]),
        forall|j: int| 0 <= j < result.len() ==> routes.contains(#[trigger] result[j]),
{
    let order = choose|order: Seq<usize>| #[trigger]
        is_solution(order, arrivals(routes), m) && is_arrangement(order, routes.len()) && result
            == arranged(routes, order);
    assert forall|i: int| 0 <= i < routes.len() implies result.contains(#[trigger] routes[i]) by {
        lemma_arrangement_covers(order, routes.len(), i);
        let j = choose|j: int| 0 <= j < routes.len() && order[j] == i;
        assert(result[j] == routes[i]);
    }
    assert forall|j: int| 0 <= j < result.len() implies routes.contains(#[trigger] result[j]) by {
        let i = order[j] as int;
        assert(routes[i] == result[j]);
    }
}

} // verus!
