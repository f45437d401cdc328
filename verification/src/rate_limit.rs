//! A simple in-memory, per-key sliding-window request rate limiter.
//!
//! Time stamps are nanoseconds since the Unix epoch.

use vstd::prelude::*;
use vstd::string::StringExecFns;

use crate::text::str_eq;

verus! {

/// One key and the time stamps of its recent requests.
pub type EntryView = (Seq<char>, Seq<u128>);

/// Keys occur at most once.
pub open spec fn keys_distinct(es: Seq<EntryView>) -> bool {
    forall|i: int, j: int| 0 <= i < j < es.len() ==> es[i].0 != es[j].0
}

/// The map from keys to request histories that a list of entries represents.
pub open spec fn map_of(es: Seq<EntryView>) -> Map<Seq<char>, Seq<u128>>
    decreases es.len(),
{
    if es.len() == 0 {
        Map::empty()
    } else {
        map_of(es.drop_last()).insert(es.last().0, es.last().1)
    }
}

/// Whether a request at time `t` is still inside the window that ends at `now`.
/// A time stamp later than `now` counts as zero elapsed time.
pub open spec fn is_recent(t: u128, now: u128, window: u128) -> bool {
    (if now >= t { now - t } else { 0 }) < window
}

/// The time stamps of `ts` still inside the window, in the order they were recorded.
pub open spec fn keep_recent(ts: Seq<u128>, now: u128, window: u128) -> Seq<u128>
    decreases ts.len(),
{
    if ts.len() == 0 {
        seq![]
    } else {
        let r = keep_recent(ts.drop_last(), now, window);
        if is_recent(ts.last(), now, window) {
            r.push(ts.last())
        } else {
            r
        }
    }
}

/// The recorded history of `key` (empty when the key is unknown).
pub open spec fn history_of(m: Map<Seq<char>, Seq<u128>>, key: Seq<char>) -> Seq<u128> {
    if m.contains_key(key) {
        m[key]
    } else {
        seq![]
    }
}

/// `m` without the keys whose history is empty.
pub open spec fn drop_empty(m: Map<Seq<char>, Seq<u128>>) -> Map<Seq<char>, Seq<u128>> {
    Map::new(|k: Seq<char>| m.contains_key(k) && m[k].len() > 0, |k: Seq<char>| m[k])
}

/// One rate-limit check: the answer, and the histories afterwards.
///
/// Old time stamps of `key` are discarded; when `max` or more remain the request
/// is refused and nothing is recorded, otherwise `now` is recorded and keys with
/// an empty history are removed.
pub open spec fn rate_limit_step(
    m: Map<Seq<char>, Seq<u128>>,
    key: Seq<char>,
    max: nat,
    window: u128,
    now: u128,
) -> (bool, Map<Seq<char>, Seq<u128>>) {
    let kept = keep_recent(history_of(m, key), now, window);
    if kept.len() >= max {
        (false, m.insert(key, kept))
    } else {
        (true, drop_empty(m.insert(key, kept.push(now))))
    }
}

// ---------------------------------------------------------------------------
// Lemmas about entry lists
// ---------------------------------------------------------------------------

proof fn lemma_map_of_dom(es: Seq<EntryView>, k: Seq<char>)
    ensures
        map_of(es).contains_key(k) <==> exists|i: int| 0 <= i < es.len() && #[trigger] es[i].0 == k,
    decreases es.len(),
{
    if es.len() > 0 {
        lemma_map_of_dom(es.drop_last(), k);
        if map_of(es.drop_last()).contains_key(k) {
            let i = choose|i: int| 0 <= i < es.drop_last().len() && #[trigger] es.drop_last()[i].0 == k;
            assert(es[i].0 == k);
        }
        if exists|i: int| 0 <= i < es.len() && #[trigger] es[i].0 == k {
            let i = choose|i: int| 0 <= i < es.len() && #[trigger] es[i].0 == k;
            if i < es.len() - 1 {
                assert(es.drop_last()[i].0 == k);
            }
        }
    }
}

proof fn lemma_map_of_index(es: Seq<EntryView>, i: int)
    requires
        keys_distinct(es),
        0 <= i < es.len(),
    ensures
        map_of(es).contains_key(es[i].0),
        map_of(es)[es[i].0] == es[i].1,
    decreases es.len(),
{
    if i < es.len() - 1 {
        let d = es.drop_last();
        assert(d[i] == es[i]);
        assert(keys_distinct(d));
        lemma_map_of_index(d, i);
        assert(es.last().0 != es[i].0);
    }
}

proof fn lemma_map_of_update(es: Seq<EntryView>, i: int, v: Seq<u128>)
    requires
        keys_distinct(es),
        0 <= i < es.len(),
    ensures
        keys_distinct(es.update(i, (es[i].0, v))),
        map_of(es.update(i, (es[i].0, v))) == map_of(es).insert(es[i].0, v),
{
    let k = es[i].0;
    let u = es.update(i, (k, v));
    assert(keys_distinct(u));
    let a = map_of(u);
    let b = map_of(es).insert(k, v);
    assert forall|key: Seq<char>| a.contains_key(key) <==> b.contains_key(key) by {
        lemma_map_of_dom(u, key);
        lemma_map_of_dom(es, key);
        if exists|j: int| 0 <= j < es.len() && #[trigger] es[j].0 == key {
            let j = choose|j: int| 0 <= j < es.len() && #[trigger] es[j].0 == key;
            assert(u[j].0 == key);
        }
        if exists|j: int| 0 <= j < u.len() && #[trigger] u[j].0 == key {
            let j = choose|j: int| 0 <= j < u.len() && #[trigger] u[j].0 == key;
            assert(es[j].0 == key);
        }
    }
    assert forall|key: Seq<char>| a.contains_key(key) implies a[key] == b[key] by {
        lemma_map_of_dom(u, key);
        let j = choose|j: int| 0 <= j < u.len() && #[trigger] u[j].0 == key;
        lemma_map_of_index(u, j);
        if j != i {
            lemma_map_of_index(es, j);
        }
    }
    assert(a =~= b);
}

proof fn lemma_map_of_push(es: Seq<EntryView>, e: EntryView)
    requires
        keys_distinct(es),
        !map_of(es).contains_key(e.0),
    ensures
        keys_distinct(es.push(e)),
        map_of(es.push(e)) == map_of(es).insert(e.0, e.1),
{
    assert(es.push(e).drop_last() =~= es);
    assert forall|i: int, j: int| 0 <= i < j < es.push(e).len() implies es.push(e)[i].0 != es.push(
        e,
    )[j].0 by {
        if j == es.len() {
            lemma_map_of_dom(es, e.0);
            assert(es[i].0 == es.push(e)[i].0);
        }
    }
}

proof fn lemma_keep_recent_props(ts: Seq<u128>, now: u128, window: u128)
    ensures
        keep_recent(ts, now, window).len() <= ts.len(),
        forall|i: int|
            0 <= i < keep_recent(ts, now, window).len() ==> is_recent(
                #[trigger] keep_recent(ts, now, window)[i],
                now,
                window,
            ),
    decreases ts.len(),
{
    if ts.len() > 0 {
        lemma_keep_recent_props(ts.drop_last(), now, window);
    }
}

// ---------------------------------------------------------------------------
// Laws
// ---------------------------------------------------------------------------

/// An accepted request is recorded, and afterwards the key's history holds at
/// most `max` time stamps, all of them inside the window; a refused request
/// records nothing: the history is only pruned of expired time stamps, and
/// already holds `max` or more recent ones.
pub proof fn lemma_rate_limit_bounded(
    m: Map<Seq<char>, Seq<u128>>,
    key: Seq<char>,
    max: nat,
    window: u128,
    now: u128,
)
    ensures
        ({
            let (ok, m2) = rate_limit_step(m, key, max, window, now);
            let kept = keep_recent(history_of(m, key), now, window);
            &&& ok ==> history_of(m2, key) == kept.push(now) && history_of(m2, key).len() <= max
            &&& !ok ==> history_of(m2, key) == kept && kept.len() >= max
            &&& forall|i: int|
                0 <= i < history_of(m2, key).len() && #[trigger] history_of(m2, key)[i] != now
                    ==> is_recent(history_of(m2, key)[i], now, window)
        }),
{
    let kept = keep_recent(history_of(m, key), now, window);
    lemma_keep_recent_props(history_of(m, key), now, window);
    let (ok, m2) = rate_limit_step(m, key, max, window, now);
    if ok {
        assert(m.insert(key, kept.push(now))[key].len() > 0);
        assert(m2.contains_key(key));
        assert forall|i: int|
            0 <= i < history_of(m2, key).len() && #[trigger] history_of(m2, key)[i] != now
                implies is_recent(history_of(m2, key)[i], now, window) by {
            assert(history_of(m2, key)[i] == kept.push(now)[i]);
            if i < kept.len() {
                assert(kept.push(now)[i] == kept[i]);
            }
        }
    }
}

/// Keys are counted separately: a check of one key leaves the history of
/// every other key as it was.
pub proof fn lemma_keys_independent(
    m: Map<Seq<char>, Seq<u128>>,
    key: Seq<char>,
    other: Seq<char>,
    max: nat,
    window: u128,
    now: u128,
)
    requires
        other != key,
    ensures
        history_of(rate_limit_step(m, key, max, window, now).1, other) == history_of(m, other),
{
}

/// Only the window counts: when every earlier request of the key has left
/// the window (or there was none), a request is allowed under any limit of at
/// least one.
pub proof fn lemma_expired_history_allows(
    m: Map<Seq<char>, Seq<u128>>,
    key: Seq<char>,
    max: nat,
    window: u128,
    now: u128,
)
    requires
        max >= 1,
        forall|i: int|
            0 <= i < history_of(m, key).len() ==> !is_recent(#[trigger] history_of(m, key)[i], now, window),
    ensures
        rate_limit_step(m, key, max, window, now).0,
{
    lemma_keep_recent_none(history_of(m, key), now, window);
}

proof fn lemma_keep_recent_none(ts: Seq<u128>, now: u128, window: u128)
    requires
        forall|i: int| 0 <= i < ts.len() ==> !is_recent(#[trigger] ts[i], now, window),
    ensures
        keep_recent(ts, now, window).len() == 0,
    decreases ts.len(),
{
    if ts.len() > 0 {
        assert forall|i: int| 0 <= i < ts.drop_last().len() implies !is_recent(
            #[trigger] ts.drop_last()[i],
            now,
            window,
        ) by {
            assert(ts.drop_last()[i] == ts[i]);
        }
        lemma_keep_recent_none(ts.drop_last(), now, window);
        assert(!is_recent(ts[ts.len() - 1], now, window));
    }
}

/// At one instant a key is allowed exactly `max` times: starting from no
/// recent requests, `max` checks at the same time are allowed and the next one
/// is refused.
pub proof fn lemma_allows_exactly_max(m: Map<Seq<char>, Seq<u128>>, key: Seq<char>, max: nat, window: u128, now: u128)
    requires
        window > 0,
        keep_recent(history_of(m, key), now, window).len() == 0,
    ensures
        forall|n: nat|
            n <= max ==> {
                let (ok, m2) = #[trigger] steps_at(m, key, max, window, now, n);
                ok && keep_recent(history_of(m2, key), now, window).len() == n
            },
        !rate_limit_step(steps_at(m, key, max, window, now, max).1, key, max, window, now).0,
{
    assert forall|n: nat| n <= max implies {
        let (ok, m2) = #[trigger] steps_at(m, key, max, window, now, n);
        ok && keep_recent(history_of(m2, key), now, window).len() == n
    } by {
        lemma_steps_at(m, key, max, window, now, n);
    }
    lemma_steps_at(m, key, max, window, now, max);
}

/// `n` checks of `key` at the same instant: whether all were allowed, and
/// the histories afterwards.
pub open spec fn steps_at(
    m: Map<Seq<char>, Seq<u128>>,
    key: Seq<char>,
    max: nat,
    window: u128,
    now: u128,
    n: nat,
) -> (bool, Map<Seq<char>, Seq<u128>>)
    decreases n,
{
    if n == 0 {
        (true, m)
    } else {
        let (ok, m1) = steps_at(m, key, max, window, now, (n - 1) as nat);
        let (ok2, m2) = rate_limit_step(m1, key, max, window, now);
        (ok && ok2, m2)
    }
}

proof fn lemma_steps_at(m: Map<Seq<char>, Seq<u128>>, key: Seq<char>, max: nat, window: u128, now: u128, n: nat)
    requires
        window > 0,
        keep_recent(history_of(m, key), now, window).len() == 0,
        n <= max,
    ensures
        steps_at(m, key, max, window, now, n).0,
        keep_recent(history_of(steps_at(m, key, max, window, now, n).1, key), now, window).len() == n,
    decreases n,
{
    if n > 0 {
        lemma_steps_at(m, key, max, window, now, (n - 1) as nat);
        let m1 = steps_at(m, key, max, window, now, (n - 1) as nat).1;
        let kept = keep_recent(history_of(m1, key), now, window);
        lemma_keep_recent_idempotent(history_of(m1, key), now, window);
        let m2 = rate_limit_step(m1, key, max, window, now).1;
        assert(m2 == drop_empty(m1.insert(key, kept.push(now))));
        assert(history_of(m2, key) == kept.push(now));
        assert(kept.push(now).drop_last() =~= kept);
        assert(is_recent(now, now, window));
        assert(keep_recent(kept.push(now), now, window) == keep_recent(kept, now, window).push(now));
    }
}

/// Checks of `key` at the times `ts`, in order: the answers, the times of the
/// allowed checks, and the histories afterwards.
pub open spec fn run_checks(
    m: Map<Seq<char>, Seq<u128>>,
    key: Seq<char>,
    max: nat,
    window: u128,
    ts: Seq<u128>,
) -> (Seq<bool>, Seq<u128>, Map<Seq<char>, Seq<u128>>)
    decreases ts.len(),
{
    if ts.len() == 0 {
        (seq![], seq![], m)
    } else {
        let (oks, allowed, m1) = run_checks(m, key, max, window, ts.drop_last());
        let (ok, m2) = rate_limit_step(m1, key, max, window, ts.last());
        (oks.push(ok), if ok {
            allowed.push(ts.last())
        } else {
            allowed
        }, m2)
    }
}

/// `run_checks` is a run of `check_rate_limit_at` calls: one more check at
/// time `t` answers and changes the histories exactly as that call does from
/// the histories the earlier checks left.
pub proof fn lemma_run_checks_step(
    m: Map<Seq<char>, Seq<u128>>,
    key: Seq<char>,
    max: nat,
    window: u128,
    ts: Seq<u128>,
    t: u128,
)
    ensures
        ({
            let (oks, allowed, m1) = run_checks(m, key, max, window, ts);
            let (ok, m2) = rate_limit_step(m1, key, max, window, t);
            &&& run_checks(m, key, max, window, ts.push(t)).0 == oks.push(ok)
            &&& run_checks(m, key, max, window, ts.push(t)).2 == m2
            &&& run_checks(m, key, max, window, ts.push(t)).1 == if ok {
                allowed.push(t)
            } else {
                allowed
            }
        }),
{
    assert(ts.push(t).drop_last() =~= ts);
}

/// How many of the times `xs` lie in the interval of length `window` that
/// begins at `start`.
pub open spec fn in_window_count(xs: Seq<u128>, start: u128, window: u128) -> nat
    decreases xs.len(),
{
    if xs.len() == 0 {
        0
    } else {
        in_window_count(xs.drop_last(), start, window) + if start <= xs.last() && xs.last() - start
            < window {
            1nat
        } else {
            0nat
        }
    }
}

/// The times are in order.
pub open spec fn non_decreasing(ts: Seq<u128>) -> bool {
    forall|i: int, j: int| 0 <= i <= j < ts.len() ==> ts[i] <= ts[j]
}

proof fn lemma_keep_recent_push(xs: Seq<u128>, x: u128, now: u128, window: u128)
    ensures
        keep_recent(xs.push(x), now, window) == if is_recent(x, now, window) {
            keep_recent(xs, now, window).push(x)
        } else {
            keep_recent(xs, now, window)
        },
{
    assert(xs.push(x).drop_last() =~= xs);
}

/// Pruning at an earlier time and then at `now` is pruning at `now`.
proof fn lemma_keep_recent_twice(ts: Seq<u128>, t: u128, now: u128, window: u128)
    requires
        t <= now,
        window > 0,
    ensures
        keep_recent(keep_recent(ts, t, window), now, window) == keep_recent(ts, now, window),
    decreases ts.len(),
{
    if ts.len() > 0 {
        let x = ts.last();
        lemma_keep_recent_twice(ts.drop_last(), t, now, window);
        let r = keep_recent(ts.drop_last(), t, window);
        if is_recent(x, t, window) {
            lemma_keep_recent_push(r, x, now, window);
        } else {
            assert(!is_recent(x, now, window));
        }
    }
}

/// Every allowed time is one of the checks' times.
proof fn lemma_allowed_bounded(
    m: Map<Seq<char>, Seq<u128>>,
    key: Seq<char>,
    max: nat,
    window: u128,
    ts: Seq<u128>,
    bound: u128,
)
    requires
        forall|i: int| 0 <= i < ts.len() ==> #[trigger] ts[i] <= bound,
    ensures
        forall|i: int|
            0 <= i < run_checks(m, key, max, window, ts).1.len() ==> #[trigger] run_checks(
                m,
                key,
                max,
                window,
                ts,
            ).1[i] <= bound,
    decreases ts.len(),
{
    if ts.len() > 0 {
        let ts0 = ts.drop_last();
        assert forall|i: int| 0 <= i < ts0.len() implies #[trigger] ts0[i] <= bound by {
            assert(ts0[i] == ts[i]);
        }
        lemma_allowed_bounded(m, key, max, window, ts0, bound);
        assert(ts[ts.len() - 1] <= bound);
        let (oks, allowed, m1) = run_checks(m, key, max, window, ts0);
        let (ok, m2) = rate_limit_step(m1, key, max, window, ts.last());
        let a = run_checks(m, key, max, window, ts).1;
        assert forall|i: int| 0 <= i < a.len() implies #[trigger] a[i] <= bound by {
            if ok && i == allowed.len() {
                assert(a[i] == ts.last());
            } else {
                assert(a[i] == allowed[i]);
            }
        }
    }
}

/// At any time `now` not before the checks, the allowed times still inside
/// the window are no more than the recent time stamps in the history.
proof fn lemma_run_history_covers(
    m: Map<Seq<char>, Seq<u128>>,
    key: Seq<char>,
    max: nat,
    window: u128,
    ts: Seq<u128>,
    now: u128,
)
    requires
        window > 0,
        forall|i: int| 0 <= i < ts.len() ==> #[trigger] ts[i] <= now,
    ensures
        keep_recent(run_checks(m, key, max, window, ts).1, now, window).len() <= keep_recent(
            history_of(run_checks(m, key, max, window, ts).2, key),
            now,
            window,
        ).len(),
    decreases ts.len(),
{
    if ts.len() > 0 {
        let ts0 = ts.drop_last();
        let t = ts.last();
        assert forall|i: int| 0 <= i < ts0.len() implies #[trigger] ts0[i] <= now by {
            assert(ts0[i] == ts[i]);
        }
        assert(ts[ts.len() - 1] <= now);
        lemma_run_history_covers(m, key, max, window, ts0, now);
        let (oks, allowed, m1) = run_checks(m, key, max, window, ts0);
        let kept = keep_recent(history_of(m1, key), t, window);
        lemma_rate_limit_bounded(m1, key, max, window, t);
        lemma_keep_recent_twice(history_of(m1, key), t, now, window);
        let (ok, m2) = rate_limit_step(m1, key, max, window, t);
        if ok {
            lemma_keep_recent_push(allowed, t, now, window);
            lemma_keep_recent_push(kept, t, now, window);
        }
    }
}

/// An allowed time inside the interval that begins at `start` and is no later
/// than `t` (itself inside it) is still inside the window at `t`.
proof fn lemma_window_count_recent(xs: Seq<u128>, start: u128, window: u128, t: u128)
    requires
        start <= t,
        t - start < window,
        forall|i: int| 0 <= i < xs.len() ==> #[trigger] xs[i] <= t,
    ensures
        in_window_count(xs, start, window) <= keep_recent(xs, t, window).len(),
    decreases xs.len(),
{
    if xs.len() > 0 {
        let x0 = xs.drop_last();
        assert forall|i: int| 0 <= i < x0.len() implies #[trigger] x0[i] <= t by {
            assert(x0[i] == xs[i]);
        }
        lemma_window_count_recent(x0, start, window, t);
        assert(xs[xs.len() - 1] <= t);
    }
}

/// However the checks of one key are spread over time, at most `max` of
/// them are allowed in any interval as long as the window: refused checks
/// are not recorded, and an allowed one needs fewer than `max` recorded
/// requests inside the window before it.
pub proof fn lemma_at_most_max_per_window(
    m: Map<Seq<char>, Seq<u128>>,
    key: Seq<char>,
    max: nat,
    window: u128,
    ts: Seq<u128>,
    start: u128,
)
    requires
        window > 0,
        non_decreasing(ts),
    ensures
        in_window_count(run_checks(m, key, max, window, ts).1, start, window) <= max,
    decreases ts.len(),
{
    if ts.len() > 0 {
        let ts0 = ts.drop_last();
        let t = ts.last();
        assert forall|i: int, j: int| 0 <= i <= j < ts0.len() implies ts0[i] <= ts0[j] by {
            assert(ts0[i] == ts[i] && ts0[j] == ts[j]);
        }
        lemma_at_most_max_per_window(m, key, max, window, ts0, start);
        let (oks, allowed, m1) = run_checks(m, key, max, window, ts0);
        let (ok, m2) = rate_limit_step(m1, key, max, window, t);
        if ok {
            let a = allowed.push(t);
            assert(a.drop_last() =~= allowed);
            if start <= t && t - start < window {
                assert forall|i: int| 0 <= i < ts0.len() implies #[trigger] ts0[i] <= t by {
                    assert(ts0[i] == ts[i]);
                    assert(ts[i] <= ts[ts.len() - 1]);
                }
                lemma_allowed_bounded(m, key, max, window, ts0, t);
                lemma_window_count_recent(allowed, start, window, t);
                lemma_run_history_covers(m, key, max, window, ts0, t);
            }
        }
    }
}

/// Once refused, a key stays refused at the same instant: a second check with
/// the same key, limit, window and time is refused too and changes nothing.
pub proof fn lemma_refusal_is_stable(
    m: Map<Seq<char>, Seq<u128>>,
    key: Seq<char>,
    max: nat,
    window: u128,
    now: u128,
)
    requires
        !rate_limit_step(m, key, max, window, now).0,
    ensures
        ({
            let m2 = rate_limit_step(m, key, max, window, now).1;
            &&& !rate_limit_step(m2, key, max, window, now).0
            &&& rate_limit_step(m2, key, max, window, now).1 == m2
        }),
{
    let kept = keep_recent(history_of(m, key), now, window);
    let m2 = m.insert(key, kept);
    lemma_keep_recent_idempotent(history_of(m, key), now, window);
    assert(history_of(m2, key) == kept);
    assert(m2.insert(key, kept) =~= m2);
}

proof fn lemma_keep_recent_idempotent(ts: Seq<u128>, now: u128, window: u128)
    ensures
        keep_recent(keep_recent(ts, now, window), now, window) == keep_recent(ts, now, window),
    decreases ts.len(),
{
    if ts.len() > 0 {
        let r = keep_recent(ts.drop_last(), now, window);
        lemma_keep_recent_idempotent(ts.drop_last(), now, window);
        if is_recent(ts.last(), now, window) {
            assert(r.push(ts.last()).drop_last() =~= r);
        }
    }
}

// ---------------------------------------------------------------------------
// The limiter
// ---------------------------------------------------------------------------

/// One key and its request time stamps.
pub struct RateEntry {
    key: String,
    times: Vec<u128>,
}

/// The view of a list of entries.
pub closed spec fn view_entries(es: Seq<RateEntry>) -> Seq<EntryView> {
    es.map_values(|e: RateEntry| (e.key@, e.times@))
}

/// Simple in-memory rate limiter.
pub struct RateLimiter {
    entries: Vec<RateEntry>,
}

impl RateLimiter {
    #[verifier::type_invariant]
    spec fn keys_unique(self) -> bool {
        keys_distinct(view_entries(self.entries@))
    }
}

impl View for RateLimiter {
    type V = Map<Seq<char>, Seq<u128>>;

    closed spec fn view(&self) -> Map<Seq<char>, Seq<u128>> {
        map_of(view_entries(self.entries@))
    }
}

/// The time stamps of `ts` still inside the window.
fn retain_recent(ts: &Vec<u128>, now: u128, window: u128) -> (r: Vec<u128>)
    ensures
        r@ == keep_recent(ts@, now, window),
{
    let mut r: Vec<u128> = Vec::new();
    let mut i: usize = 0;
    while i < ts.len()
        invariant
            i <= ts.len(),
            r@ == keep_recent(ts@.take(i as int), now, window),
        decreases ts.len() - i,
    {
        let t = ts[i];
        let elapsed: u128 = if now >= t {
            now - t
        } else {
            0
        };
        proof {
            assert(ts@.take(i + 1).drop_last() =~= ts@.take(i as int));
            assert(ts@.take(i + 1).last() == t);
        }
        if elapsed < window {
            r.push(t);
        }
        i = i + 1;
    }
    assert(ts@.take(ts.len() as int) =~= ts@);
    r
}

/// Entries of `es` whose history is not empty, in order.
fn without_empty(es: Vec<RateEntry>) -> (r: Vec<RateEntry>)
    requires
        keys_distinct(view_entries(es@)),
    ensures
        keys_distinct(view_entries(r@)),
        map_of(view_entries(r@)) == drop_empty(map_of(view_entries(es@))),
{
    let ghost ve = view_entries(es@);
    let mut es = es;
    let mut out: Vec<RateEntry> = Vec::new();
    let ghost mut j: int = 0;
    assert(map_of(ve.take(0)) =~= drop_empty(map_of(ve.take(0))));
    assert(view_entries(es@) =~= ve.skip(0));
    while es.len() > 0
        invariant
            0 <= j <= ve.len(),
            view_entries(es@) == ve.skip(j),
            keys_distinct(ve),
            keys_distinct(view_entries(out@)),
            map_of(view_entries(out@)) == drop_empty(map_of(ve.take(j))),
        decreases es.len(),
    {
        let ghost before = view_entries(out@);
        let ghost old_es = es@;
        let e = es.remove(0);
        proof {
            assert(view_entries(old_es).len() == old_es.len());
            assert(j < ve.len());
            assert(e == old_es[0]);
            assert(view_entries(old_es)[0] == (old_es[0].key@, old_es[0].times@));
            assert(view_entries(old_es)[0] == ve.skip(j)[0]);
            assert(ve.skip(j)[0] == ve[j]);
            assert((e.key@, e.times@) == ve[j]);
            assert(es@ == old_es.remove(0));
            assert forall|i: int| 0 <= i < es@.len() implies view_entries(es@)[i] == ve.skip(j + 1)[i] by {
                assert(es@[i] == old_es[i + 1]);
                assert(view_entries(es@)[i] == (es@[i].key@, es@[i].times@));
                assert(view_entries(old_es)[i + 1] == (old_es[i + 1].key@, old_es[i + 1].times@));
                assert(view_entries(old_es)[i + 1] == ve.skip(j)[i + 1]);
                assert(ve.skip(j)[i + 1] == ve[j + 1 + i]);
                assert(ve.skip(j + 1)[i] == ve[j + 1 + i]);
            }
            assert(view_entries(es@) =~= ve.skip(j + 1));
            assert(ve.take(j + 1).drop_last() =~= ve.take(j));
            assert(ve.take(j + 1).last() == ve[j]);
            assert forall|i: int| 0 <= i < ve.take(j).len() implies #[trigger] ve.take(j)[i].0 != ve[j].0 by {
                assert(ve.take(j)[i] == ve[i]);
            }
            lemma_map_of_dom(ve.take(j), ve[j].0);
        }
        if e.times.len() > 0 {
            proof {
                let m = map_of(ve.take(j));
                assert(!drop_empty(m).contains_key(ve[j].0));
                lemma_map_of_push(before, ve[j]);
                assert(drop_empty(m).insert(ve[j].0, ve[j].1) =~= drop_empty(m.insert(ve[j].0, ve[j].1)));
            }
            out.push(e);
            proof {
                assert(view_entries(out@) =~= before.push(ve[j]));
            }
        } else {
            proof {
                let m = map_of(ve.take(j));
                assert(drop_empty(m) =~= drop_empty(m.insert(ve[j].0, ve[j].1)));
            }
        }
        proof {
            j = j + 1;
        }
    }
    assert(ve.take(j) =~= ve);
    out
}

/// Position of the entry holding `key`, if any.
fn find_key(entries: &Vec<RateEntry>, key: &str) -> (r: Option<usize>)
    ensures
        r matches Some(i) ==> i < entries.len() && view_entries(entries@)[i as int].0 == key@,
        r is None ==> forall|j: int|
            0 <= j < entries.len() ==> #[trigger] view_entries(entries@)[j].0 != key@,
{
    let mut idx: usize = 0;
    while idx < entries.len()
        invariant
            idx <= entries.len(),
            forall|j: int| 0 <= j < idx ==> #[trigger] view_entries(entries@)[j].0 != key@,
        decreases entries.len() - idx,
    {
        if str_eq(entries[idx].key.as_str(), key) {
            return Some(idx);
        }
        idx = idx + 1;
    }
    None
}

impl RateLimiter {
    /// An empty limiter.
    pub fn new() -> (r: Self)
        ensures
            r@ == Map::<Seq<char>, Seq<u128>>::empty(),
    {
        RateLimiter { entries: Vec::new() }
    }

    /// Checks whether a request for `key` at time `now_nanos` is allowed under a
    /// limit of `max_requests` per `window_nanos`; returns `true` (and records it)
    /// if allowed, `false` if the limit is exceeded.
    pub fn check_rate_limit_at(
        &mut self,
        key: &str,
        max_requests: usize,
        window_nanos: u128,
        now_nanos: u128,
    ) -> (allowed: bool)
        ensures
            (allowed, final(self)@) == rate_limit_step(
                old(self)@,
                key@,
                max_requests as nat,
                window_nanos,
                now_nanos,
            ),
    {
        proof {
            use_type_invariant(&*self);
        }
        let mut entries: Vec<RateEntry> = Vec::new();
        std::mem::swap(&mut entries, &mut self.entries);
        let ghost ve = view_entries(entries@);
        assert(map_of(ve) == old(self)@);
        // find the entry of `key`
        let pos = find_key(&entries, key);
        let found = pos.is_some();
        let idx: usize = match pos {
            Some(i) => i,
            None => 0,
        };
        let kept = if found {
            retain_recent(&entries[idx].times, now_nanos, window_nanos)
        } else {
            Vec::new()
        };
        proof {
            if found {
                assert(ve[idx as int].0 == key@);
                lemma_map_of_index(ve, idx as int);
                assert(history_of(map_of(ve), key@) == ve[idx as int].1);
            } else {
                lemma_map_of_dom(ve, key@);
                assert forall|j: int| 0 <= j < ve.len() implies #[trigger] ve[j].0 != key@ by {}
                assert(!map_of(ve).contains_key(key@));
                assert(kept@ =~= keep_recent(seq![], now_nanos, window_nanos));
            }
        }
        let allowed = kept.len() < max_requests;
        let mut times = kept;
        if allowed {
            times.push(now_nanos);
        }
        let ghost new_times = times@;
        if found {
            let entry = RateEntry { key: String::from_str(key), times };
            entries.set(idx, entry);
            proof {
                assert(view_entries(entries@) =~= ve.update(idx as int, (key@, new_times)));
                lemma_map_of_update(ve, idx as int, new_times);
            }
        } else {
            let entry = RateEntry { key: String::from_str(key), times };
            entries.push(entry);
            proof {
                assert(view_entries(entries@) =~= ve.push((key@, new_times)));
                lemma_map_of_push(ve, (key@, new_times));
            }
        }
        if allowed {
            entries = without_empty(entries);
        }
        self.entries = entries;
        allowed
    }

    /// Checks a request for `key` against a limit of `max_requests` per
    /// `window_nanos`, at the current time of the system clock.
    pub fn check_rate_limit(&mut self, key: &str, max_requests: usize, window_nanos: u128) -> (allowed: bool)
        ensures
            exists|now: u128|
                (allowed, final(self)@) == rate_limit_step(
                    old(self)@,
                    key@,
                    max_requests as nat,
                    window_nanos,
                    now,
                ),
    {
        let now = clock_nanos();
        self.check_rate_limit_at(key, max_requests, window_nanos, now)
    }
}

impl Default for RateLimiter {
    fn default() -> (r: Self)
        ensures
            r@ == Map::<Seq<char>, Seq<u128>>::empty(),
    {
        Self::new()
    }
}

/// Reads the system clock (`std::time::SystemTime::now`) as nanoseconds since
/// the Unix epoch, converting a clock set before the epoch to zero. Nothing is
/// stated about the value: it depends on the time of the call.
#[verifier::external_body]
fn clock_nanos() -> u128 {
    match std::time::SystemTime::now().duration_since(std::time::UNIX_EPOCH) {
        Ok(d) => d.as_nanos(),
        Err(_) => 0,
    }
}

} // verus!
