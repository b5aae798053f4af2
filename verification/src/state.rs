//! The public Demo's accepted-start windows: a fixed-window quota, kept both per visitor
//! token and per client IP, of how many tune starts were accepted recently.

use vstd::prelude::*;

use crate::policy::DemoPolicy;

verus! {

broadcast use vstd::seq_lib::group_seq_properties;

/// Returned when a start would exceed a visitor's or a client address's accepted-start
/// quota; `retry_after_secs` says when the oldest counted start leaves its window.
#[derive(Debug, Clone, Copy, PartialEq, Eq, Structural)]
pub struct DemoQuotaExceeded {
    pub retry_after_secs: u64,
}

/// One accepted start, stamped with its unique id and its acceptance time in Unix
/// milliseconds.
#[derive(Debug, Clone, Copy, PartialEq, Eq, Structural)]
pub struct AcceptedStart {
    pub id: u64,
    pub accepted_at_ms: i64,
}

/// The accepted starts recorded under one key (a visitor token hash or a client address),
/// oldest first.
pub struct StartWindow {
    pub key: String,
    pub starts: Vec<AcceptedStart>,
}

/// The largest window length, in seconds, that a signed millisecond duration can hold.
pub const MAX_WINDOW_SECS: u64 = 9_223_372_036_854_775;

/// The instant at or before which a start has left a window of `window_secs` ending at
/// `now_ms`.
pub open spec fn cutoff_ms(now_ms: i64, window_secs: u64) -> int {
    now_ms - window_secs * 1000
}

/// `s` without its leading starts accepted at or before `cutoff`.
pub open spec fn pruned(s: Seq<AcceptedStart>, cutoff: int) -> Seq<AcceptedStart>
    decreases s.len(),
{
    if s.len() > 0 && s[0].accepted_at_ms <= cutoff {
        pruned(s.drop_first(), cutoff)
    } else {
        s
    }
}

pub open spec fn has_key(ws: Seq<StartWindow>, k: Seq<char>) -> bool {
    exists|i: int| 0 <= i < ws.len() && ws[i].key@ == k
}

/// The abstract content of a window list: each key's sequence of starts.
pub open spec fn windows_view(ws: Seq<StartWindow>) -> Map<Seq<char>, Seq<AcceptedStart>> {
    Map::new(
        |k: Seq<char>| has_key(ws, k),
        |k: Seq<char>| ws[choose|i: int| 0 <= i < ws.len() && ws[i].key@ == k].starts@,
    )
}

/// Keys are distinct and no key holds an empty window.
pub open spec fn windows_wf(ws: Seq<StartWindow>) -> bool {
    &&& forall|i: int, j: int|
        0 <= i < ws.len() && 0 <= j < ws.len() && i != j ==> ws[i].key@ != ws[j].key@
    &&& forall|i: int| 0 <= i < ws.len() ==> ws[i].starts@.len() > 0
}

/// The starts recorded under `k`, if any.
pub open spec fn lookup(m: Map<Seq<char>, Seq<AcceptedStart>>, k: Seq<char>) -> Option<
    Seq<AcceptedStart>,
> {
    if m.dom().contains(k) {
        Some(m[k])
    } else {
        None
    }
}

/// Every window after dropping its expired leading starts; windows left empty disappear.
pub open spec fn prune_map(m: Map<Seq<char>, Seq<AcceptedStart>>, cutoff: int) -> Map<
    Seq<char>,
    Seq<AcceptedStart>,
> {
    Map::new(
        |k: Seq<char>| m.dom().contains(k) && pruned(m[k], cutoff).len() > 0,
        |k: Seq<char>| pruned(m[k], cutoff),
    )
}

/// `m` with `start` appended to the window of `k` (created if absent).
pub open spec fn push_start(
    m: Map<Seq<char>, Seq<AcceptedStart>>,
    k: Seq<char>,
    start: AcceptedStart,
) -> Map<Seq<char>, Seq<AcceptedStart>> {
    match lookup(m, k) {
        Some(s) => m.insert(k, s.push(start)),
        None => m.insert(k, seq![start]),
    }
}

/// `m` with every start carrying `id` removed from the window of `k`; the window
/// disappears if nothing is left in it.
pub open spec fn remove_start(m: Map<Seq<char>, Seq<AcceptedStart>>, k: Seq<char>, id: u64) -> Map<
    Seq<char>,
    Seq<AcceptedStart>,
> {
    if !m.dom().contains(k) {
        m
    } else {
        let kept = m[k].filter(other_than(id));
        if kept.len() == 0 {
            m.remove(k)
        } else {
            m.insert(k, kept)
        }
    }
}

/// Keeps every start except the one carrying `id`.
pub open spec fn other_than(id: u64) -> spec_fn(AcceptedStart) -> bool {
    |a: AcceptedStart| a.id != id
}

/// The wait, in whole seconds rounded up and at least one millisecond's worth, until the
/// oldest start of a full window leaves it; `None` when fewer than `limit` starts are
/// recorded.
pub open spec fn retry_after_spec(
    starts: Option<Seq<AcceptedStart>>,
    limit: u32,
    now_ms: i64,
    window_secs: u64,
) -> Option<u64> {
    match starts {
        None => None,
        Some(s) => if s.len() < limit || s.len() == 0 {
            None
        } else {
            let remaining = s[0].accepted_at_ms + window_secs * 1000 - now_ms;
            let clamped = if remaining < 1 {
                1
            } else {
                remaining
            };
            Some(((clamped + 999) / 1000) as u64)
        },
    }
}

/// The larger of two optional waits; `None` only when both are `None`.
pub open spec fn max_retry(a: Option<u64>, b: Option<u64>) -> Option<u64> {
    match (a, b) {
        (Some(x), Some(y)) => Some(if x >= y { x } else { y }),
        (Some(x), None) => Some(x),
        (None, Some(y)) => Some(y),
        (None, None) => None,
    }
}

// ---------------------------------------------------------------------------------------
// Lemmas about window lists
// ---------------------------------------------------------------------------------------

proof fn lemma_view_at(ws: Seq<StartWindow>, i: int)
    requires
        windows_wf(ws),
        0 <= i < ws.len(),
    ensures
        windows_view(ws).dom().contains(ws[i].key@),
        windows_view(ws)[ws[i].key@] == ws[i].starts@,
{
    let k = ws[i].key@;
    assert(has_key(ws, k));
    let j = choose|j: int| 0 <= j < ws.len() && ws[j].key@ == k;
    assert(j == i);
}

proof fn lemma_view_wf(ws: Seq<StartWindow>)
    requires
        windows_wf(ws),
    ensures
        forall|k: Seq<char>| #[trigger]
            windows_view(ws).dom().contains(k) ==> windows_view(ws)[k].len() > 0,
{
    assert forall|k: Seq<char>| #[trigger] windows_view(ws).dom().contains(k) implies windows_view(
        ws,
    )[k].len() > 0 by {
        let i = choose|i: int| 0 <= i < ws.len() && ws[i].key@ == k;
        lemma_view_at(ws, i);
    }
}

proof fn lemma_view_push_new(ws: Seq<StartWindow>, w: StartWindow)
    requires
        windows_wf(ws),
        !has_key(ws, w.key@),
        w.starts@.len() > 0,
    ensures
        windows_wf(ws.push(w)),
        windows_view(ws.push(w)) == windows_view(ws).insert(w.key@, w.starts@),
{
    let ws2 = ws.push(w);
    assert(windows_wf(ws2)) by {
        assert forall|i: int, j: int|
            0 <= i < ws2.len() && 0 <= j < ws2.len() && i != j implies ws2[i].key@
            != ws2[j].key@ by {
            if i == ws.len() as int {
                assert(ws2[j] == ws[j]);
            } else if j == ws.len() as int {
                assert(ws2[i] == ws[i]);
            }
        }
    }
    let lhs = windows_view(ws2);
    let rhs = windows_view(ws).insert(w.key@, w.starts@);
    assert forall|k: Seq<char>| lhs.dom().contains(k) == rhs.dom().contains(k) by {
        if has_key(ws, k) {
            let i = choose|i: int| 0 <= i < ws.len() && ws[i].key@ == k;
            assert(ws2[i] == ws[i]);
        }
        if has_key(ws2, k) && k != w.key@ {
            let i = choose|i: int| 0 <= i < ws2.len() && ws2[i].key@ == k;
            assert(ws2[i] == ws[i]);
        }
        if k == w.key@ {
            assert(ws2[ws.len() as int] == w);
        }
    }
    assert forall|k: Seq<char>| #[trigger] lhs.dom().contains(k) implies lhs[k] == rhs[k] by {
        let i = choose|i: int| 0 <= i < ws2.len() && ws2[i].key@ == k;
        lemma_view_at(ws2, i);
        if i < ws.len() {
            assert(ws2[i] == ws[i]);
            lemma_view_at(ws, i);
        }
    }
    assert(lhs =~= rhs);
}

proof fn lemma_view_remove(ws: Seq<StartWindow>, i: int)
    requires
        windows_wf(ws),
        0 <= i < ws.len(),
    ensures
        windows_wf(ws.remove(i)),
        !has_key(ws.remove(i), ws[i].key@),
        windows_view(ws.remove(i)) == windows_view(ws).remove(ws[i].key@),
{
    let ws2 = ws.remove(i);
    let key = ws[i].key@;
    assert forall|j: int| 0 <= j < ws2.len() implies #[trigger] ws2[j] == (if j < i {
        ws[j]
    } else {
        ws[j + 1]
    }) by {}
    assert(windows_wf(ws2)) by {
        assert forall|a: int, b: int|
            0 <= a < ws2.len() && 0 <= b < ws2.len() && a != b implies ws2[a].key@
            != ws2[b].key@ by {
            let a0 = if a < i {
                a
            } else {
                a + 1
            };
            let b0 = if b < i {
                b
            } else {
                b + 1
            };
            assert(ws2[a] == ws[a0]);
            assert(ws2[b] == ws[b0]);
        }
        assert forall|a: int| 0 <= a < ws2.len() implies ws2[a].starts@.len() > 0 by {
            let a0 = if a < i {
                a
            } else {
                a + 1
            };
            assert(ws2[a] == ws[a0]);
        }
    }
    assert(!has_key(ws2, key)) by {
        if has_key(ws2, key) {
            let a = choose|a: int| 0 <= a < ws2.len() && ws2[a].key@ == key;
            let a0 = if a < i {
                a
            } else {
                a + 1
            };
            assert(ws2[a] == ws[a0]);
        }
    }
    let lhs = windows_view(ws2);
    let rhs = windows_view(ws).remove(key);
    assert forall|k: Seq<char>| lhs.dom().contains(k) == rhs.dom().contains(k) by {
        if has_key(ws2, k) {
            let a = choose|a: int| 0 <= a < ws2.len() && ws2[a].key@ == k;
            let a0 = if a < i {
                a
            } else {
                a + 1
            };
            assert(ws2[a] == ws[a0]);
        }
        if has_key(ws, k) && k != key {
            let a = choose|a: int| 0 <= a < ws.len() && ws[a].key@ == k;
            let a2 = if a < i {
                a
            } else {
                a - 1
            };
            assert(ws2[a2] == ws[a]);
        }
    }
    assert forall|k: Seq<char>| #[trigger] lhs.dom().contains(k) implies lhs[k] == rhs[k] by {
        let a = choose|a: int| 0 <= a < ws2.len() && ws2[a].key@ == k;
        lemma_view_at(ws2, a);
        let a0 = if a < i {
            a
        } else {
            a + 1
        };
        assert(ws2[a] == ws[a0]);
        lemma_view_at(ws, a0);
    }
    assert(lhs =~= rhs);
}

proof fn lemma_pruned_step(s: Seq<AcceptedStart>, i: int, cutoff: int)
    requires
        0 <= i < s.len(),
        s[i].accepted_at_ms <= cutoff,
    ensures
        pruned(s.skip(i), cutoff) == pruned(s.skip(i + 1), cutoff),
{
    assert(s.skip(i).drop_first() =~= s.skip(i + 1));
}

proof fn lemma_filter_keeps_all(s: Seq<AcceptedStart>, id: u64)
    requires
        forall|j: int| 0 <= j < s.len() ==> s[j].id != id,
    ensures
        s.filter(other_than(id)) == s,
    decreases s.len(),
{
    let pred = other_than(id);
    if s.len() > 0 {
        let init = s.drop_last();
        lemma_filter_keeps_all(init, id);
        init.lemma_filter_push(s.last(), pred);
        assert(init.push(s.last()) =~= s);
    } else {
        reveal(Seq::filter);
    }
}

// ---------------------------------------------------------------------------------------
// Executable operations on window lists
// ---------------------------------------------------------------------------------------

fn find_window(ws: &Vec<StartWindow>, key: &String) -> (r: Option<usize>)
    ensures
        match r {
            Some(i) => i < ws@.len() && ws@[i as int].key@ == key@,
            None => !has_key(ws@, key@),
        },
{
    let mut i: usize = 0;
    while i < ws.len()
        invariant
            i <= ws@.len(),
            forall|j: int| 0 <= j < i ==> ws@[j].key@ != key@,
        decreases ws@.len() - i,
    {
        if ws[i].key == *key {
            return Some(i);
        }
        i = i + 1;
    }
    None
}

fn prune_starts(starts: &Vec<AcceptedStart>, cutoff: i128) -> (r: Vec<AcceptedStart>)
    ensures
        r@ == pruned(starts@, cutoff as int),
{
    let mut i: usize = 0;
    while i < starts.len() && (starts[i].accepted_at_ms as i128) <= cutoff
        invariant
            i <= starts@.len(),
            pruned(starts@, cutoff as int) == pruned(starts@.skip(i as int), cutoff as int),
        decreases starts@.len() - i,
    {
        proof {
            lemma_pruned_step(starts@, i as int, cutoff as int);
        }
        i = i + 1;
    }
    let mut r: Vec<AcceptedStart> = Vec::new();
    let mut j: usize = i;
    while j < starts.len()
        invariant
            i <= j <= starts@.len(),
            r@ == starts@.subrange(i as int, j as int),
        decreases starts@.len() - j,
    {
        r.push(starts[j]);
        j = j + 1;
    }
    proof {
        assert(starts@.skip(i as int) =~= starts@.subrange(i as int, starts@.len() as int));
        if i < starts@.len() {
            assert(starts@.skip(i as int)[0] == starts@[i as int]);
        }
    }
    r
}

fn prune_windows(ws: Vec<StartWindow>, cutoff: i128) -> (r: Vec<StartWindow>)
    requires
        windows_wf(ws@),
    ensures
        windows_wf(r@),
        windows_view(r@) == prune_map(windows_view(ws@), cutoff as int),
{
    let ghost old_ws = ws@;
    let mut ws = ws;
    let mut r: Vec<StartWindow> = Vec::new();
    proof {
        assert(windows_view(r@) =~= Map::empty());
    }
    while ws.len() > 0
        invariant
            windows_wf(ws@),
            windows_wf(r@),
            forall|k: Seq<char>|
                #[trigger] windows_view(ws@).dom().contains(k) ==> !windows_view(r@).dom().contains(
                    k,
                ),
            forall|k: Seq<char>| #[trigger]
                windows_view(old_ws).dom().contains(k) == (windows_view(ws@).dom().contains(k)
                    || windows_view(r@).dom().contains(k) || (windows_view(old_ws).dom().contains(
                    k) && pruned(windows_view(old_ws)[k], cutoff as int).len() == 0)),
            forall|k: Seq<char>| #[trigger]
                windows_view(ws@).dom().contains(k) ==> windows_view(ws@)[k] == windows_view(
                    old_ws,
                )[k],
            forall|k: Seq<char>| #[trigger]
                windows_view(r@).dom().contains(k) ==> windows_view(old_ws).dom().contains(k)
                    && windows_view(r@)[k] == pruned(windows_view(old_ws)[k], cutoff as int)
                    && windows_view(r@)[k].len() > 0,
        decreases ws@.len(),
    {
        let ghost before_ws = ws@;
        let ghost before_r = r@;
        let last = ws.len() - 1;
        proof {
            lemma_view_at(ws@, last as int);
            lemma_view_remove(ws@, last as int);
        }
        let w = ws.remove(last);
        let kept = prune_starts(&w.starts, cutoff);
        proof {
            assert(w.key@ == before_ws[last as int].key@);
            assert(windows_view(before_ws).dom().contains(w.key@));
            assert(!windows_view(before_r).dom().contains(w.key@));
            assert(!has_key(before_r, w.key@));
        }
        if kept.len() > 0 {
            let nw = StartWindow { key: w.key, starts: kept };
            proof {
                lemma_view_push_new(before_r, nw);
            }
            r.push(nw);
        }
        proof {
            lemma_view_wf(ws@);
            lemma_view_wf(r@);
        }
    }
    proof {
        lemma_view_wf(r@);
        let lhs = windows_view(r@);
        let rhs = prune_map(windows_view(old_ws), cutoff as int);
        assert forall|k: Seq<char>| lhs.dom().contains(k) == rhs.dom().contains(k) by {
            assert(!windows_view(ws@).dom().contains(k));
        }
        assert(lhs =~= rhs);
    }
    r
}


fn without_id(starts: &Vec<AcceptedStart>, id: u64) -> (r: Vec<AcceptedStart>)
    ensures
        r@ == starts@.filter(other_than(id)),
{
    let mut r: Vec<AcceptedStart> = Vec::new();
    let mut i: usize = 0;
    proof {
        reveal(Seq::filter);
        assert(starts@.take(0) =~= Seq::<AcceptedStart>::empty());
    }
    while i < starts.len()
        invariant
            i <= starts@.len(),
            r@ == starts@.take(i as int).filter(other_than(id)),
        decreases starts@.len() - i,
    {
        let a = starts[i];
        proof {
            starts@.take(i as int).lemma_filter_push(a, other_than(id));
            assert(starts@.take(i as int).push(a) =~= starts@.take(i + 1));
        }
        if a.id != id {
            r.push(a);
        }
        i = i + 1;
    }
    proof {
        assert(starts@.take(starts@.len() as int) =~= starts@);
    }
    r
}

fn push_into(ws: &mut Vec<StartWindow>, key: &String, start: AcceptedStart)
    requires
        windows_wf(old(ws)@),
    ensures
        windows_wf(final(ws)@),
        windows_view(final(ws)@) == push_start(windows_view(old(ws)@), key@, start),
{
    let ghost before = ws@;
    match find_window(ws, key) {
        Some(i) => {
            proof {
                lemma_view_at(ws@, i as int);
                lemma_view_remove(ws@, i as int);
            }
            let mut w = ws.remove(i);
            w.starts.push(start);
            proof {
                lemma_view_push_new(ws@, w);
                assert(windows_view(ws@).insert(w.key@, w.starts@) =~= push_start(
                    windows_view(before),
                    key@,
                    start,
                ));
            }
            ws.push(w);
        },
        None => {
            let mut starts: Vec<AcceptedStart> = Vec::new();
            starts.push(start);
            let w = StartWindow { key: key.clone(), starts };
            proof {
                lemma_view_push_new(ws@, w);
                assert(starts@ =~= seq![start]);
            }
            ws.push(w);
        },
    }
}

fn remove_from(ws: &mut Vec<StartWindow>, key: &String, id: u64)
    requires
        windows_wf(old(ws)@),
    ensures
        windows_wf(final(ws)@),
        windows_view(final(ws)@) == remove_start(windows_view(old(ws)@), key@, id),
{
    let ghost before = ws@;
    match find_window(ws, key) {
        Some(i) => {
            proof {
                lemma_view_at(ws@, i as int);
                lemma_view_remove(ws@, i as int);
            }
            let w = ws.remove(i);
            let kept = without_id(&w.starts, id);
            if kept.len() > 0 {
                let nw = StartWindow { key: w.key, starts: kept };
                proof {
                    lemma_view_push_new(ws@, nw);
                    assert(windows_view(ws@).insert(nw.key@, nw.starts@) =~= remove_start(
                        windows_view(before),
                        key@,
                        id,
                    ));
                }
                ws.push(nw);
            } else {
                proof {
                    assert(windows_view(ws@) =~= remove_start(windows_view(before), key@, id));
                }
            }
        },
        None => {
            proof {
                assert(!windows_view(ws@).dom().contains(key@));
            }
        },
    }
}

fn retry_after_for(
    starts: Option<&Vec<AcceptedStart>>,
    limit: u32,
    now_ms: i64,
    window_secs: u64,
) -> (r: Option<u64>)
    requires
        window_secs <= MAX_WINDOW_SECS,
    ensures
        r == retry_after_spec(
            match starts {
                Some(v) => Some(v@),
                None => None,
            },
            limit,
            now_ms,
            window_secs,
        ),
{
    match starts {
        None => None,
        Some(s) => {
            if s.len() < limit as usize || s.len() == 0 {
                return None;
            }
            let remaining: i128 = s[0].accepted_at_ms as i128 + (window_secs as i128) * 1000
                - now_ms as i128;
            let clamped: i128 = if remaining < 1 {
                1
            } else {
                remaining
            };
            Some(((clamped + 999) / 1000) as u64)
        },
    }
}

/// The wait that a start for `token` from `ip` would have to observe, or `None` when both
/// of their windows have room.
pub open spec fn quota_spec(
    by_token: Map<Seq<char>, Seq<AcceptedStart>>,
    by_ip: Map<Seq<char>, Seq<AcceptedStart>>,
    token: Seq<char>,
    ip: Seq<char>,
    now_ms: i64,
    policy: DemoPolicy,
) -> Option<u64> {
    max_retry(
        retry_after_spec(
            lookup(by_token, token),
            policy.accepted_starts_per_token,
            now_ms,
            policy.accepted_start_window_secs,
        ),
        retry_after_spec(
            lookup(by_ip, ip),
            policy.accepted_starts_per_client_ip,
            now_ms,
            policy.accepted_start_window_secs,
        ),
    )
}

/// The abstract state of the accepted-start windows.
pub struct AcceptedStartWindowsView {
    pub next_id: u64,
    /// Whether the id counter has ever wrapped past `u64::MAX`.
    pub counter_wrapped: bool,
    pub by_token: Map<Seq<char>, Seq<AcceptedStart>>,
    pub by_ip: Map<Seq<char>, Seq<AcceptedStart>>,
}

/// Every start recorded in `m` carries an id that the counter has issued: between 1 and `n`.
pub open spec fn ids_issued(m: Map<Seq<char>, Seq<AcceptedStart>>, n: u64) -> bool {
    forall|k: Seq<char>, j: int|
        m.dom().contains(k) && 0 <= j < m[k].len() ==> 1 <= #[trigger] m[k][j].id <= n
}

/// No key holds an empty window, and until the id counter wraps every recorded id is one
/// it has issued.
pub open spec fn view_wf(v: AcceptedStartWindowsView) -> bool {
    &&& forall|k: Seq<char>| #[trigger] v.by_token.dom().contains(k) ==> v.by_token[k].len() > 0
    &&& forall|k: Seq<char>| #[trigger] v.by_ip.dom().contains(k) ==> v.by_ip[k].len() > 0
    &&& !v.counter_wrapped ==> ids_issued(v.by_token, v.next_id) && ids_issued(v.by_ip, v.next_id)
}

/// Both windows of `v` after dropping every start that left the window ending at `now_ms`.
pub open spec fn pruned_view(
    v: AcceptedStartWindowsView,
    now_ms: i64,
    window_secs: u64,
) -> AcceptedStartWindowsView {
    AcceptedStartWindowsView {
        next_id: v.next_id,
        counter_wrapped: v.counter_wrapped,
        by_token: prune_map(v.by_token, cutoff_ms(now_ms, window_secs)),
        by_ip: prune_map(v.by_ip, cutoff_ms(now_ms, window_secs)),
    }
}

/// The id the next accepted start receives: one past the last, wrapping at `u64::MAX`.
pub open spec fn next_start_id(next_id: u64) -> u64 {
    if next_id == u64::MAX {
        0
    } else {
        (next_id + 1) as u64
    }
}

/// The windows after recording an accepted start `id` for `token` and `ip` at `now_ms`.
pub open spec fn recorded_view(
    v: AcceptedStartWindowsView,
    token: Seq<char>,
    ip: Seq<char>,
    now_ms: i64,
) -> AcceptedStartWindowsView {
    let id = next_start_id(v.next_id);
    let start = AcceptedStart { id, accepted_at_ms: now_ms };
    AcceptedStartWindowsView {
        next_id: id,
        counter_wrapped: v.counter_wrapped || v.next_id == u64::MAX,
        by_token: push_start(v.by_token, token, start),
        by_ip: push_start(v.by_ip, ip, start),
    }
}

/// The windows after withdrawing the start `id` recorded for `token` and `ip`.
pub open spec fn released_view(
    v: AcceptedStartWindowsView,
    token: Seq<char>,
    ip: Seq<char>,
    id: u64,
) -> AcceptedStartWindowsView {
    AcceptedStartWindowsView {
        next_id: v.next_id,
        counter_wrapped: v.counter_wrapped,
        by_token: remove_start(v.by_token, token, id),
        by_ip: remove_start(v.by_ip, ip, id),
    }
}

/// A handle on one accepted start, needed to withdraw it again.
#[derive(Debug)]
pub struct DemoAcceptedStart {
    id: u64,
    token_hash: String,
    client_ip: String,
}

/// The abstract content of a [`DemoAcceptedStart`].
pub struct DemoAcceptedStartView {
    pub id: u64,
    pub token_hash: Seq<char>,
    pub client_ip: Seq<char>,
}

impl View for DemoAcceptedStart {
    type V = DemoAcceptedStartView;

    closed spec fn view(&self) -> DemoAcceptedStartView {
        DemoAcceptedStartView {
            id: self.id,
            token_hash: self.token_hash@,
            client_ip: self.client_ip@,
        }
    }
}

/// The accepted-start windows of the public Demo, keyed by visitor token hash and by
/// client address.
pub struct AcceptedStartWindows {
    next_id: u64,
    wrapped: Ghost<bool>,
    by_token: Vec<StartWindow>,
    by_ip: Vec<StartWindow>,
}

impl View for AcceptedStartWindows {
    type V = AcceptedStartWindowsView;

    closed spec fn view(&self) -> AcceptedStartWindowsView {
        AcceptedStartWindowsView {
            next_id: self.next_id,
            counter_wrapped: self.wrapped@,
            by_token: windows_view(self.by_token@),
            by_ip: windows_view(self.by_ip@),
        }
    }
}

impl AcceptedStartWindows {
    /// Keys are distinct, no window is empty, and until the counter wraps every recorded id
    /// is one it has issued.
    pub closed spec fn wf(&self) -> bool {
        &&& windows_wf(self.by_token@)
        &&& windows_wf(self.by_ip@)
        &&& !self.wrapped@ ==> ids_issued(windows_view(self.by_token@), self.next_id)
            && ids_issued(windows_view(self.by_ip@), self.next_id)
    }

    pub proof fn lemma_wf(&self)
        requires
            self.wf(),
        ensures
            view_wf(self@),
    {
        lemma_view_wf(self.by_token@);
        lemma_view_wf(self.by_ip@);
    }

    /// No starts recorded yet.
    pub fn new() -> (w: Self)
        ensures
            w.wf(),
            w@.next_id == 0,
            !w@.counter_wrapped,
            w@.by_token == Map::<Seq<char>, Seq<AcceptedStart>>::empty(),
            w@.by_ip == Map::<Seq<char>, Seq<AcceptedStart>>::empty(),
    {
        let w = AcceptedStartWindows {
            next_id: 0,
            wrapped: Ghost(false),
            by_token: Vec::new(),
            by_ip: Vec::new(),
        };
        proof {
            assert(windows_view(w.by_token@) =~= Map::empty());
            assert(windows_view(w.by_ip@) =~= Map::empty());
        }
        w
    }

    /// Whether no start is recorded under any token or address.
    pub fn is_empty(&self) -> (r: bool)
        requires
            self.wf(),
        ensures
            r == (self@.by_token.dom() == Set::<Seq<char>>::empty() && self@.by_ip.dom() == Set::<
                Seq<char>,
            >::empty()),
    {
        proof {
            if self.by_token@.len() > 0 {
                lemma_view_at(self.by_token@, 0);
                assert(self@.by_token.dom().contains(self.by_token@[0].key@));
                assert(!Set::<Seq<char>>::empty().contains(self.by_token@[0].key@));
            } else {
                assert(self@.by_token.dom() =~= Set::empty());
            }
            if self.by_ip@.len() > 0 {
                lemma_view_at(self.by_ip@, 0);
                assert(self@.by_ip.dom().contains(self.by_ip@[0].key@));
                assert(!Set::<Seq<char>>::empty().contains(self.by_ip@[0].key@));
            } else {
                assert(self@.by_ip.dom() =~= Set::empty());
            }
        }
        self.by_token.len() == 0 && self.by_ip.len() == 0
    }

    /// Drops every start accepted at or before `window_secs` before `now_ms`, and every
    /// window left empty.
    pub fn prune(&mut self, now_ms: i64, window_secs: u64)
        requires
            old(self).wf(),
            window_secs <= MAX_WINDOW_SECS,
        ensures
            final(self).wf(),
            final(self)@ == pruned_view(old(self)@, now_ms, window_secs),
    {
        let cutoff: i128 = now_ms as i128 - (window_secs as i128) * 1000;
        let mut by_token: Vec<StartWindow> = Vec::new();
        let mut by_ip: Vec<StartWindow> = Vec::new();
        std::mem::swap(&mut by_token, &mut self.by_token);
        std::mem::swap(&mut by_ip, &mut self.by_ip);
        let ghost old_token = windows_view(by_token@);
        let ghost old_ip = windows_view(by_ip@);
        self.by_token = prune_windows(by_token, cutoff);
        self.by_ip = prune_windows(by_ip, cutoff);
        proof {
            if !self.wrapped@ {
                lemma_prune_keeps_ids(old_token, cutoff as int, self.next_id);
                lemma_prune_keeps_ids(old_ip, cutoff as int, self.next_id);
            }
        }
    }

    /// The wait a start for `token_hash` from `client_ip` would have to observe; `None`
    /// when neither window is full.
    pub fn quota_retry_after(
        &self,
        token_hash: &str,
        client_ip: &str,
        now_ms: i64,
        policy: DemoPolicy,
    ) -> (r: Option<u64>)
        requires
            self.wf(),
            policy.accepted_start_window_secs <= MAX_WINDOW_SECS,
        ensures
            r == quota_spec(self@.by_token, self@.by_ip, token_hash@, client_ip@, now_ms, policy),
    {
        let token = token_hash.to_owned();
        let ip = client_ip.to_owned();
        let token_retry = match find_window(&self.by_token, &token) {
            Some(i) => {
                proof {
                    lemma_view_at(self.by_token@, i as int);
                }
                retry_after_for(
                    Some(&self.by_token[i].starts),
                    policy.accepted_starts_per_token,
                    now_ms,
                    policy.accepted_start_window_secs,
                )
            },
            None => retry_after_for(
                None,
                policy.accepted_starts_per_token,
                now_ms,
                policy.accepted_start_window_secs,
            ),
        };
        let ip_retry = match find_window(&self.by_ip, &ip) {
            Some(i) => {
                proof {
                    lemma_view_at(self.by_ip@, i as int);
                }
                retry_after_for(
                    Some(&self.by_ip[i].starts),
                    policy.accepted_starts_per_client_ip,
                    now_ms,
                    policy.accepted_start_window_secs,
                )
            },
            None => retry_after_for(
                None,
                policy.accepted_starts_per_client_ip,
                now_ms,
                policy.accepted_start_window_secs,
            ),
        };
        match (token_retry, ip_retry) {
            (Some(left), Some(right)) => Some(if left >= right {
                left
            } else {
                right
            }),
            (Some(retry), None) => Some(retry),
            (None, Some(retry)) => Some(retry),
            (None, None) => None,
        }
    }

    /// Prunes expired starts, then either reports the quota wait or records one new
    /// accepted start in both the token's and the address's window.
    pub fn reserve_accepted_start(
        &mut self,
        token_hash: &str,
        client_ip: &str,
        now_ms: i64,
        policy: DemoPolicy,
    ) -> (r: Result<DemoAcceptedStart, DemoQuotaExceeded>)
        requires
            old(self).wf(),
            policy.accepted_start_window_secs <= MAX_WINDOW_SECS,
        ensures
            final(self).wf(),
            ({
                let p = pruned_view(old(self)@, now_ms, policy.accepted_start_window_secs);
                let q = quota_spec(p.by_token, p.by_ip, token_hash@, client_ip@, now_ms, policy);
                match r {
                    Err(e) => q == Some(e.retry_after_secs) && final(self)@ == p,
                    Ok(a) => {
                        &&& q is None
                        &&& a@.id == next_start_id(old(self)@.next_id)
                        &&& a@.token_hash == token_hash@
                        &&& a@.client_ip == client_ip@
                        &&& final(self)@ == recorded_view(p, token_hash@, client_ip@, now_ms)
                    },
                }
            }),
    {
        self.prune(now_ms, policy.accepted_start_window_secs);
        if let Some(retry_after_secs) = self.quota_retry_after(
            token_hash,
            client_ip,
            now_ms,
            policy,
        ) {
            return Err(DemoQuotaExceeded { retry_after_secs });
        }
        let ghost before = self@;
        let id: u64 = if self.next_id == u64::MAX {
            0
        } else {
            self.next_id + 1
        };
        let at_max = self.next_id == u64::MAX;
        proof {
            self.wrapped@ = self.wrapped@ || at_max;
        }
        self.next_id = id;
        let accepted = AcceptedStart { id, accepted_at_ms: now_ms };
        let token = token_hash.to_owned();
        let ip = client_ip.to_owned();
        push_into(&mut self.by_token, &token, accepted);
        push_into(&mut self.by_ip, &ip, accepted);
        proof {
            if !self.wrapped@ {
                lemma_ids_grow(before.by_token, before.next_id, id);
                lemma_ids_grow(before.by_ip, before.next_id, id);
                lemma_push_keeps_ids(before.by_token, token@, accepted, id);
                lemma_push_keeps_ids(before.by_ip, ip@, accepted, id);
            }
        }
        Ok(DemoAcceptedStart { id, token_hash: token, client_ip: ip })
    }

    /// Withdraws a start that was accepted but never scheduled, from both its windows.
    pub fn release_accepted_start(&mut self, accepted: DemoAcceptedStart)
        requires
            old(self).wf(),
        ensures
            final(self).wf(),
            final(self)@ == released_view(
                old(self)@,
                accepted@.token_hash,
                accepted@.client_ip,
                accepted@.id,
            ),
    {
        let ghost before = self@;
        remove_from(&mut self.by_token, &accepted.token_hash, accepted.id);
        remove_from(&mut self.by_ip, &accepted.client_ip, accepted.id);
        proof {
            if !self.wrapped@ {
                lemma_remove_keeps_ids(before.by_token, accepted@.token_hash, accepted.id, self.next_id);
                lemma_remove_keeps_ids(before.by_ip, accepted@.client_ip, accepted.id, self.next_id);
            }
        }
    }
}


// ---------------------------------------------------------------------------------------
// Laws
// ---------------------------------------------------------------------------------------

/// How many starts are recorded under `k`.
pub open spec fn count(m: Map<Seq<char>, Seq<AcceptedStart>>, k: Seq<char>) -> nat {
    if m.dom().contains(k) {
        m[k].len()
    } else {
        0
    }
}

proof fn lemma_pruned_suffix(s: Seq<AcceptedStart>, cutoff: int)
    ensures
        exists|n: int| 0 <= n <= s.len() && pruned(s, cutoff) == s.skip(n),
        pruned(s, cutoff).len() > 0 ==> pruned(s, cutoff)[0].accepted_at_ms > cutoff,
    decreases s.len(),
{
    if s.len() > 0 && s[0].accepted_at_ms <= cutoff {
        lemma_pruned_suffix(s.drop_first(), cutoff);
        let n = choose|n: int|
            0 <= n <= s.drop_first().len() && pruned(s.drop_first(), cutoff) == s.drop_first().skip(
                n,
            );
        assert(s.drop_first().skip(n) =~= s.skip(n + 1));
    } else {
        assert(s.skip(0) =~= s);
    }
}

/// Law: after pruning, the oldest start left in every window was accepted strictly after
/// the window's cutoff, and no window is left empty.
pub proof fn law_pruned_windows_start_after_cutoff(
    m: Map<Seq<char>, Seq<AcceptedStart>>,
    cutoff: int,
)
    ensures
        forall|k: Seq<char>| #[trigger]
            prune_map(m, cutoff).dom().contains(k) ==> prune_map(m, cutoff)[k].len() > 0
                && prune_map(m, cutoff)[k][0].accepted_at_ms > cutoff,
{
    assert forall|k: Seq<char>| #[trigger] prune_map(m, cutoff).dom().contains(k) implies prune_map(
        m,
        cutoff,
    )[k].len() > 0 && prune_map(m, cutoff)[k][0].accepted_at_ms > cutoff by {
        lemma_pruned_suffix(m[k], cutoff);
    }
}

proof fn lemma_prune_keeps_ids(m: Map<Seq<char>, Seq<AcceptedStart>>, cutoff: int, n: u64)
    requires
        ids_issued(m, n),
    ensures
        ids_issued(prune_map(m, cutoff), n),
{
    let p = prune_map(m, cutoff);
    assert forall|k: Seq<char>, j: int| p.dom().contains(k) && 0 <= j < p[k].len() implies 1
        <= #[trigger] p[k][j].id <= n by {
        lemma_pruned_suffix(m[k], cutoff);
        let c = choose|c: int| 0 <= c <= m[k].len() && pruned(m[k], cutoff) == m[k].skip(c);
        assert(p[k][j] == m[k][j + c]);
    }
}

proof fn lemma_push_keeps_ids(
    m: Map<Seq<char>, Seq<AcceptedStart>>,
    k: Seq<char>,
    start: AcceptedStart,
    n: u64,
)
    requires
        ids_issued(m, n),
        1 <= start.id <= n,
    ensures
        ids_issued(push_start(m, k, start), n),
{
    let p = push_start(m, k, start);
    assert forall|k2: Seq<char>, j: int| p.dom().contains(k2) && 0 <= j < p[k2].len() implies 1
        <= #[trigger] p[k2][j].id <= n by {
        if k2 == k && m.dom().contains(k) && j < m[k].len() {
            assert(p[k2][j] == m[k][j]);
        }
    }
}

proof fn lemma_ids_grow(m: Map<Seq<char>, Seq<AcceptedStart>>, a: u64, b: u64)
    requires
        ids_issued(m, a),
        a <= b,
    ensures
        ids_issued(m, b),
{
}

proof fn lemma_filter_keeps_issued(s: Seq<AcceptedStart>, id: u64, n: u64)
    requires
        forall|j: int| 0 <= j < s.len() ==> 1 <= #[trigger] s[j].id <= n,
    ensures
        forall|j: int|
            0 <= j < s.filter(other_than(id)).len() ==> 1 <= #[trigger] s.filter(other_than(id))[j].id
                <= n,
    decreases s.len(),
{
    let pred = other_than(id);
    if s.len() > 0 {
        let init = s.drop_last();
        lemma_filter_keeps_issued(init, id, n);
        init.lemma_filter_push(s.last(), pred);
        assert(init.push(s.last()) =~= s);
    } else {
        reveal(Seq::filter);
    }
}

proof fn lemma_remove_keeps_ids(m: Map<Seq<char>, Seq<AcceptedStart>>, k: Seq<char>, id: u64, n: u64)
    requires
        ids_issued(m, n),
    ensures
        ids_issued(remove_start(m, k, id), n),
{
    let r = remove_start(m, k, id);
    if m.dom().contains(k) {
        let s = m[k];
        assert forall|j: int| 0 <= j < s.len() implies 1 <= #[trigger] s[j].id <= n by {
            assert(m[k][j].id == s[j].id);
        }
        lemma_filter_keeps_issued(s, id, n);
        assert forall|k2: Seq<char>, j: int| r.dom().contains(k2) && 0 <= j < r[k2].len() implies 1
            <= #[trigger] r[k2][j].id <= n by {
            if k2 == k {
                assert(r[k2] == s.filter(other_than(id)));
            } else {
                assert(r[k2] == m[k2]);
            }
        }
    }
}

/// Law: as long as the id counter has not wrapped, pruning and recording a start keep every
/// recorded id at or below the last id issued, so each newly issued id is fresh.
pub proof fn law_recorded_ids_stay_below_counter(
    v: AcceptedStartWindowsView,
    token: Seq<char>,
    ip: Seq<char>,
    now_ms: i64,
    window_secs: u64,
)
    requires
        ids_issued(v.by_token, v.next_id),
        ids_issued(v.by_ip, v.next_id),
        v.next_id < u64::MAX,
    ensures
        ({
            let p = pruned_view(v, now_ms, window_secs);
            let r = recorded_view(p, token, ip, now_ms);
            &&& ids_issued(p.by_token, p.next_id)
            &&& ids_issued(p.by_ip, p.next_id)
            &&& ids_issued(r.by_token, r.next_id)
            &&& ids_issued(r.by_ip, r.next_id)
            &&& r.next_id == v.next_id + 1
        }),
{
    let c = cutoff_ms(now_ms, window_secs);
    lemma_prune_keeps_ids(v.by_token, c, v.next_id);
    lemma_prune_keeps_ids(v.by_ip, c, v.next_id);
    let id = next_start_id(v.next_id);
    let start = AcceptedStart { id, accepted_at_ms: now_ms };
    lemma_ids_grow(prune_map(v.by_token, c), v.next_id, id);
    lemma_ids_grow(prune_map(v.by_ip, c), v.next_id, id);
    lemma_push_keeps_ids(prune_map(v.by_token, c), token, start, id);
    lemma_push_keeps_ids(prune_map(v.by_ip, c), ip, start, id);
}

proof fn lemma_remove_undoes_push(
    m: Map<Seq<char>, Seq<AcceptedStart>>,
    k: Seq<char>,
    start: AcceptedStart,
)
    requires
        forall|k2: Seq<char>| #[trigger] m.dom().contains(k2) ==> m[k2].len() > 0,
        forall|k2: Seq<char>, j: int|
            m.dom().contains(k2) && 0 <= j < m[k2].len() ==> #[trigger] m[k2][j].id != start.id,
    ensures
        remove_start(push_start(m, k, start), k, start.id) == m,
{
    let pred = other_than(start.id);
    if m.dom().contains(k) {
        let old_s = m[k];
        assert forall|j: int| 0 <= j < old_s.len() implies old_s[j].id != start.id by {
            assert(m[k][j].id != start.id);
        }
        old_s.lemma_filter_push(start, pred);
        lemma_filter_keeps_all(old_s, start.id);
        assert(push_start(m, k, start)[k] == old_s.push(start));
        assert(m.insert(k, old_s) =~= m);
    } else {
        let single = seq![start];
        Seq::<AcceptedStart>::empty().lemma_filter_push(start, pred);
        reveal(Seq::filter);
        assert(Seq::<AcceptedStart>::empty().push(start) =~= single);
        assert(single.filter(pred).len() == 0);
        assert(m.insert(k, single).remove(k) =~= m);
    }
}

/// Law: a reservation that is withdrawn again costs no quota. From any well-formed state whose
/// id counter has not wrapped, reserving a start (which first prunes the expired starts) and
/// then withdrawing it leaves both windows exactly as the pruning left them.
pub proof fn law_release_undoes_reserve(
    v: AcceptedStartWindowsView,
    token: Seq<char>,
    ip: Seq<char>,
    now_ms: i64,
    window_secs: u64,
)
    requires
        view_wf(v),
        !v.counter_wrapped,
    ensures
        ({
            let p = pruned_view(v, now_ms, window_secs);
            let r = recorded_view(p, token, ip, now_ms);
            let back = released_view(r, token, ip, r.next_id);
            back.by_token == p.by_token && back.by_ip == p.by_ip
        }),
{
    let c = cutoff_ms(now_ms, window_secs);
    let p = pruned_view(v, now_ms, window_secs);
    lemma_prune_keeps_ids(v.by_token, c, v.next_id);
    lemma_prune_keeps_ids(v.by_ip, c, v.next_id);
    let id = next_start_id(p.next_id);
    let start = AcceptedStart { id, accepted_at_ms: now_ms };
    assert forall|k2: Seq<char>, j: int|
        p.by_token.dom().contains(k2) && 0 <= j < p.by_token[k2].len() implies #[trigger] p.by_token[k2][j].id
        != start.id by {
        assert(1 <= p.by_token[k2][j].id <= p.next_id);
    }
    assert forall|k2: Seq<char>, j: int|
        p.by_ip.dom().contains(k2) && 0 <= j < p.by_ip[k2].len() implies #[trigger] p.by_ip[k2][j].id
        != start.id by {
        assert(1 <= p.by_ip[k2][j].id <= p.next_id);
    }
    lemma_remove_undoes_push(p.by_token, token, start);
    lemma_remove_undoes_push(p.by_ip, ip, start);
}

proof fn lemma_all_expired(s: Seq<AcceptedStart>, cutoff: int)
    requires
        forall|j: int| 0 <= j < s.len() ==> (#[trigger] s[j]).accepted_at_ms <= cutoff,
    ensures
        pruned(s, cutoff).len() == 0,
    decreases s.len(),
{
    if s.len() > 0 {
        assert forall|j: int| 0 <= j < s.drop_first().len() implies (#[trigger] s.drop_first()[j]).accepted_at_ms
            <= cutoff by {
            assert(s.drop_first()[j] == s[j + 1]);
        }
        lemma_all_expired(s.drop_first(), cutoff);
    }
}

/// Whether every start recorded under `k` was accepted at or before `cutoff`.
pub open spec fn all_expired(m: Map<Seq<char>, Seq<AcceptedStart>>, k: Seq<char>, cutoff: int) -> bool {
    m.dom().contains(k) ==> forall|j: int| 0 <= j < m[k].len() ==> (#[trigger] m[k][j]).accepted_at_ms
        <= cutoff
}

/// Law: expired starts stop counting. Once every start of a visitor and of an address was
/// accepted a whole window or more before `now_ms`, pruning at `now_ms` drops both their
/// windows, and a new start for them is admitted whatever the limits.
pub proof fn law_expired_starts_free_the_quota(
    v: AcceptedStartWindowsView,
    token: Seq<char>,
    ip: Seq<char>,
    now_ms: i64,
    policy: DemoPolicy,
)
    requires
        all_expired(v.by_token, token, cutoff_ms(now_ms, policy.accepted_start_window_secs)),
        all_expired(v.by_ip, ip, cutoff_ms(now_ms, policy.accepted_start_window_secs)),
    ensures
        ({
            let p = pruned_view(v, now_ms, policy.accepted_start_window_secs);
            &&& !p.by_token.dom().contains(token)
            &&& !p.by_ip.dom().contains(ip)
            &&& quota_spec(p.by_token, p.by_ip, token, ip, now_ms, policy) is None
        }),
{
    let c = cutoff_ms(now_ms, policy.accepted_start_window_secs);
    if v.by_token.dom().contains(token) {
        lemma_all_expired(v.by_token[token], c);
    }
    if v.by_ip.dom().contains(ip) {
        lemma_all_expired(v.by_ip[ip], c);
    }
}

/// Law: with positive limits, a start is admitted exactly when both the visitor's and the
/// address's (already pruned) windows hold fewer starts than their limits; a refused start
/// is always told to wait at least one second.
pub proof fn law_quota_admits_below_limits(
    v: AcceptedStartWindowsView,
    token: Seq<char>,
    ip: Seq<char>,
    now_ms: i64,
    policy: DemoPolicy,
)
    requires
        view_wf(v),
        policy.accepted_starts_per_token > 0,
        policy.accepted_starts_per_client_ip > 0,
        policy.accepted_start_window_secs <= MAX_WINDOW_SECS,
    ensures
        quota_spec(v.by_token, v.by_ip, token, ip, now_ms, policy) is None <==> (count(
            v.by_token,
            token,
        ) < policy.accepted_starts_per_token && count(v.by_ip, ip)
            < policy.accepted_starts_per_client_ip),
        quota_spec(v.by_token, v.by_ip, token, ip, now_ms, policy) matches Some(r) ==> r >= 1,
{
    if v.by_token.dom().contains(token) {
        assert(v.by_token[token].len() > 0);
    }
    if v.by_ip.dom().contains(ip) {
        assert(v.by_ip[ip].len() > 0);
    }
    lemma_retry_positive(lookup(v.by_token, token), policy.accepted_starts_per_token, now_ms, policy.accepted_start_window_secs);
    lemma_retry_positive(lookup(v.by_ip, ip), policy.accepted_starts_per_client_ip, now_ms, policy.accepted_start_window_secs);
}

proof fn lemma_whole_seconds(clamped: int)
    requires
        clamped >= 1,
    ensures
        ((clamped + 999) / 1000) * 1000 >= clamped,
        ((clamped + 999) / 1000 - 1) * 1000 < clamped,
        (clamped + 999) / 1000 >= 2 ==> clamped > 1000,
{
    let x = clamped + 999;
    let q = x / 1000;
    assert(x == 1000 * q + x % 1000 && 0 <= x % 1000 < 1000) by (nonlinear_arith)
        requires
            x >= 1000,
            q == x / 1000,
    ;
}

/// Law: the wait told to a refused start is the wait for the oldest counted start to leave
/// its window. When a window holds at least `limit` starts, the wait is a positive number of
/// whole seconds after which pruning drops at least one start from that window, freeing a
/// slot; and it is the least such number: one second earlier, nothing has left it yet.
pub proof fn law_retry_after_waits_for_the_oldest_start(
    s: Seq<AcceptedStart>,
    limit: u32,
    now_ms: i64,
    window_secs: u64,
)
    requires
        window_secs <= MAX_WINDOW_SECS,
        s.len() > 0,
        s.len() >= limit,
    ensures
        retry_after_spec(Some(s), limit, now_ms, window_secs) matches Some(r) && {
            &&& r >= 1
            &&& pruned(s, now_ms + r * 1000 - window_secs * 1000).len() < s.len()
            &&& r >= 2 ==> pruned(s, now_ms + (r - 1) * 1000 - window_secs * 1000) == s
        },
{
    let remaining = s[0].accepted_at_ms + window_secs * 1000 - now_ms;
    let clamped = if remaining < 1 {
        1
    } else {
        remaining
    };
    lemma_retry_positive(Some(s), limit, now_ms, window_secs);
    lemma_whole_seconds(clamped);
    assert(1 <= clamped <= 30_000_000_000_000_000_000int);
    let q = (clamped + 999) / 1000;
    assert(retry_after_spec(Some(s), limit, now_ms, window_secs) == Some(q as u64));
    let r = q as u64;
    assert(r as int == q);
    let c = now_ms + r * 1000 - window_secs * 1000;
    assert(s[0].accepted_at_ms <= c);
    lemma_pruned_suffix(s.drop_first(), c);
    assert(pruned(s, c) == pruned(s.drop_first(), c));
    if r >= 2 {
        assert(clamped == remaining);
        assert(s[0].accepted_at_ms > now_ms + (r - 1) * 1000 - window_secs * 1000);
    }
}

proof fn lemma_retry_positive(starts: Option<Seq<AcceptedStart>>, limit: u32, now_ms: i64, window_secs: u64)
    requires
        window_secs <= MAX_WINDOW_SECS,
    ensures
        retry_after_spec(starts, limit, now_ms, window_secs) matches Some(r) ==> r >= 1,
{
    if let Some(s) = starts {
        if !(s.len() < limit || s.len() == 0) {
            let remaining = s[0].accepted_at_ms + window_secs * 1000 - now_ms;
            let clamped = if remaining < 1 { 1 } else { remaining };
            assert(1 <= clamped <= 30_000_000_000_000_000_000int);
            assert(1 <= (clamped + 999) / 1000 <= 30_000_000_000_000_000int);
        }
    }
}

} // verus!
