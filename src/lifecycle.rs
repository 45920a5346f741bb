//! Laws of the dispatch bridge over whole sequences of messages.

use vstd::prelude::*;

use crate::dispatch::{next, run, step_at, DispatchState, Message, Route};
use crate::message::{CREATE, DESTROY};

verus! {

/// Every transition keeps the bridge well formed.
pub proof fn lemma_next_wf(s: DispatchState, m: Message)
    requires
        s.wf(),
    ensures
        next(s, m).0.wf(),
{
    let s2 = next(s, m).0;
    assert forall|k: usize| #[trigger] s2.slots.contains_key(k) implies !s2.closed.contains(k)
        && s2.slots[k] != 0 by {
        assert(s.slots.contains_key(k) || k == m.h);
    }
}

/// The state after the first `k + 1` messages is one transition past the
/// state after the first `k`.
pub proof fn lemma_run_take(s: DispatchState, ms: Seq<Message>, k: int)
    requires
        0 <= k < ms.len(),
    ensures
        run(s, ms.take(k + 1)) == next(run(s, ms.take(k)), ms[k]).0,
{
    assert(ms.take(k + 1).drop_last() =~= ms.take(k));
}

/// Whether one of the first `k` messages of `ms` destroys window `h`.
pub open spec fn destroyed_in(ms: Seq<Message>, h: usize, k: int) -> bool {
    exists|j: int| 0 <= j < k && #[trigger] ms[j].h == h && ms[j].code == DESTROY
}

/// Whether one of the first `k` messages of `ms` creates window `h`.
pub open spec fn created_in(ms: Seq<Message>, h: usize, k: int) -> bool {
    exists|j: int| 0 <= j < k && #[trigger] ms[j].h == h && ms[j].code == CREATE
}

/// Window `h` is active with its slot holding `p`.
pub open spec fn holds_state(s: DispatchState, h: usize, p: usize) -> bool {
    s.wf() && s.slots.contains_key(h) && s.slots[h] == p
}

/// A message that does not destroy `h` keeps the slot of `h` at `p`, and
/// hands `p` to any handler of `h`.
pub proof fn lemma_next_holds_state(s: DispatchState, h: usize, p: usize, m: Message)
    requires
        holds_state(s, h, p),
    ensures
        !(m.h == h && m.code == DESTROY) ==> holds_state(next(s, m).0, h, p),
        m.h == h && next(s, m).1.route is Handle ==> next(s, m).1.route == (Route::Handle {
            state: p,
        }),
{
    lemma_next_wf(s, m);
}

/// Identity of the attached state: once the creation message for window `h`
/// attached the non-null address `p`, then whatever messages follow, for
/// this or other windows, a slot read for `h` returns exactly `p` until `h`
/// is destroyed, and every handler call for `h` until then is given `p`.
pub proof fn lemma_state_identity(
    s: DispatchState,
    h: usize,
    wparam: usize,
    p: usize,
    ms: Seq<Message>,
)
    requires
        s.wf(),
        !s.slots.contains_key(h),
        p != 0,
    ensures
        ({
            let s1 = next(s, Message { h, code: CREATE, wparam, lparam: p }).0;
            &&& s1.state_of(h) == p
            &&& forall|k: int|
                0 <= k <= ms.len() && !destroyed_in(ms, h, k) ==> (#[trigger] run(
                    s1,
                    ms.take(k),
                )).state_of(h) == p
            &&& forall|k: int|
                0 <= k < ms.len() && ms[k].h == h && !destroyed_in(ms, h, k) && (#[trigger] step_at(
                    s1,
                    ms,
                    k,
                )).route is Handle ==> step_at(s1, ms, k).route == (Route::Handle { state: p })
        }),
{
    let s1 = next(s, Message { h, code: CREATE, wparam, lparam: p }).0;
    lemma_next_wf(s, Message { h, code: CREATE, wparam, lparam: p });
    assert(holds_state(s1, h, p));
    assert forall|k: int| 0 <= k <= ms.len() && !destroyed_in(ms, h, k) implies (#[trigger] run(
        s1,
        ms.take(k),
    )).state_of(h) == p by {
        lemma_slot_read_stable(s1, h, p, ms, k);
    }
    assert forall|k: int|
        0 <= k < ms.len() && ms[k].h == h && !destroyed_in(ms, h, k) && (#[trigger] step_at(
            s1,
            ms,
            k,
        )).route is Handle implies step_at(s1, ms, k).route == (Route::Handle { state: p }) by {
        lemma_slot_read_stable(s1, h, p, ms, k);
        lemma_next_holds_state(run(s1, ms.take(k)), h, p, ms[k]);
    }
}

/// Stability of a slot: once window `h` holds the address `p`, however it
/// was stored, then after the first `k` of any messages `ms`, for this or
/// other windows, `h` still holds `p` unless one of them destroyed `h`.
pub proof fn lemma_slot_read_stable(s: DispatchState, h: usize, p: usize, ms: Seq<Message>, k: int)
    requires
        holds_state(s, h, p),
        0 <= k <= ms.len(),
        !destroyed_in(ms, h, k),
    ensures
        holds_state(run(s, ms.take(k)), h, p),
    decreases k,
{
    if k == 0 {
        assert(ms.take(0) =~= Seq::<Message>::empty());
    } else {
        assert(!destroyed_in(ms, h, k - 1)) by {
            if destroyed_in(ms, h, k - 1) {
                let j = choose|j: int|
                    0 <= j < k - 1 && #[trigger] ms[j].h == h && ms[j].code == DESTROY;
                assert(0 <= j < k && ms[j].h == h && ms[j].code == DESTROY);
            }
        }
        assert(!(ms[k - 1].h == h && ms[k - 1].code == DESTROY));
        lemma_slot_read_stable(s, h, p, ms, k - 1);
        lemma_run_take(s, ms, k - 1);
        lemma_next_holds_state(run(s, ms.take(k - 1)), h, p, ms[k - 1]);
    }
}

/// No handler before creation: while window `h` has no state attached, no
/// message for it other than the creation message reaches a handler.
pub proof fn lemma_no_handler_before_creation(s: DispatchState, m: Message)
    requires
        s.wf(),
        s.phase(m.h) is Uninitialized,
        m.code != CREATE,
    ensures
        !(next(s, m).1.route is Handle),
        next(s, m).0.phase(m.h) is Uninitialized || next(s, m).0.phase(m.h) is TornDown,
{
}

/// Once requested, the end of the loop stays requested, and no message asks
/// for it again.
pub proof fn lemma_next_keeps_quit(s: DispatchState, m: Message)
    requires
        s.quit_posted,
    ensures
        next(s, m).0.quit_posted,
        !next(s, m).1.post_quit,
{
}

/// A torn-down window stays torn down, and nothing reaches a handler of it,
/// until a new window is created under its handle.
pub proof fn lemma_next_after_teardown(s: DispatchState, h: usize, m: Message)
    requires
        s.wf(),
        s.closed.contains(h),
        !(m.h == h && m.code == CREATE),
    ensures
        next(s, m).0.wf(),
        next(s, m).0.closed.contains(h),
        m.h == h ==> next(s, m).1.route is HostDefault,
{
    lemma_next_wf(s, m);
}

/// Teardown: the destroy message for window `h` leaves the end of the event
/// loop requested (now, or by an earlier destroy); after it, whatever
/// messages follow, none asks again for the end of the loop, the request
/// stands, and none reaches a handler of `h` until a new window is created
/// under the same handle.
pub proof fn lemma_destroy_ends(
    s: DispatchState,
    h: usize,
    wparam: usize,
    lparam: usize,
    ms: Seq<Message>,
)
    requires
        s.wf(),
    ensures
        ({
            let (s1, st) = next(s, Message { h, code: DESTROY, wparam, lparam });
            &&& s1.quit_posted
            &&& s1.closed.contains(h)
            &&& st.post_quit == !s.quit_posted
            &&& forall|k: int| 0 <= k < ms.len() ==> !(#[trigger] step_at(s1, ms, k)).post_quit
            &&& forall|k: int|
                0 <= k < ms.len() && ms[k].h == h && !created_in(ms, h, k + 1)
                    ==> (#[trigger] step_at(s1, ms, k)).route is HostDefault
            &&& forall|k: int| 0 <= k <= ms.len() ==> (#[trigger] run(s1, ms.take(k))).quit_posted
        }),
{
    let s1 = next(s, Message { h, code: DESTROY, wparam, lparam }).0;
    lemma_next_wf(s, Message { h, code: DESTROY, wparam, lparam });
    assert forall|k: int|
        0 <= k <= ms.len() implies (#[trigger] run(s1, ms.take(k))).quit_posted by {
        assert(ms.take(0) =~= Seq::<Message>::empty());
        lemma_quit_stays(s1, ms, 0, k);
    }
    assert forall|k: int| 0 <= k < ms.len() implies !(#[trigger] step_at(s1, ms, k)).post_quit by {
        assert(ms.take(0) =~= Seq::<Message>::empty());
        lemma_quit_stays(s1, ms, 0, k);
        lemma_next_keeps_quit(run(s1, ms.take(k)), ms[k]);
    }
    assert forall|k: int|
        0 <= k < ms.len() && ms[k].h == h && !created_in(ms, h, k + 1) implies (#[trigger] step_at(
        s1,
        ms,
        k,
    )).route is HostDefault by {
        assert(!created_in(ms, h, k)) by {
            if created_in(ms, h, k) {
                let j = choose|j: int|
                    0 <= j < k && #[trigger] ms[j].h == h && ms[j].code == CREATE;
                assert(0 <= j < k + 1 && ms[j].h == h && ms[j].code == CREATE);
            }
        }
        assert(!(ms[k].h == h && ms[k].code == CREATE));
        lemma_closed_along(s1, h, ms, k);
        lemma_next_after_teardown(run(s1, ms.take(k)), h, ms[k]);
    }
}

/// A torn-down window stays torn down through the first `k` messages of `ms`
/// when none of them creates a window under its handle.
proof fn lemma_closed_along(s: DispatchState, h: usize, ms: Seq<Message>, k: int)
    requires
        s.wf(),
        s.closed.contains(h),
        0 <= k <= ms.len(),
        !created_in(ms, h, k),
    ensures
        run(s, ms.take(k)).wf(),
        run(s, ms.take(k)).closed.contains(h),
    decreases k,
{
    if k == 0 {
        assert(ms.take(0) =~= Seq::<Message>::empty());
    } else {
        assert(!created_in(ms, h, k - 1)) by {
            if created_in(ms, h, k - 1) {
                let j = choose|j: int|
                    0 <= j < k - 1 && #[trigger] ms[j].h == h && ms[j].code == CREATE;
                assert(0 <= j < k && ms[j].h == h && ms[j].code == CREATE);
            }
        }
        assert(!(ms[k - 1].h == h && ms[k - 1].code == CREATE));
        lemma_closed_along(s, h, ms, k - 1);
        lemma_run_take(s, ms, k - 1);
        lemma_next_after_teardown(run(s, ms.take(k - 1)), h, ms[k - 1]);
    }
}

/// Once requested, the end of the loop stays requested through the first
/// `b` messages of `ms`, counted from any earlier point `a`.
proof fn lemma_quit_stays(s: DispatchState, ms: Seq<Message>, a: int, b: int)
    requires
        0 <= a <= b <= ms.len(),
        run(s, ms.take(a)).quit_posted,
    ensures
        run(s, ms.take(b)).quit_posted,
    decreases b - a,
{
    if a < b {
        lemma_quit_stays(s, ms, a, b - 1);
        lemma_run_take(s, ms, b - 1);
    }
}

/// The end of the loop is asked for at most once: whatever messages are
/// delivered, no two of them both ask for it.
pub proof fn lemma_quit_requested_once(s: DispatchState, ms: Seq<Message>, k1: int, k2: int)
    requires
        0 <= k1 < k2 < ms.len(),
    ensures
        !(step_at(s, ms, k1).post_quit && step_at(s, ms, k2).post_quit),
{
    if step_at(s, ms, k1).post_quit {
        lemma_run_take(s, ms, k1);
        lemma_quit_stays(s, ms, k1 + 1, k2);
    }
}

} // verus!
