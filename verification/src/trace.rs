//! Laws of the state machine over whole event traces: the run of a session
//! through a sequence of events, the first-configure gate, the silence after
//! a close signal, and the progression of the animation shift.

use vstd::prelude::*;

verus! {

use vstd::arithmetic::div_mod::{
    lemma_add_mod_noop, lemma_add_mod_noop_right, lemma_mod_division_less_than_divisor,
    lemma_small_mod,
};
use crate::session::{step, Action, Event, Session};

/// The state a session reaches after processing a whole trace of events in
/// order.
pub open spec fn run_state(s: Session, tr: Seq<Event>) -> Session
    decreases tr.len(),
{
    if tr.len() == 0 {
        s
    } else {
        run_state(step(s, tr[0]).0, tr.drop_first())
    }
}

/// The actions a session emits while processing a trace, one per event, in
/// order.
pub open spec fn run_actions(s: Session, tr: Seq<Event>) -> Seq<Action>
    decreases tr.len(),
{
    if tr.len() == 0 {
        Seq::empty()
    } else {
        seq![step(s, tr[0]).1] + run_actions(step(s, tr[0]).0, tr.drop_first())
    }
}

/// A trace of `n` consecutive frame-ready notifications.
pub open spec fn frame_trace(n: nat) -> Seq<Event> {
    Seq::new(n, |i: int| Event::FrameReady)
}

/// Every event emits exactly one action.
pub proof fn lemma_run_actions_len(s: Session, tr: Seq<Event>)
    ensures
        run_actions(s, tr).len() == tr.len(),
    decreases tr.len(),
{
    if tr.len() > 0 {
        lemma_run_actions_len(step(s, tr[0]).0, tr.drop_first());
    }
}

/// Running a concatenated trace is running its two halves in turn.
pub proof fn lemma_run_append(s: Session, tr1: Seq<Event>, tr2: Seq<Event>)
    ensures
        run_state(s, tr1 + tr2) == run_state(run_state(s, tr1), tr2),
        run_actions(s, tr1 + tr2) == run_actions(s, tr1) + run_actions(run_state(s, tr1), tr2),
    decreases tr1.len(),
{
    if tr1.len() == 0 {
        assert(tr1 + tr2 =~= tr2);
        assert(run_actions(s, tr1) + run_actions(run_state(s, tr1), tr2) =~= run_actions(s, tr2));
    } else {
        let s1 = step(s, tr1[0]).0;
        assert((tr1 + tr2).drop_first() =~= tr1.drop_first() + tr2);
        lemma_run_append(s1, tr1.drop_first(), tr2);
        assert(run_actions(s, tr1 + tr2) =~= run_actions(s, tr1) + run_actions(
            run_state(s, tr1),
            tr2,
        ));
    }
}

/// The first-configure gate: a session that is not yet presenting emits no
/// draw while no configure event arrives. In particular, in any trace
/// without a configure event, the number of draw attempts is zero.
pub proof fn lemma_no_draw_before_configure(s: Session, tr: Seq<Event>)
    requires
        !(s.phase is Presenting),
        forall|i: int| 0 <= i < tr.len() ==> !(#[trigger] tr[i] is Configure),
    ensures
        forall|j: int|
            0 <= j < run_actions(s, tr).len() ==> !(#[trigger] run_actions(s, tr)[j] is Draw),
    decreases tr.len(),
{
    if tr.len() > 0 {
        let s1 = step(s, tr[0]).0;
        let a0 = step(s, tr[0]).1;
        assert(!(tr[0] is Configure));
        assert(!(a0 is Draw));
        assert(!(s1.phase is Presenting));
        assert(forall|i: int|
            0 <= i < tr.drop_first().len() ==> !(#[trigger] tr.drop_first()[i] is Configure));
        lemma_no_draw_before_configure(s1, tr.drop_first());
        assert forall|j: int|
            0 <= j < run_actions(s, tr).len() implies !(#[trigger] run_actions(s, tr)[j]
            is Draw) by {
            if j > 0 {
                assert(run_actions(s, tr)[j] == run_actions(s1, tr.drop_first())[j - 1]);
            }
        }
    }
}

/// A closed session stays closed and never acts again, whatever else the
/// server sends.
pub proof fn lemma_closed_absorbs(s: Session, tr: Seq<Event>)
    requires
        s.phase is Closed,
    ensures
        run_state(s, tr).phase is Closed,
        forall|j: int|
            0 <= j < run_actions(s, tr).len() ==> #[trigger] run_actions(s, tr)[j]
                == Action::Nothing,
    decreases tr.len(),
{
    if tr.len() > 0 {
        let s1 = step(s, tr[0]).0;
        lemma_closed_absorbs(s1, tr.drop_first());
        assert forall|j: int|
            0 <= j < run_actions(s, tr).len() implies #[trigger] run_actions(s, tr)[j]
            == Action::Nothing by {
            if j > 0 {
                assert(run_actions(s, tr)[j] == run_actions(s1, tr.drop_first())[j - 1]);
            }
        }
    }
}

/// After a close signal is processed, the emitted protocol actions stop at
/// its position in the trace: every later event draws nothing, subscribes
/// to nothing, touches nothing.
pub proof fn lemma_silent_after_close(s: Session, tr: Seq<Event>, i: int)
    requires
        0 <= i < tr.len(),
        tr[i] is CloseRequested,
    ensures
        run_actions(s, tr).len() == tr.len(),
        forall|j: int| i < j < tr.len() ==> #[trigger] run_actions(s, tr)[j] == Action::Nothing,
{
    lemma_run_actions_len(s, tr);
    let head = tr.take(i + 1);
    let tail = tr.skip(i + 1);
    assert(tr =~= head + tail);
    lemma_run_append(s, head, tail);
    let before = tr.take(i);
    assert(head =~= before + seq![tr[i]]);
    lemma_run_append(s, before, seq![tr[i]]);
    let sc = run_state(s, head);
    let sb = run_state(s, before);
    assert(seq![tr[i]].drop_first() =~= Seq::<Event>::empty());
    assert(run_state(sb, seq![tr[i]]) == run_state(step(sb, tr[i]).0, seq![tr[i]].drop_first()));
    assert(sc == step(sb, tr[i]).0);
    assert(sc.phase is Closed);
    lemma_closed_absorbs(sc, tail);
    lemma_run_actions_len(s, head);
    lemma_run_actions_len(sc, tail);
    assert forall|j: int| i < j < tr.len() implies #[trigger] run_actions(s, tr)[j]
        == Action::Nothing by {
        assert(run_actions(s, tr) == run_actions(s, head) + run_actions(sc, tail));
        assert(run_actions(s, tr)[j] == run_actions(sc, tail)[j - (i + 1)]);
    }
}

/// Shift progression under frame-ready notifications: a presenting session
/// that starts with shift `s.shift` reaches shift `(s.shift + n) mod width`
/// after `n` frames, and the `k`-th frame is drawn with shift
/// `(s.shift + k) mod width`.
pub proof fn lemma_shift_run(s: Session, n: nat)
    requires
        s.wf(),
        s.phase is Presenting,
    ensures
        run_state(s, frame_trace(n)).phase is Presenting,
        run_state(s, frame_trace(n)).width == s.width,
        run_state(s, frame_trace(n)).shift == (s.shift + n) % (s.width as int),
        run_actions(s, frame_trace(n)).len() == n,
        forall|k: int|
            0 <= k < n ==> #[trigger] run_actions(s, frame_trace(n))[k] == (Action::Draw {
                shift: ((s.shift + k) % (s.width as int)) as u32,
            }),
    decreases n,
{
    let w = s.width as int;
    lemma_run_actions_len(s, frame_trace(n));
    if n == 0 {
        lemma_small_mod(s.shift as nat, s.width as nat);
    } else {
        let s1 = step(s, Event::FrameReady).0;
        assert(s1.shift == (s.shift + 1) % w);
        assert(s1.wf()) by {
            lemma_mod_division_less_than_divisor(s.shift + 1, w);
        }
        assert(frame_trace(n).drop_first() =~= frame_trace((n - 1) as nat));
        lemma_shift_run(s1, (n - 1) as nat);
        assert((s1.shift + (n - 1)) % w == (s.shift + n) % w) by {
            lemma_add_mod_noop_right((s.shift + 1) % w, n - 1, w);
            lemma_add_mod_noop(s.shift + 1, n - 1, w);
        }
        assert forall|k: int|
            0 <= k < n implies #[trigger] run_actions(s, frame_trace(n))[k] == (Action::Draw {
            shift: ((s.shift + k) % w) as u32,
        }) by {
            if k == 0 {
                lemma_small_mod(s.shift as nat, s.width as nat);
                assert(run_actions(s, frame_trace(n))[0] == step(s, Event::FrameReady).1);
            } else {
                assert(run_actions(s, frame_trace(n))[k] == run_actions(
                    s1,
                    frame_trace((n - 1) as nat),
                )[k - 1]);
                assert((s1.shift + (k - 1)) % w == (s.shift + k) % w) by {
                    lemma_add_mod_noop_right((s.shift + 1) % w, k - 1, w);
                    lemma_add_mod_noop(s.shift + 1, k - 1, w);
                }
            }
        }
    }
}

/// The animation law: starting from shift zero, for every frame index `n`
/// the shift value equals `n mod width` — frame `n` is drawn with shift
/// `n mod width`, and after `n` frames the stored shift is again
/// `n mod width`.
pub proof fn lemma_shift_is_frame_index_mod_width(s: Session, n: nat)
    requires
        s.wf(),
        s.phase is Presenting,
        s.shift == 0,
    ensures
        run_state(s, frame_trace(n)).shift == (n as int) % (s.width as int),
        forall|k: int|
            0 <= k < n ==> #[trigger] run_actions(s, frame_trace(n))[k] == (Action::Draw {
                shift: (k % (s.width as int)) as u32,
            }),
{
    lemma_shift_run(s, n);
}

} // verus!
