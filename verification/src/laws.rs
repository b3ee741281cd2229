//! Laws of the dispatcher, stated and proved over [`spec_dispatch`]:
//! the quit shortcut closes through the same path as an OS close request,
//! one tick's redraw cascade visits every window exactly once in registry
//! order, and the frame-rate gate admits at most one repaint for two
//! requests closer together than the target frame interval while the
//! cascade still proceeds on both.

use crate::application::{spec_dispatch, ActionModel, AppState, WindowEvent};
use crate::registry::{spec_distinct_ids, spec_has_window, spec_ids_of, spec_window_index};
use crate::window::FRAME_INTERVAL_NANOS;
use vstd::prelude::*;

verus! {

/// Whether the batch of actions asks the window with the given id to
/// redraw.
pub open spec fn spec_requests_redraw(actions: Seq<ActionModel>, id: u64) -> bool {
    exists|k: int|
        0 <= k < actions.len() && actions[k] == (ActionModel::RequestRedraw { id })
}

/// Whether the batch of actions performs a repaint.
pub open spec fn spec_performs_repaint(actions: Seq<ActionModel>) -> bool {
    exists|k: int| 0 <= k < actions.len() && actions[k] is Repaint
}

/// The id the batch of actions asks to redraw, if any: the target of the
/// first redraw request.
pub open spec fn spec_next_redraw_target(actions: Seq<ActionModel>) -> Option<u64>
    decreases actions.len(),
{
    if actions.len() == 0 {
        None
    } else {
        match actions[0] {
            ActionModel::RequestRedraw { id } => Some(id),
            _ => spec_next_redraw_target(actions.drop_first()),
        }
    }
}

/// The ids of the windows whose redraw events are handled in one cascade
/// pass, in order: the window with id `target` is asked to redraw; the
/// windowing layer delivers that redraw event (at the next instant of
/// `times`); handling it may ask one next window, whose redraw event is
/// delivered in turn; the pass ends when a step asks no further window
/// or the target has disappeared.
pub open spec fn spec_cascade(state: AppState, target: u64, times: Seq<u64>) -> Seq<u64>
    decreases times.len(),
{
    if times.len() == 0 || !spec_has_window(state.windows, target) {
        Seq::<u64>::empty()
    } else {
        let stepped = spec_dispatch(state, target, WindowEvent::RedrawRequested, times[0]);
        seq![target] + (match spec_next_redraw_target(stepped.1) {
            Some(next) => spec_cascade(stepped.0, next, times.drop_first()),
            None => Seq::<u64>::empty(),
        })
    }
}

/// Pressing "q" (released, not auto-repeated) is dispatched identically
/// to an OS close request for the same window: the same state change and
/// the same actions, whatever the state.
pub proof fn lemma_quit_key_is_close(state: AppState, target: u64, now: u64)
    ensures
        spec_dispatch(
            state,
            target,
            WindowEvent::KeyInput { key: Some('q'), released: true, repeat: false },
            now,
        ) == spec_dispatch(state, target, WindowEvent::CloseRequested, now),
{
}

/// Closing a window removes exactly the target: the target's id is no
/// longer registered, every other window survives — those before it in
/// place, those after it shifted down by one — and when the target was
/// the last window, loop termination is signalled.
pub proof fn lemma_close_removes_exactly_target(state: AppState, target: u64, now: u64)
    requires
        spec_distinct_ids(state.windows),
        spec_has_window(state.windows, target),
    ensures
        ({
            let i = spec_window_index(state.windows, target);
            let (next, actions) = spec_dispatch(state, target, WindowEvent::CloseRequested, now);
            &&& next.windows.len() == state.windows.len() - 1
            &&& !spec_has_window(next.windows, target)
            &&& forall|k: int| 0 <= k < i ==> next.windows[k] == state.windows[k]
            &&& forall|k: int|
                i < k < state.windows.len() ==> next.windows[k - 1] == state.windows[k]
            &&& next.exiting == (state.exiting || state.windows.len() == 1)
            &&& (state.windows.len() == 1 ==> actions == seq![
                ActionModel::DestroyWindow { id: target },
                ActionModel::Exit,
            ])
            &&& (state.windows.len() > 1 ==> actions == seq![
                ActionModel::DestroyWindow { id: target },
            ])
        }),
{
    let i = spec_window_index(state.windows, target);
    assert(0 <= i < state.windows.len() && state.windows[i].id == target);
    let remaining = state.windows.remove(i);
    assert forall|k: int| 0 <= k < remaining.len() implies remaining[k].id != target by {
        if k < i {
            assert(remaining[k] == state.windows[k]);
        } else {
            assert(remaining[k] == state.windows[k + 1]);
        }
    }
}

/// One dispatch of a redraw request leaves the registry intact: the same
/// number of windows, each keeping its id and position, and every window
/// but the target wholly unchanged.
pub proof fn lemma_redraw_keeps_registry(state: AppState, i: int, now: u64)
    requires
        spec_distinct_ids(state.windows),
        0 <= i < state.windows.len(),
    ensures
        ({
            let (next, actions) = spec_dispatch(
                state,
                state.windows[i].id,
                WindowEvent::RedrawRequested,
                now,
            );
            &&& next.windows.len() == state.windows.len()
            &&& forall|k: int|
                0 <= k < next.windows.len() ==> next.windows[k].id == state.windows[k].id
            &&& forall|k: int|
                0 <= k < next.windows.len() && k != i ==> next.windows[k] == state.windows[k]
            &&& spec_distinct_ids(next.windows)
            &&& next.modifiers == state.modifiers
            &&& next.capabilities == state.capabilities
            &&& next.exiting == state.exiting
        }),
{
    let target = state.windows[i].id;
    assert(spec_has_window(state.windows, target));
    let j = spec_window_index(state.windows, target);
    assert(0 <= j < state.windows.len() && state.windows[j].id == target);
    assert(j == i);
}

/// Handling a redraw request asks exactly the next window in registry
/// order to redraw — and asks it whether or not the target repainted;
/// the last window asks no one. The target repaints exactly when more
/// than the target frame interval has elapsed since its previous frame.
pub proof fn lemma_redraw_asks_next(state: AppState, i: int, now: u64)
    requires
        spec_distinct_ids(state.windows),
        0 <= i < state.windows.len(),
    ensures
        ({
            let actions = spec_dispatch(
                state,
                state.windows[i].id,
                WindowEvent::RedrawRequested,
                now,
            ).1;
            &&& spec_next_redraw_target(actions) == (if i + 1 < state.windows.len() {
                Some(state.windows[i + 1].id)
            } else {
                None::<u64>
            })
            &&& (i + 1 < state.windows.len() ==> spec_requests_redraw(
                actions,
                state.windows[i + 1].id,
            ))
            &&& spec_performs_repaint(actions) == (now - state.windows[i].previous_frame_start
                > FRAME_INTERVAL_NANOS)
        }),
{
    let target = state.windows[i].id;
    assert(spec_has_window(state.windows, target));
    let j = spec_window_index(state.windows, target);
    assert(0 <= j < state.windows.len() && state.windows[j].id == target);
    assert(j == i);
    let actions = spec_dispatch(state, target, WindowEvent::RedrawRequested, now).1;
    let due = now - state.windows[i].previous_frame_start > FRAME_INTERVAL_NANOS;
    let next_id = if i + 1 < state.windows.len() {
        Some(state.windows[i + 1].id)
    } else {
        None::<u64>
    };
    if i + 1 < state.windows.len() {
        let chain = seq![ActionModel::RequestRedraw { id: state.windows[i + 1].id }];
        if due {
            assert(actions.len() == 2);
            assert(actions[0] is Repaint);
            assert(actions[1] == chain[0]);
            assert(actions.drop_first() =~= chain);
            assert(spec_next_redraw_target(actions) == spec_next_redraw_target(chain));
            assert(spec_requests_redraw(actions, state.windows[i + 1].id));
            assert(spec_performs_repaint(actions));
        } else {
            assert(actions =~= chain);
            assert(actions[0] == chain[0]);
            assert(spec_next_redraw_target(actions) == next_id);
            assert(spec_requests_redraw(actions, state.windows[i + 1].id));
            assert forall|k: int| 0 <= k < actions.len() implies !(actions[k] is Repaint) by {}
            assert(!spec_performs_repaint(actions));
        }
    } else {
        if due {
            assert(actions.len() == 1);
            assert(actions[0] is Repaint);
            assert(actions.drop_first() =~= Seq::<ActionModel>::empty());
            assert(spec_next_redraw_target(Seq::<ActionModel>::empty()) == None::<u64>);
            assert(spec_next_redraw_target(actions) == None::<u64>);
            assert(spec_performs_repaint(actions));
        } else {
            assert(actions =~= Seq::<ActionModel>::empty());
            assert(spec_next_redraw_target(actions) == None::<u64>);
            assert(!spec_performs_repaint(actions));
        }
    }
}

proof fn lemma_cascade_from(state: AppState, i: int, times: Seq<u64>)
    requires
        spec_distinct_ids(state.windows),
        0 <= i < state.windows.len(),
        times.len() >= state.windows.len() - i,
    ensures
        spec_cascade(state, state.windows[i].id, times) == spec_ids_of(state.windows).subrange(
            i,
            state.windows.len() as int,
        ),
    decreases state.windows.len() - i,
{
    let n = state.windows.len() as int;
    let target = state.windows[i].id;
    assert(spec_has_window(state.windows, target));
    let stepped = spec_dispatch(state, target, WindowEvent::RedrawRequested, times[0]);
    lemma_redraw_keeps_registry(state, i, times[0]);
    lemma_redraw_asks_next(state, i, times[0]);
    if i + 1 < n {
        assert(stepped.0.windows[i + 1].id == state.windows[i + 1].id);
        lemma_cascade_from(stepped.0, i + 1, times.drop_first());
        assert(spec_ids_of(stepped.0.windows).subrange(i + 1, n) =~= spec_ids_of(
            state.windows,
        ).subrange(i + 1, n));
        assert(seq![target] + spec_ids_of(state.windows).subrange(i + 1, n) =~= spec_ids_of(
            state.windows,
        ).subrange(i, n));
    } else {
        assert(seq![target] =~= spec_ids_of(state.windows).subrange(i, n));
    }
}

/// The redraw cascade: starting from one tick's redraw request for the
/// window at position 0, with each requested redraw delivered in turn,
/// the pass visits every registered window exactly once, in registry
/// order — none is redrawn twice, none is skipped.
pub proof fn lemma_redraw_cascade(state: AppState, times: Seq<u64>)
    requires
        spec_distinct_ids(state.windows),
        state.windows.len() > 0,
        times.len() >= state.windows.len(),
    ensures
        spec_cascade(state, state.windows[0].id, times) == spec_ids_of(state.windows),
{
    lemma_cascade_from(state, 0, times);
    assert(spec_ids_of(state.windows).subrange(0, state.windows.len() as int) =~= spec_ids_of(
        state.windows,
    ));
}

/// The frame-rate gate: two redraw requests for the same window closer
/// together than the target frame interval repaint at most once, yet the
/// cascade proceeds to the next window on both requests.
pub proof fn lemma_frame_rate_gate(state: AppState, target: u64, t1: u64, t2: u64)
    requires
        spec_distinct_ids(state.windows),
        spec_has_window(state.windows, target),
        t1 <= t2,
        t2 - t1 < FRAME_INTERVAL_NANOS,
    ensures
        ({
            let first = spec_dispatch(state, target, WindowEvent::RedrawRequested, t1);
            let second = spec_dispatch(first.0, target, WindowEvent::RedrawRequested, t2);
            let i = spec_window_index(state.windows, target);
            &&& !(spec_performs_repaint(first.1) && spec_performs_repaint(second.1))
            &&& (i + 1 < state.windows.len() ==> spec_requests_redraw(
                first.1,
                state.windows[i + 1].id,
            ) && spec_requests_redraw(second.1, state.windows[i + 1].id))
        }),
{
    let i = spec_window_index(state.windows, target);
    assert(0 <= i < state.windows.len() && state.windows[i].id == target);
    lemma_redraw_keeps_registry(state, i, t1);
    lemma_redraw_asks_next(state, i, t1);
    let first = spec_dispatch(state, target, WindowEvent::RedrawRequested, t1);
    assert(first.0.windows[i].id == target);
    lemma_redraw_asks_next(first.0, i, t2);
    if spec_performs_repaint(first.1) {
        assert(first.0.windows[i].previous_frame_start == t1);
    }
}

} // verus!
