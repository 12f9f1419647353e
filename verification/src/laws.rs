//! What holds of the store from frame to frame.

use vstd::prelude::*;
use crate::clock::Instant;
use crate::container::state::ContainerStateView;
use crate::layer::Layer;
use crate::math::Area;
use crate::memory::{
    as_undeclared, contains, declare, declared_entry, evict, get, layer_at, position,
    read, save, save_container, update_all, update_layer, update_layers,
    update_step, was_declared, lemma_position_from, lemma_position_is,
    MemoryTempView, MemoryView, UpdateState,
};
use crate::event::TouchPhase;
use crate::identity::is_inner_key;
use crate::input::{mark_touch, pick_touch, InputStateView, TouchState};
use crate::response::{ClickInfoView, DragInfo, HoverInfo, ResponseView};

verus! {

/// One thing that a frame does to the store.
pub enum StoreOp {
    /// An identity is declared.
    Declare { id: Seq<char>, response: ResponseView, visible: Area },
    /// The persisted text of an identity is set.
    Save { id: Seq<char>, text: Seq<char> },
    /// What a container keeps under an identity is set.
    SaveContainer { id: Seq<char>, state: ContainerStateView },
    /// The derived state of the identities in `ids` is moved on.
    Update { input: InputStateView, ids: Seq<Seq<char>>, now: Instant },
}

/// The store after one operation.
pub open spec fn apply(m: MemoryView, op: StoreOp) -> MemoryView {
    match op {
        StoreOp::Declare { id, response, visible } => declare(m, id, response, visible),
        StoreOp::Save { id, text } => save(m, id, text),
        StoreOp::SaveContainer { id, state } => save_container(m, id, state),
        StoreOp::Update { input, ids, now } => update_all(m, input, ids, now).memory,
    }
}

/// The store after a run of operations, the first of the run first.
pub open spec fn apply_all(m: MemoryView, ops: Seq<StoreOp>) -> MemoryView
    decreases ops.len(),
{
    if ops.len() == 0 {
        m
    } else {
        apply(apply_all(m, ops.drop_last()), ops.last())
    }
}

/// Whether the run declares the identity `id`.
pub open spec fn declares(ops: Seq<StoreOp>, id: Seq<char>) -> bool {
    exists|i: int| 0 <= i < ops.len() && (#[trigger] ops[i]) is Declare && ops[i]->Declare_id == id
}

/// Whether the run sets the persisted text of the identity `id`.
pub open spec fn overwrites(ops: Seq<StoreOp>, id: Seq<char>) -> bool {
    exists|i: int| 0 <= i < ops.len() && (#[trigger] ops[i]) is Save && ops[i]->Save_id == id
}

/// Whether no entry for `id` counts as declared in the current frame.
pub open spec fn undeclared(m: MemoryView, id: Seq<char>) -> bool {
    forall|k: int| 0 <= k < m.len() && (#[trigger] m[k]).response.id == id ==> m[k].access_time == 0
}

/// Whether two stores agree, entry by entry, on everything but the derived
/// state: on the ids, the counts, the persisted texts and what the
/// containers keep.
pub open spec fn same_but_derived(a: MemoryView, b: MemoryView) -> bool {
    &&& a.len() == b.len()
    &&& forall|k: int|
        0 <= k < a.len() ==> {
            &&& (#[trigger] a[k]).response.id == b[k].response.id
            &&& a[k].access_time == b[k].access_time
            &&& a[k].response.metadata.other_info == b[k].response.metadata.other_info
            &&& a[k].container == b[k].container
        }
}

/// Stores that agree on the ids find every identity at the same place.
pub proof fn lemma_same_ids_same_position(a: MemoryView, b: MemoryView, id: Seq<char>)
    requires
        a.len() == b.len(),
        forall|k: int| 0 <= k < a.len() ==> (#[trigger] a[k]).response.id == b[k].response.id,
    ensures
        position(a, id) == position(b, id),
{
    lemma_position_from(a, id, 0);
    let k = position(a, id);
    assert forall|j: int| 0 <= j < k implies b[j].response.id != id by {
        assert(a[j].response.id != id);
    }
    if k < a.len() {
        assert(a[k].response.id == id);
    }
    lemma_position_is(b, id, k);
}

/// Moving the derived state on leaves everything else as it is.
pub proof fn lemma_update_step_keeps(s: UpdateState, id: Seq<char>, layer: Layer, now: Instant)
    ensures
        same_but_derived(s.memory, update_step(s, id, layer, now).memory),
{
    lemma_position_from(s.memory, id, 0);
}

/// Moving the derived state of one layer on leaves everything else as it
/// is.
pub proof fn lemma_update_layer_keeps(s: UpdateState, ids: Seq<Seq<char>>, layer: Layer, now: Instant)
    ensures
        same_but_derived(s.memory, update_layer(s, ids, layer, now).memory),
    decreases ids.len(),
{
    if ids.len() > 0 {
        let next = update_step(s, ids.last(), layer, now);
        lemma_update_step_keeps(s, ids.last(), layer, now);
        lemma_update_layer_keeps(next, ids.drop_last(), layer, now);
        let end = update_layer(next, ids.drop_last(), layer, now).memory;
        assert forall|k: int| 0 <= k < s.memory.len() implies {
            &&& (#[trigger] s.memory[k]).response.id == end[k].response.id
            &&& s.memory[k].access_time == end[k].access_time
            &&& s.memory[k].response.metadata.other_info == end[k].response.metadata.other_info
            &&& s.memory[k].container == end[k].container
        } by {
            assert(next.memory[k].response.id == end[k].response.id);
        }
    }
}

/// Moving the derived state of the layers on leaves everything else as it
/// is.
pub proof fn lemma_update_layers_keeps(s: UpdateState, ids: Seq<Seq<char>>, rank: int, now: Instant)
    ensures
        same_but_derived(s.memory, update_layers(s, ids, rank, now).memory),
    decreases rank + 1,
{
    if rank >= 0 {
        let next = update_layer(s, ids, layer_at(rank), now);
        lemma_update_layer_keeps(s, ids, layer_at(rank), now);
        lemma_update_layers_keeps(next, ids, rank - 1, now);
        let end = update_layers(next, ids, rank - 1, now).memory;
        assert forall|k: int| 0 <= k < s.memory.len() implies {
            &&& (#[trigger] s.memory[k]).response.id == end[k].response.id
            &&& s.memory[k].access_time == end[k].access_time
            &&& s.memory[k].response.metadata.other_info == end[k].response.metadata.other_info
            &&& s.memory[k].container == end[k].container
        } by {
            assert(next.memory[k].response.id == end[k].response.id);
        }
    }
}

/// An operation that does not declare `id` leaves it undeclared.
pub proof fn lemma_apply_keeps_undeclared(m: MemoryView, op: StoreOp, id: Seq<char>)
    requires
        undeclared(m, id),
        !(op is Declare && op->Declare_id == id),
    ensures
        undeclared(apply(m, op), id),
{
    let after = apply(m, op);
    match op {
        StoreOp::Declare { id: other, response, visible } => {
            lemma_position_from(m, other, 0);
            assert forall|k: int| 0 <= k < after.len() && (#[trigger] after[k]).response.id
                == id implies after[k].access_time == 0 by {
                if k < m.len() && k != position(m, other) {
                    assert(after[k] == m[k]);
                }
            }
        },
        StoreOp::Save { id: other, text } => {
            lemma_position_from(m, other, 0);
            assert forall|k: int| 0 <= k < after.len() && (#[trigger] after[k]).response.id
                == id implies after[k].access_time == 0 by {
                assert(m[k].response.id == after[k].response.id);
                assert(m[k].access_time == after[k].access_time);
            }
        },
        StoreOp::SaveContainer { id: other, state } => {
            lemma_position_from(m, other, 0);
            assert forall|k: int| 0 <= k < after.len() && (#[trigger] after[k]).response.id
                == id implies after[k].access_time == 0 by {
                assert(m[k].response.id == after[k].response.id);
                assert(m[k].access_time == after[k].access_time);
            }
        },
        StoreOp::Update { input, ids, now } => {
            lemma_update_layers_keeps(
                UpdateState { memory: m, input, done: Set::empty() },
                ids,
                5,
                now,
            );
            assert forall|k: int| 0 <= k < after.len() && (#[trigger] after[k]).response.id
                == id implies after[k].access_time == 0 by {
                assert(m[k].response.id == after[k].response.id);
                assert(m[k].access_time == after[k].access_time);
            }
        },
    }
}

/// A run that does not declare `id` leaves it undeclared.
pub proof fn lemma_apply_all_keeps_undeclared(m: MemoryView, ops: Seq<StoreOp>, id: Seq<char>)
    requires
        undeclared(m, id),
        !declares(ops, id),
    ensures
        undeclared(apply_all(m, ops), id),
    decreases ops.len(),
{
    if ops.len() > 0 {
        let front = ops.drop_last();
        assert forall|i: int| 0 <= i < front.len() && (#[trigger] front[i]) is Declare implies
            front[i]->Declare_id != id by {
            assert(front[i] == ops[i]);
        }
        lemma_apply_all_keeps_undeclared(m, front, id);
        assert(ops.last() == ops[ops.len() - 1]);
        lemma_apply_keeps_undeclared(apply_all(m, front), ops.last(), id);
    }
}

/// At the start of a frame no identity counts as declared.
pub proof fn lemma_evict_resets(m: MemoryView, id: Seq<char>)
    ensures
        undeclared(evict(m), id),
{
    let kept = m.filter(was_declared());
    assert forall|k: int| 0 <= k < evict(m).len() implies (#[trigger] evict(m)[k]).access_time
        == 0 by {
        assert(evict(m)[k] == as_undeclared()(kept[k]));
    }
}

/// The end of a frame drops every identity that was not declared in it.
pub proof fn lemma_undeclared_is_dropped(m: MemoryView, id: Seq<char>)
    requires
        undeclared(m, id),
    ensures
        !contains(evict(m), id),
{
    let kept = m.filter(was_declared());
    let after = evict(m);
    assert forall|k: int| 0 <= k < after.len() implies (#[trigger] after[k]).response.id
        != id by {
        assert(after[k] == as_undeclared()(kept[k]));
        m.lemma_filter_pred(was_declared(), k);
        assert(kept.contains(kept[k]));
        m.lemma_filter_contains_rev(was_declared(), kept[k]);
        let j = choose|j: int| 0 <= j < m.len() && m[j] == kept[k];
        assert(m[j].access_time != 0);
    }
    lemma_position_from(after, id, 0);
}

/// **Identities that are not declared again are forgotten.** Whatever the
/// store holds at the end of one frame, and whatever the next frame does
/// to it: an identity that the next frame does not declare has no entry
/// after the end of that frame.
pub proof fn law_identity_dropped(m: MemoryView, ops: Seq<StoreOp>, id: Seq<char>)
    requires
        !declares(ops, id),
    ensures
        !contains(evict(apply_all(evict(m), ops)), id),
{
    lemma_evict_resets(m, id);
    lemma_apply_all_keeps_undeclared(evict(m), ops, id);
    lemma_undeclared_is_dropped(apply_all(evict(m), ops), id);
}

/// Whether the store has an entry for `id` whose persisted text is
/// `text`.
pub open spec fn holds_text(m: MemoryView, id: Seq<char>, text: Seq<char>) -> bool {
    read(m, id) == Some(text)
}

/// Dropping the entries that were not declared keeps the entry of an
/// identity that was, and keeps it the first for its id.
pub proof fn lemma_filter_keeps_first(m: MemoryView, id: Seq<char>)
    requires
        contains(m, id),
        m[position(m, id)].access_time != 0,
    ensures
        contains(m.filter(was_declared()), id),
        m.filter(was_declared())[position(m.filter(was_declared()), id)] == m[position(m, id)],
    decreases m.len(),
{
    reveal(Seq::filter);
    lemma_position_from(m, id, 0);
    let p = position(m, id);
    let rest = m.drop_last();
    let last = m.last();
    let rf = rest.filter(was_declared());
    let f = m.filter(was_declared());
    if p == m.len() - 1 {
        assert(f == rf.push(last));
        assert forall|j: int| 0 <= j < rf.len() implies (#[trigger] f[j]).response.id != id by {
            assert(rf.contains(rf[j]));
            rest.lemma_filter_contains_rev(was_declared(), rf[j]);
            let i = choose|i: int| 0 <= i < rest.len() && rest[i] == rf[j];
            assert(m[i].response.id != id);
        }
        lemma_position_is(f, id, rf.len() as int);
    } else {
        assert forall|j: int| 0 <= j < p implies (#[trigger] rest[j]).response.id != id by {
            assert(rest[j] == m[j]);
        }
        assert(rest[p] == m[p]);
        lemma_position_is(rest, id, p);
        lemma_filter_keeps_first(rest, id);
        lemma_position_from(rf, id, 0);
        let k = position(rf, id);
        assert forall|j: int| 0 <= j < k implies (#[trigger] f[j]).response.id != id by {
            assert(f[j] == rf[j]);
        }
        assert(f[k] == rf[k]);
        lemma_position_is(f, id, k);
    }
}

/// The end of a frame keeps the persisted text of every identity that was
/// declared in it.
pub proof fn lemma_evict_keeps_text(m: MemoryView, id: Seq<char>)
    requires
        contains(m, id),
        m[position(m, id)].access_time != 0,
    ensures
        read(evict(m), id) == read(m, id),
{
    lemma_filter_keeps_first(m, id);
    let f = m.filter(was_declared());
    let after = evict(m);
    assert forall|k: int| 0 <= k < f.len() implies (#[trigger] f[k]).response.id
        == after[k].response.id by {
        assert(after[k] == as_undeclared()(f[k]));
    }
    lemma_same_ids_same_position(f, after, id);
    lemma_position_from(f, id, 0);
    assert(after[position(f, id)] == as_undeclared()(f[position(f, id)]));
}

/// An operation that does not set the persisted text of `id` leaves that
/// text as it is.
pub proof fn lemma_apply_keeps_text(m: MemoryView, op: StoreOp, id: Seq<char>, text: Seq<char>)
    requires
        holds_text(m, id, text),
        !(op is Save && op->Save_id == id),
    ensures
        holds_text(apply(m, op), id, text),
{
    let after = apply(m, op);
    lemma_position_from(m, id, 0);
    let p = position(m, id);
    match op {
        StoreOp::Declare { id: other, response, visible } => {
            lemma_position_from(m, other, 0);
            if contains(m, other) {
                assert forall|k: int| 0 <= k < m.len() implies (#[trigger] m[k]).response.id
                    == after[k].response.id by {}
                lemma_same_ids_same_position(m, after, id);
            } else {
                assert forall|j: int| 0 <= j < p implies (#[trigger] after[j]).response.id
                    != id by {
                    assert(after[j] == m[j]);
                }
                assert(after[p] == m[p]);
                lemma_position_is(after, id, p);
            }
        },
        StoreOp::Save { id: other, text: new_text } => {
            lemma_position_from(m, other, 0);
            assert forall|k: int| 0 <= k < m.len() implies (#[trigger] m[k]).response.id
                == after[k].response.id by {}
            lemma_same_ids_same_position(m, after, id);
        },
        StoreOp::SaveContainer { id: other, state } => {
            lemma_position_from(m, other, 0);
            assert forall|k: int| 0 <= k < m.len() implies (#[trigger] m[k]).response.id
                == after[k].response.id by {}
            lemma_same_ids_same_position(m, after, id);
        },
        StoreOp::Update { input, ids, now } => {
            lemma_update_layers_keeps(
                UpdateState { memory: m, input, done: Set::empty() },
                ids,
                5,
                now,
            );
            lemma_same_ids_same_position(m, after, id);
        },
    }
}

/// A run that does not set the persisted text of `id` leaves that text as
/// it is.
pub proof fn lemma_apply_all_keeps_text(m: MemoryView, ops: Seq<StoreOp>, id: Seq<char>, text: Seq<char>)
    requires
        holds_text(m, id, text),
        !overwrites(ops, id),
    ensures
        holds_text(apply_all(m, ops), id, text),
    decreases ops.len(),
{
    if ops.len() > 0 {
        let front = ops.drop_last();
        assert forall|i: int| 0 <= i < front.len() && (#[trigger] front[i]) is Save implies
            front[i]->Save_id != id by {
            assert(front[i] == ops[i]);
        }
        lemma_apply_all_keeps_text(m, front, id, text);
        assert(ops.last() == ops[ops.len() - 1]);
        lemma_apply_keeps_text(apply_all(m, front), ops.last(), id, text);
    }
}

/// **What an identity has persisted outlives the frame.** If an identity
/// was declared in one frame, then whatever the next frame does to the
/// store short of setting that identity's persisted text anew, the text is
/// still to be read as the frame before left it; and a declaration of the
/// identity at that point hands it back in its response.
pub proof fn law_memory_survives(
    m: MemoryView,
    ops: Seq<StoreOp>,
    id: Seq<char>,
    response: ResponseView,
    visible: Area,
)
    requires
        contains(m, id),
        get(m, id)->0.access_time >= 1,
        !overwrites(ops, id),
    ensures
        read(apply_all(evict(m), ops), id) == read(m, id),
        declared_entry(
            get(apply_all(evict(m), ops), id),
            id,
            response,
            visible,
        ).response.metadata.other_info == read(m, id)->0,
{
    lemma_evict_keeps_text(m, id);
    lemma_apply_all_keeps_text(evict(m), ops, id, read(m, id)->0);
}

/// **A container that stays shut leaves nothing behind.** If a frame
/// declares nothing that belongs to the scope of a container but the
/// container itself, then after the end of that frame the store holds no
/// entry that belongs to that scope, but at most the container's own:
/// whatever was declared inside the container while it was open is gone.
pub proof fn law_container_skip(
    m: MemoryView,
    ops: Seq<StoreOp>,
    scope: Seq<char>,
    own: Seq<char>,
    id: Seq<char>,
)
    requires
        forall|i: int|
            0 <= i < ops.len() && (#[trigger] ops[i]) is Declare && is_inner_key(
                ops[i]->Declare_id,
                scope,
            ) ==> ops[i]->Declare_id == own,
        is_inner_key(id, scope),
        id != own,
    ensures
        !contains(evict(apply_all(evict(m), ops)), id),
{
    law_identity_dropped(m, ops, id);
}

/// The hover state after a run of frames, taken at `times`, in each of
/// which a pointer was inside the widget's area.
pub open spec fn hover_run(h: HoverInfo, times: Seq<Instant>) -> HoverInfo
    decreases times.len(),
{
    if times.len() == 0 {
        h
    } else {
        hover_run(h, times.drop_last()).after(true, times.last())
    }
}

/// After the first frame of a run of hovering, the start of the hover is
/// what that frame made it.
pub proof fn lemma_hover_run_start(h: HoverInfo, times: Seq<Instant>, n: int)
    requires
        h.wf(),
        1 <= n <= times.len(),
    ensures
        hover_run(h, times.take(n)).is_hovering,
        hover_run(h, times.take(n)).is_insert,
        hover_run(h, times.take(n)).last_hover_time == h.after(true, times[0]).last_hover_time,
        hover_run(h, times.take(n)).last_hover_time is Some,
    decreases n,
{
    let run = times.take(n);
    assert(run.drop_last() =~= times.take(n - 1));
    assert(run.last() == times[n - 1]);
    if n == 1 {
        assert(times.take(0).len() == 0);
        assert(hover_run(h, times.take(0)) == h);
    } else {
        lemma_hover_run_start(h, times, n - 1);
    }
}

/// **Hovering does not start over.** While a pointer stays inside a
/// widget's area frame after frame, the start of the hover stays what the
/// first of these frames made it, and the time hovered, asked at the
/// moment of each frame, grows from each frame to the next.
pub proof fn law_hover_idempotence(h: HoverInfo, times: Seq<Instant>, i: int, j: int)
    requires
        h.wf(),
        0 <= i < j < times.len(),
        forall|a: int, b: int| 0 <= a < b < times.len() ==> times[a].nanos < times[b].nanos,
    ensures
        hover_run(h, times.take(i + 1)).is_hovering,
        hover_run(h, times.take(j + 1)).is_hovering,
        hover_run(h, times.take(i + 1)).last_hover_time is Some,
        hover_run(h, times.take(j + 1)).last_hover_time == hover_run(
            h,
            times.take(i + 1),
        ).last_hover_time,
        times[i].spec_since(hover_run(h, times.take(i + 1)).last_hover_time->0).nanos
            < times[j].spec_since(hover_run(h, times.take(j + 1)).last_hover_time->0).nanos,
{
    lemma_hover_run_start(h, times, i + 1);
    lemma_hover_run_start(h, times, j + 1);
}

/// Among touches of which every one in `phase` is claimed, none in that
/// phase is unclaimed.
pub proof fn lemma_no_fresh_touch(s: Seq<TouchState>, phase: TouchPhase)
    requires
        forall|i: int| 0 <= i < s.len() && (#[trigger] s[i]).touch.phase == phase ==> s[i].is_click_used,
    ensures
        s.filter_map(pick_touch(phase, true)).len() == 0,
    decreases s.len(),
{
    if s.len() > 0 {
        assert forall|i: int| 0 <= i < s.drop_last().len() && (#[trigger] s.drop_last()[i]).touch.phase
            == phase implies s.drop_last()[i].is_click_used by {
            assert(s.drop_last()[i] == s[i]);
        }
        lemma_no_fresh_touch(s.drop_last(), phase);
        assert(s.last() == s[s.len() - 1]);
    }
}

/// Once a widget has been credited with the press of a frame, the frame
/// holds no press for the widgets after it.
pub proof fn lemma_press_is_claimed(input: InputStateView, area: Area)
    requires
        ClickInfoView::takes_press(input, area),
    ensures
        !ClickInfoView::sees_press(ClickInfoView::input_after(input, area)),
{
    let after = ClickInfoView::input_after(input, area);
    assert forall|i: int| 0 <= i < after.touch.len() && (#[trigger] after.touch[i]).touch.phase
        == TouchPhase::Start implies after.touch[i].is_click_used by {}
    lemma_no_fresh_touch(after.touch, TouchPhase::Start);
    assert(after.touches_in(TouchPhase::Start, true).len() == 0);
    assert forall|i: int| 0 <= i < after.pressed_mouse.len() implies (
    #[trigger] after.pressed_mouse[i]).is_click_used by {}
}

/// **One click, one widget.** Two widgets that take clicks, neither held
/// down, see the same frames: first the one, then the other, which sees the
/// input with the claims of the first. One frame brings a press, a later
/// one brings the release and no new press. Whatever their areas, and so
/// also when both hold the pointer: at most one of them is clicked.
pub proof fn law_click_consumption(
    first: ClickInfoView,
    second: ClickInfoView,
    first_area: Area,
    second_area: Area,
    press: InputStateView,
    release: InputStateView,
    pressed_at: Instant,
    released_at: Instant,
)
    requires
        !first.is_pressed,
        !second.is_pressed,
        !ClickInfoView::sees_press(release),
    ensures
        ({
            let first_pressed = first.after(press, first_area, pressed_at);
            let second_pressed = second.after(
                ClickInfoView::input_after(press, first_area),
                second_area,
                pressed_at,
            );
            let first_released = first_pressed.after(release, first_area, released_at);
            let second_released = second_pressed.after(
                ClickInfoView::input_after(release, first_area),
                second_area,
                released_at,
            );
            &&& !(first_pressed.is_pressed && second_pressed.is_pressed)
            &&& !(first_released.is_pressed && second_released.is_pressed)
            &&& !(first_released.is_clicked() && second_released.is_clicked())
        }),
{
    if ClickInfoView::takes_press(press, first_area) {
        lemma_press_is_claimed(press, first_area);
    }
    let seen = ClickInfoView::input_after(release, first_area);
    assert(seen.pressed_mouse == release.pressed_mouse);
    assert(!seen.is_any_mouse_pressed_unconsumed());
    lemma_release_claims_keep_presses(release, first_area);
}

/// Crediting a release changes nothing about the presses of a frame that
/// holds no unclaimed press.
pub proof fn lemma_release_claims_keep_presses(input: InputStateView, area: Area)
    requires
        !ClickInfoView::sees_press(input),
    ensures
        ClickInfoView::input_after(input, area).touches_in(TouchPhase::Start, true).len() == 0,
{
    let after = ClickInfoView::input_after(input, area);
    if ClickInfoView::takes_release(input, area) {
        lemma_fresh_touches_unchanged(input.touch);
    }
}

/// Claiming the touches that ended leaves the unclaimed touches that began
/// as they are.
pub proof fn lemma_fresh_touches_unchanged(s: Seq<TouchState>)
    ensures
        s.map_values(mark_touch(TouchPhase::End)).filter_map(pick_touch(TouchPhase::Start, true))
            == s.filter_map(pick_touch(TouchPhase::Start, true)),
    decreases s.len(),
{
    let mark = mark_touch(TouchPhase::End);
    if s.len() > 0 {
        lemma_fresh_touches_unchanged(s.drop_last());
        assert(s.map_values(mark).drop_last() =~= s.drop_last().map_values(mark));
        assert(s.map_values(mark).last() == mark(s.last()));
    }
}

/// Whether the store holds at most one entry for each identity.
pub open spec fn one_entry_each(m: MemoryView) -> bool {
    forall|i: int, j: int|
        0 <= i < j < m.len() ==> (#[trigger] m[i]).response.id != (#[trigger] m[j]).response.id
}

/// An operation keeps a store that holds at most one entry for each
/// identity that way.
pub proof fn lemma_apply_keeps_one_entry_each(m: MemoryView, op: StoreOp)
    requires
        one_entry_each(m),
    ensures
        one_entry_each(apply(m, op)),
{
    let after = apply(m, op);
    match op {
        StoreOp::Declare { id, response, visible } => {
            lemma_position_from(m, id, 0);
            assert forall|i: int, j: int| 0 <= i < j < after.len() implies (#[trigger] after[i]).response.id
                != (#[trigger] after[j]).response.id by {
                if j < m.len() {
                    assert(after[i].response.id == m[i].response.id);
                    assert(after[j].response.id == m[j].response.id);
                } else {
                    assert(after[i] == m[i]);
                }
            }
        },
        StoreOp::Save { id, text } => {
            lemma_position_from(m, id, 0);
            assert forall|i: int, j: int| 0 <= i < j < after.len() implies (#[trigger] after[i]).response.id
                != (#[trigger] after[j]).response.id by {
                assert(after[i].response.id == m[i].response.id);
                assert(after[j].response.id == m[j].response.id);
            }
        },
        StoreOp::SaveContainer { id, state } => {
            lemma_position_from(m, id, 0);
            assert forall|i: int, j: int| 0 <= i < j < after.len() implies (#[trigger] after[i]).response.id
                != (#[trigger] after[j]).response.id by {
                assert(after[i].response.id == m[i].response.id);
                assert(after[j].response.id == m[j].response.id);
            }
        },
        StoreOp::Update { input, ids, now } => {
            lemma_update_layers_keeps(
                UpdateState { memory: m, input, done: Set::empty() },
                ids,
                5,
                now,
            );
            assert forall|i: int, j: int| 0 <= i < j < after.len() implies (#[trigger] after[i]).response.id
                != (#[trigger] after[j]).response.id by {
                assert(m[i].response.id == after[i].response.id);
                assert(m[j].response.id == after[j].response.id);
            }
        },
    }
}

/// Dropping entries keeps a store that holds at most one entry for each
/// identity that way.
pub proof fn lemma_filter_keeps_one_entry_each(m: MemoryView)
    requires
        one_entry_each(m),
    ensures
        one_entry_each(m.filter(was_declared())),
    decreases m.len(),
{
    reveal(Seq::filter);
    if m.len() > 0 {
        let front = m.drop_last();
        assert forall|i: int, j: int| 0 <= i < j < front.len() implies (#[trigger] front[i]).response.id
            != (#[trigger] front[j]).response.id by {
            assert(front[i] == m[i]);
            assert(front[j] == m[j]);
        }
        lemma_filter_keeps_one_entry_each(front);
        let kept = front.filter(was_declared());
        let all = m.filter(was_declared());
        assert forall|i: int, j: int| 0 <= i < j < all.len() implies (#[trigger] all[i]).response.id
            != (#[trigger] all[j]).response.id by {
            if j < kept.len() {
                assert(all[i] == kept[i]);
                assert(all[j] == kept[j]);
            } else {
                assert(all[j] == m.last());
                assert(all[i] == kept[i]);
                assert(kept.contains(kept[i]));
                front.lemma_filter_contains_rev(was_declared(), kept[i]);
                let k = choose|k: int| 0 <= k < front.len() && front[k] == kept[i];
                assert(m[k] == kept[i]);
                assert(m[m.len() - 1] == m.last());
            }
        }
    }
}

/// **One entry for each identity.** A store starts out empty, and
/// whatever is done to it, frame after frame, it holds at most one entry for
/// each identity: it is a map from identities to entries.
pub proof fn law_one_entry_each(m: MemoryView, ops: Seq<StoreOp>)
    requires
        one_entry_each(m),
    ensures
        one_entry_each(Seq::<MemoryTempView>::empty()),
        one_entry_each(apply_all(m, ops)),
        one_entry_each(evict(m)),
    decreases ops.len(),
{
    if ops.len() > 0 {
        law_one_entry_each(m, ops.drop_last());
        lemma_apply_keeps_one_entry_each(apply_all(m, ops.drop_last()), ops.last());
    }
    lemma_filter_keeps_one_entry_each(m);
    let kept = m.filter(was_declared());
    assert forall|i: int, j: int| 0 <= i < j < evict(m).len() implies (#[trigger] evict(m)[i]).response.id
        != (#[trigger] evict(m)[j]).response.id by {
        assert(evict(m)[i] == as_undeclared()(kept[i]));
        assert(evict(m)[j] == as_undeclared()(kept[j]));
    }
}

/// **A drag goes on wherever the cursor goes.** While no button comes
/// up and the cursor stays on the surface, a widget that is dragged stays
/// dragged, whatever its area and wherever the cursor is; and what it
/// reports as moved is how far the cursor is from where it was in the frame
/// before.
pub proof fn law_drag_continues(drag: DragInfo, input: InputStateView, area: Area, now: Instant)
    requires
        drag.is_draging,
        input.cursor_position is Some,
        !input.is_any_mouse_released(),
    ensures
        drag.after(input, area, now).is_draging,
        drag.after(input, area, now).last_drag_position == input.cursor_position,
        drag.last_drag_position is Some ==> drag.after(input, area, now).drag_delta
            == input.cursor_position->0.spec_minus(drag.last_drag_position->0),
        drag.after(input, area, now).drag_start_time == drag.drag_start_time,
        drag.input_after(input, area) == input,
{
}

/// **A drag ends with the release or with the cursor.** When a button
/// comes up, or the cursor leaves the surface, no widget is dragged any
/// longer.
pub proof fn law_drag_ends(drag: DragInfo, input: InputStateView, area: Area, now: Instant)
    requires
        input.cursor_position is None || input.is_any_mouse_released(),
    ensures
        !drag.after(input, area, now).is_draging,
{
}

/// **A press starts one drag.** Of two widgets that can be dragged and
/// are not, the one that sees the press of a frame first starts a drag, and
/// the other, which sees the input with the claim of the first, does not.
pub proof fn law_drag_claimed_once(
    first: DragInfo,
    second: DragInfo,
    first_area: Area,
    second_area: Area,
    input: InputStateView,
    now: Instant,
)
    requires
        !second.is_draging,
        first.may_start(input, first_area),
    ensures
        !second.after(first.input_after(input, first_area), second_area, now).is_draging,
{
    let seen = first.input_after(input, first_area);
    assert forall|i: int| 0 <= i < seen.pressed_mouse.len() implies (#[trigger] seen.pressed_mouse[i]).is_drag_used by {}
}

} // verus!
