//! The store that outlives the frame: one entry per identity, found by its
//! id, kept while the identity is declared again and dropped when a frame
//! passes without it.

use vstd::prelude::*;
use crate::container::state::{ContainerState, ContainerStateView};
use crate::clock::Instant;
use crate::input::{InputState, InputStateView};
use crate::layer::Layer;
use crate::math::Area;
use crate::response::{Response, ResponseView};

verus! {

/// What the store holds for one identity.
#[derive(Debug)]
pub struct MemoryTemp {
    /// The response last handed out for the identity.
    pub response: Response,
    /// The part of the widget's area that can be seen; pointers are tested
    /// against it in the next frame.
    pub update_area: Area,
    /// How often the identity has been declared in the current frame.
    pub access_time: usize,
    /// What a container keeps under the identity.
    pub container: ContainerState,
}

/// Mathematical value of a [`MemoryTemp`].
pub struct MemoryTempView {
    pub response: ResponseView,
    pub update_area: Area,
    pub access_time: usize,
    pub container: ContainerStateView,
}

impl View for MemoryTemp {
    type V = MemoryTempView;

    open spec fn view(&self) -> MemoryTempView {
        MemoryTempView {
            response: self.response@,
            update_area: self.update_area,
            access_time: self.access_time,
            container: self.container@,
        }
    }
}

impl Clone for MemoryTemp {
    fn clone(&self) -> (r: Self)
        ensures
            r@ == self@,
    {
        MemoryTemp {
            response: self.response.clone(),
            update_area: self.update_area,
            access_time: self.access_time,
            container: self.container.clone(),
        }
    }
}

/// The entries of a store, in the order in which their identities were
/// first declared.
pub type MemoryView = Seq<MemoryTempView>;

/// The first position at or after `from` whose entry has the id `id`, or
/// the length of the store when there is none.
pub open spec fn position_from(m: MemoryView, id: Seq<char>, from: int) -> int
    decreases m.len() - from,
{
    if from < 0 || from >= m.len() {
        m.len() as int
    } else if m[from].response.id == id {
        from
    } else {
        position_from(m, id, from + 1)
    }
}

/// The position of the entry for `id`, or the length of the store when it
/// has none.
pub open spec fn position(m: MemoryView, id: Seq<char>) -> int {
    position_from(m, id, 0)
}

/// Whether the store has an entry for `id`.
pub open spec fn contains(m: MemoryView, id: Seq<char>) -> bool {
    position(m, id) < m.len()
}

/// The entry for `id`, if the store has one.
pub open spec fn get(m: MemoryView, id: Seq<char>) -> Option<MemoryTempView> {
    if contains(m, id) {
        Some(m[position(m, id)])
    } else {
        None
    }
}

/// One more than `n`, held at the end of the range of `usize`.
pub open spec fn next_count(n: usize) -> usize {
    if n == usize::MAX {
        n
    } else {
        (n + 1) as usize
    }
}

/// The entry for an identity declared with `response`, given the entry it
/// had so far, if any, and the part of the surface that can be seen.
///
/// A first declaration stores the response as it is, counted once. A later
/// one keeps the derived state and the container's state, takes the new
/// area, and counts one more.
pub open spec fn declared_entry(
    before: Option<MemoryTempView>,
    id: Seq<char>,
    response: ResponseView,
    visible: Area,
) -> MemoryTempView {
    match before {
        Some(e) => MemoryTempView {
            response: ResponseView { area: response.area, id, metadata: e.response.metadata },
            update_area: response.area.spec_cross_part(visible),
            access_time: next_count(e.access_time),
            container: e.container,
        },
        None => MemoryTempView {
            response: ResponseView { id, ..response },
            update_area: response.area.spec_cross_part(visible),
            access_time: 1,
            container: ContainerStateView::Empty,
        },
    }
}

/// The store after `id` has been declared with `response`.
pub open spec fn declare(m: MemoryView, id: Seq<char>, response: ResponseView, visible: Area) -> MemoryView {
    let entry = declared_entry(get(m, id), id, response, visible);
    if contains(m, id) {
        m.update(position(m, id), entry)
    } else {
        m.push(entry)
    }
}

/// The test "was declared in the frame that ends".
pub open spec fn was_declared() -> spec_fn(MemoryTempView) -> bool {
    |e: MemoryTempView| e.access_time != 0
}

/// The store at the start of the next frame: the entries declared in the
/// frame that ends, each counted as not declared yet.
pub open spec fn evict(m: MemoryView) -> MemoryView {
    m.filter(was_declared()).map_values(as_undeclared())
}

/// The entry counted as not declared yet.
pub open spec fn as_undeclared() -> spec_fn(MemoryTempView) -> MemoryTempView {
    |e: MemoryTempView| MemoryTempView { access_time: 0, ..e }
}

/// The id of an entry that was declared more than once.
pub open spec fn clash_id() -> spec_fn(MemoryTempView) -> Option<Seq<char>> {
    |e: MemoryTempView|
        if e.access_time > 1 {
            Some(e.response.id)
        } else {
            None
        }
}

/// The ids that were declared more than once in the frame that ends.
pub open spec fn conflicts(m: MemoryView) -> Seq<Seq<char>> {
    m.filter_map(clash_id())
}

/// The store with `text` as the persisted text of `id`; unchanged when it
/// has no entry for `id`.
pub open spec fn save(m: MemoryView, id: Seq<char>, text: Seq<char>) -> MemoryView {
    match get(m, id) {
        Some(e) => m.update(
            position(m, id),
            MemoryTempView {
                response: ResponseView {
                    metadata: crate::response::MetadataView { other_info: text, ..e.response.metadata },
                    ..e.response
                },
                ..e
            },
        ),
        None => m,
    }
}

/// The persisted text of `id`, if the store has an entry for it.
pub open spec fn read(m: MemoryView, id: Seq<char>) -> Option<Seq<char>> {
    match get(m, id) {
        Some(e) => Some(e.response.metadata.other_info),
        None => None,
    }
}

/// The store with `state` as what the container `id` keeps; unchanged when
/// it has no entry for `id`.
pub open spec fn save_container(m: MemoryView, id: Seq<char>, state: ContainerStateView) -> MemoryView {
    match get(m, id) {
        Some(e) => m.update(position(m, id), MemoryTempView { container: state, ..e }),
        None => m,
    }
}

/// What the container `id` keeps; nothing when the store has no entry for
/// it.
pub open spec fn read_container(m: MemoryView, id: Seq<char>) -> ContainerStateView {
    match get(m, id) {
        Some(e) => e.container,
        None => ContainerStateView::Empty,
    }
}

/// The entry after its derived state has been moved on by one frame's
/// input, taken at `now`, against the part of its area that can be seen.
pub open spec fn updated_entry(e: MemoryTempView, input: InputStateView, now: Instant) -> MemoryTempView {
    MemoryTempView {
        response: ResponseView {
            metadata: e.response.metadata.after(input, e.update_area, now),
            ..e.response
        },
        ..e
    }
}

/// The store, the input and the positions already dealt with, in the course
/// of one update of the derived state.
pub struct UpdateState {
    pub memory: MemoryView,
    pub input: InputStateView,
    /// The positions of the entries that have been moved on in this update.
    pub done: Set<int>,
}

/// One step of an update: the entry for `id` is moved on if there is one,
/// it lies on `layer`, and it has not been moved on in this update yet. It
/// sees the input as the entries before it left it, and leaves its own
/// claims.
pub open spec fn update_step(s: UpdateState, id: Seq<char>, layer: Layer, now: Instant) -> UpdateState {
    let k = position(s.memory, id);
    if k < s.memory.len() && !s.done.contains(k) && s.memory[k].response.metadata.layer == layer {
        UpdateState {
            memory: s.memory.update(k, updated_entry(s.memory[k], s.input, now)),
            input: s.memory[k].response.metadata.input_after(s.input, s.memory[k].update_area),
            done: s.done.insert(k),
        }
    } else {
        s
    }
}

/// The update of one layer: the ids are gone through from the last declared
/// to the first, so that of two widgets on one layer the one declared
/// later, which lies on top, claims first.
pub open spec fn update_layer(s: UpdateState, ids: Seq<Seq<char>>, layer: Layer, now: Instant) -> UpdateState
    decreases ids.len(),
{
    if ids.len() == 0 {
        s
    } else {
        update_layer(update_step(s, ids.last(), layer, now), ids.drop_last(), layer, now)
    }
}

/// The layer at place `rank` of the stack, counted from the lowest.
pub open spec fn layer_at(rank: int) -> Layer {
    if rank <= 0 {
        Layer::Background
    } else if rank == 1 {
        Layer::Bottom
    } else if rank == 2 {
        Layer::Middle
    } else if rank == 3 {
        Layer::Foreground
    } else if rank == 4 {
        Layer::ToolTips
    } else {
        Layer::Debug
    }
}

/// The update of the layers from place `rank` down to the lowest: the
/// topmost layer goes first, so that what lies on top claims a press
/// before what lies below it.
pub open spec fn update_layers(s: UpdateState, ids: Seq<Seq<char>>, rank: int, now: Instant) -> UpdateState
    decreases rank + 1,
{
    if rank < 0 {
        s
    } else {
        update_layers(update_layer(s, ids, layer_at(rank), now), ids, rank - 1, now)
    }
}

/// The update of the derived state of every entry whose id is in `ids`,
/// each once, against the input `input`, taken at `now`.
pub open spec fn update_all(m: MemoryView, input: InputStateView, ids: Seq<Seq<char>>, now: Instant) -> UpdateState {
    update_layers(UpdateState { memory: m, input, done: Set::empty() }, ids, 5, now)
}

/// Where `position_from` points: at the first entry for `id` from `from`
/// on, with no entry for `id` before it.
pub proof fn lemma_position_from(m: MemoryView, id: Seq<char>, from: int)
    requires
        0 <= from <= m.len(),
    ensures
        from <= position_from(m, id, from) <= m.len(),
        position_from(m, id, from) < m.len() ==> m[position_from(m, id, from)].response.id == id,
        forall|j: int| from <= j < position_from(m, id, from) ==> m[j].response.id != id,
    decreases m.len() - from,
{
    if from < m.len() && m[from].response.id != id {
        lemma_position_from(m, id, from + 1);
    }
}

/// The position of `id` is `k` when the entry at `k` is the first for
/// `id`.
pub proof fn lemma_position_is(m: MemoryView, id: Seq<char>, k: int)
    requires
        0 <= k <= m.len(),
        k < m.len() ==> m[k].response.id == id,
        forall|j: int| 0 <= j < k ==> m[j].response.id != id,
    ensures
        position(m, id) == k,
{
    lemma_position_from(m, id, 0);
}

/// The identity-keyed store.
#[derive(Debug)]
pub struct Memory {
    pub entries: Vec<MemoryTemp>,
}

impl View for Memory {
    type V = MemoryView;

    open spec fn view(&self) -> MemoryView {
        self.entries@.map_values(|e: MemoryTemp| e@)
    }
}

impl Memory {
    /// The store without entries.
    pub fn new() -> (r: Memory)
        ensures
            r@ == Seq::<MemoryTempView>::empty(),
    {
        let r = Memory { entries: Vec::new() };
        assert(r@ =~= Seq::<MemoryTempView>::empty());
        r
    }

    /// How many entries the store has.
    pub fn len(&self) -> (n: usize)
        ensures
            n == self@.len(),
    {
        self.entries.len()
    }

    /// The position of the entry for `id`, or the number of entries when
    /// the store has none for it.
    pub fn find(&self, id: &String) -> (k: usize)
        ensures
            k == position(self@, id@),
            k <= self@.len(),
    {
        let mut k: usize = 0;
        while k < self.entries.len()
            invariant
                k <= self.entries.len(),
                forall|j: int| 0 <= j < k ==> self@[j].response.id != id@,
            decreases self.entries.len() - k,
        {
            if self.entries[k].response.id == *id {
                proof {
                    lemma_position_is(self@, id@, k as int);
                }
                return k;
            }
            k += 1;
        }
        proof {
            lemma_position_is(self@, id@, k as int);
        }
        k
    }

    /// Whether the store has an entry for `id`.
    pub fn contains_id(&self, id: &String) -> (r: bool)
        ensures
            r == contains(self@, id@),
    {
        self.find(id) < self.entries.len()
    }

    /// Records that `id` was declared with `response` in the current frame
    /// and hands back the response to give to the widget, together with
    /// whether the identity was known before.
    pub fn declare(&mut self, id: &String, response: Response, visible: &Area) -> (r: (Response, bool))
        ensures
            final(self)@ == declare(old(self)@, id@, response@, *visible),
            r.0@ == declared_entry(get(old(self)@, id@), id@, response@, *visible).response,
            r.1 == contains(old(self)@, id@),
    {
        let k = self.find(id);
        let update_area = response.area.cross_part(visible);
        if k < self.entries.len() {
            let ghost before = self@;
            let stored = Response {
                area: response.area,
                id: id.clone(),
                metadata: self.entries[k].response.metadata.clone(),
            };
            let back = stored.clone();
            let count = self.entries[k].access_time;
            let entry = &mut self.entries[k];
            entry.response = stored;
            entry.update_area = update_area;
            entry.access_time = if count == usize::MAX {
                count
            } else {
                count + 1
            };
            assert(self@ =~= declare(before, id@, response@, *visible));
            (back, true)
        } else {
            let ghost before = self@;
            let stored = Response { area: response.area, id: id.clone(), metadata: response.metadata };
            let back = stored.clone();
            self.entries.push(
                MemoryTemp {
                    response: stored,
                    update_area,
                    access_time: 1,
                    container: ContainerState::Empty,
                },
            );
            assert(self@ =~= declare(before, id@, response@, *visible));
            (back, false)
        }
    }

    /// Sets the persisted text of `id`; does nothing when the store has no
    /// entry for it.
    pub fn save(&mut self, id: &String, text: String)
        ensures
            final(self)@ == save(old(self)@, id@, text@),
    {
        let k = self.find(id);
        if k < self.entries.len() {
            let ghost before = self@;
            self.entries[k].response.metadata.other_info = text;
            assert(self@ =~= save(before, id@, text@));
        }
    }

    /// The persisted text of `id`; `None` when the store has no entry for
    /// it.
    pub fn read(&self, id: &String) -> (r: Option<String>)
        ensures
            match r {
                Some(t) => read(self@, id@) == Some(t@),
                None => read(self@, id@) is None,
            },
    {
        let k = self.find(id);
        if k < self.entries.len() {
            Some(self.entries[k].response.metadata.other_info.clone())
        } else {
            None
        }
    }

    /// Sets what the container `id` keeps; does nothing when the store has
    /// no entry for it.
    pub fn save_container(&mut self, id: &String, state: ContainerState)
        ensures
            final(self)@ == save_container(old(self)@, id@, state@),
    {
        let k = self.find(id);
        if k < self.entries.len() {
            let ghost before = self@;
            self.entries[k].container = state;
            assert(self@ =~= save_container(before, id@, state@));
        }
    }

    /// What the container `id` keeps; nothing when the store has no entry
    /// for it.
    pub fn read_container(&self, id: &String) -> (r: ContainerState)
        ensures
            r@ == read_container(self@, id@),
    {
        let k = self.find(id);
        if k < self.entries.len() {
            self.entries[k].container.clone()
        } else {
            ContainerState::Empty
        }
    }

    /// The response stored for `id`; `None` when the store has no entry for
    /// it.
    pub fn response_of(&self, id: &String) -> (r: Option<Response>)
        ensures
            match r {
                Some(t) => get(self@, id@) is Some && t@ == get(self@, id@)->0.response,
                None => get(self@, id@) is None,
            },
    {
        let k = self.find(id);
        if k < self.entries.len() {
            Some(self.entries[k].response.clone())
        } else {
            None
        }
    }

    /// The layer of the entry at position `k`.
    pub(crate) fn layer_of(&self, k: usize) -> (r: Layer)
        requires
            k < self@.len(),
        ensures
            r == self@[k as int].response.metadata.layer,
    {
        self.entries[k].response.metadata.layer
    }

    /// Moves the derived state of the entry at position `k` on by one
    /// frame, taken at `now`.
    pub(crate) fn update_entry_at(&mut self, k: usize, input_state: &mut InputState, now: Instant)
        requires
            k < old(self)@.len(),
        ensures
            final(self)@ == old(self)@.update(
                k as int,
                updated_entry(old(self)@[k as int], old(input_state)@, now),
            ),
            final(input_state)@ == old(self)@[k as int].response.metadata.input_after(
                old(input_state)@,
                old(self)@[k as int].update_area,
            ),
    {
        let ghost before = self@;
        let area = self.entries[k].update_area;
        self.entries[k].response.metadata.update_at(input_state, &area, now);
        assert(self@ =~= before.update(
            k as int,
            updated_entry(before[k as int], old(input_state)@, now),
        ));
    }

    /// Ends the frame: drops every entry whose identity was not declared in
    /// it and marks the others as not declared yet. Hands back the ids that
    /// were declared more than once, which points to a mistake in the
    /// caller's code.
    pub fn evict(&mut self) -> (r: Vec<String>)
        ensures
            final(self)@ == evict(old(self)@),
            r.deep_view() == conflicts(old(self)@),
    {
        let ghost before = self@;
        let ghost reset = as_undeclared();
        let ghost clash = clash_id();
        let mut kept: Vec<MemoryTemp> = Vec::new();
        let mut twice: Vec<String> = Vec::new();
        let mut i: usize = 0;
        assert(twice.deep_view() =~= before.take(0).filter_map(clash));
        assert(before.take(0).filter(was_declared()) =~= Seq::empty());
        while i < self.entries.len()
            invariant
                i <= self.entries.len(),
                before == self@,
                reset == as_undeclared(),
                clash == clash_id(),
                kept@.map_values(|e: MemoryTemp| e@) == before.take(i as int).filter(
                    was_declared(),
                ).map_values(reset),
                twice.deep_view() == before.take(i as int).filter_map(clash),
            decreases self.entries.len() - i,
        {
            let ghost kept_before = kept@.map_values(|e: MemoryTemp| e@);
            let ghost twice_before = twice.deep_view();
            proof {
                before.lemma_take_succ_push(i as int);
                before.take(i as int).lemma_filter_push(before[i as int], was_declared());
                before.lemma_filter_map_take_succ(clash, i as int);
                assert(before[i as int] == self.entries@[i as int]@);
            }
            if self.entries[i].access_time > 1 {
                twice.push(self.entries[i].response.id.clone());
                assert(twice.deep_view() =~= twice_before.push(before[i as int].response.id));
            }
            if self.entries[i].access_time != 0 {
                let mut entry = self.entries[i].clone();
                entry.access_time = 0;
                kept.push(entry);
                assert(kept@.map_values(|e: MemoryTemp| e@) =~= kept_before.push(
                    reset(before[i as int]),
                ));
                assert(before.take(i as int).filter(was_declared()).push(
                    before[i as int],
                ).map_values(reset) =~= before.take(i as int).filter(was_declared()).map_values(
                    reset,
                ).push(reset(before[i as int])));
            }
            i += 1;
        }
        assert(before.take(self.entries.len() as int) =~= before);
        self.entries = kept;
        twice
    }
}

impl Clone for Memory {
    fn clone(&self) -> (r: Self)
        ensures
            r@ == self@,
    {
        let mut back: Vec<MemoryTemp> = Vec::new();
        let mut i: usize = 0;
        while i < self.entries.len()
            invariant
                i <= self.entries.len(),
                back.len() == i,
                forall|j: int| 0 <= j < i ==> back@[j]@ == self.entries@[j]@,
            decreases self.entries.len() - i,
        {
            back.push(self.entries[i].clone());
            i += 1;
        }
        let r = Memory { entries: back };
        assert(r@ =~= self@);
        r
    }
}

} // verus!
