//! Bookkeeping of the immediate-mode text painter: which entity each draw call reuses, and
//! which drawn texts have gone stale.
use vstd::prelude::*;

verus! {

/// Oldest change age that a change tick comparison distinguishes (`bevy_ecs::MAX_CHANGE_AGE`).
pub const MAX_CHANGE_AGE: u32 = 3_258_167_296;

/// `a - b` modulo 2^32.
pub open spec fn spec_wrapping_sub(a: u32, b: u32) -> u32 {
    if a >= b {
        (a - b) as u32
    } else {
        (a - b + 0x1_0000_0000) as u32
    }
}

/// `a` if it is at most `b`, else `b`.
pub open spec fn spec_min(a: u32, b: u32) -> u32 {
    if a <= b {
        a
    } else {
        b
    }
}

/// Bevy's change-tick order: a change made at `tick` is newer than the system run that ended at
/// `last_run`, seen from the current run `this_run`, when fewer ticks (clamped to
/// `MAX_CHANGE_AGE`) passed since the change than since that run.
pub open spec fn spec_tick_is_newer_than(tick: u32, last_run: u32, this_run: u32) -> bool {
    spec_min(spec_wrapping_sub(this_run, last_run), MAX_CHANGE_AGE) > spec_min(
        spec_wrapping_sub(this_run, tick),
        MAX_CHANGE_AGE,
    )
}

/// `a - b` modulo 2^32, as `u32::wrapping_sub` computes it.
fn wrapping_sub(a: u32, b: u32) -> (r: u32)
    ensures
        r == spec_wrapping_sub(a, b),
{
    if a >= b {
        a - b
    } else {
        u32::MAX - (b - a) + 1
    }
}

/// Bevy's `Tick::is_newer_than` on the three ticks: the clamped wrapping distance from the
/// change to the current run is below the clamped distance from the previous run.
fn tick_is_newer_than(tick: u32, last_run: u32, this_run: u32) -> (r: bool)
    ensures
        r == spec_tick_is_newer_than(tick, last_run, this_run),
{
    let since_change = wrapping_sub(this_run, tick);
    let since_change = if since_change <= MAX_CHANGE_AGE { since_change } else { MAX_CHANGE_AGE };
    let since_run = wrapping_sub(this_run, last_run);
    let since_run = if since_run <= MAX_CHANGE_AGE { since_run } else { MAX_CHANGE_AGE };
    since_run > since_change
}

/// A text drawn at change tick `drawn` is hidden when that tick is not newer than the
/// painter system's previous run `last_run`, seen from the current run `this_run`.
pub fn is_stale_text(drawn: u32, last_run: u32, this_run: u32) -> (hide: bool)
    ensures
        hide == !spec_tick_is_newer_than(drawn, last_run, this_run),
{
    !tick_is_newer_than(drawn, last_run, this_run)
}

/// Law: a text drawn in the current run (`drawn == this_run`) stays visible whenever the
/// current run differs from the previous one.
pub proof fn lemma_text_drawn_this_run_is_visible(last_run: u32, this_run: u32)
    requires
        last_run != this_run,
    ensures
        spec_tick_is_newer_than(this_run, last_run, this_run),
{
}

/// Law: a text last drawn in the previous run (`drawn == last_run`), or at any tick at least
/// as far back, is hidden.
pub proof fn lemma_text_not_redrawn_is_hidden(drawn: u32, last_run: u32, this_run: u32)
    requires
        spec_wrapping_sub(this_run, drawn) >= spec_wrapping_sub(this_run, last_run),
    ensures
        !spec_tick_is_newer_than(drawn, last_run, this_run),
{
}

/// Abstract state of a text painter.
pub struct PainterView {
    pub entities: Seq<u64>,
    pub cursor: nat,
    pub run_tick: Option<u32>,
}

/// Position that a draw call made in run `run_tick` takes: the cursor, or 0 in a new run.
pub open spec fn spec_slot(v: PainterView, run_tick: u32) -> nat {
    if v.run_tick == Some(run_tick) {
        v.cursor
    } else {
        0
    }
}

/// Painter state after one whole draw call in run `run_tick`, where `fresh` is the entity that
/// gets spawned when no spawned entity is free.
pub open spec fn spec_draw(v: PainterView, run_tick: u32, fresh: u64) -> PainterView {
    let slot = spec_slot(v, run_tick);
    PainterView {
        entities: if slot < v.entities.len() {
            v.entities
        } else {
            v.entities.push(fresh)
        },
        cursor: slot + 1,
        run_tick: Some(run_tick),
    }
}

/// Entity that one whole draw call in run `run_tick` draws into.
pub open spec fn spec_drawn_entity(v: PainterView, run_tick: u32, fresh: u64) -> u64 {
    let slot = spec_slot(v, run_tick);
    if slot < v.entities.len() {
        v.entities[slot as int]
    } else {
        fresh
    }
}

/// The entities that a text painter reuses, one per draw call position within a system run.
#[derive(Clone, Debug)]
pub struct TextPainterState {
    /// Entities spawned so far, in the order of the draw calls that first needed them.
    pub entities: Vec<u64>,
    /// Number of draw calls made in the current run.
    pub cursor: usize,
    /// Change tick of the system run that the cursor counts for.
    pub run_tick: Option<u32>,
}

impl View for TextPainterState {
    type V = PainterView;

    open spec fn view(&self) -> PainterView {
        PainterView { entities: self.entities@, cursor: self.cursor as nat, run_tick: self.run_tick }
    }
}

impl TextPainterState {
    /// The cursor never passes the entities spawned so far.
    pub open spec fn wf(&self) -> bool {
        self.cursor <= self.entities@.len()
    }

    /// A painter that has drawn nothing yet.
    pub fn new() -> (s: TextPainterState)
        ensures
            s.wf(),
            s@.entities.len() == 0,
            s@.cursor == 0,
            s@.run_tick is None,
    {
        TextPainterState { entities: Vec::new(), cursor: 0, run_tick: None }
    }

    /// Starts a draw call in the run with change tick `run_tick`. A new run restarts the cursor
    /// at 0. When an entity was already spawned for the cursor position it is returned and the
    /// draw call is complete; otherwise `None` comes back, and the caller spawns an entity and
    /// hands it to `push_spawned`.
    pub fn begin_draw(&mut self, run_tick: u32) -> (r: Option<u64>)
        requires
            old(self).wf(),
        ensures
            final(self).wf(),
            final(self)@.run_tick == Some(run_tick),
            final(self)@.entities == old(self)@.entities,
            spec_slot(old(self)@, run_tick) < old(self)@.entities.len() ==> {
                &&& r == Some(spec_drawn_entity(old(self)@, run_tick, 0))
                &&& final(self)@ == spec_draw(old(self)@, run_tick, 0)
            },
            spec_slot(old(self)@, run_tick) >= old(self)@.entities.len() ==> {
                &&& r is None
                &&& final(self)@.cursor == spec_slot(old(self)@, run_tick)
                &&& final(self)@.cursor == final(self)@.entities.len()
            },
    {
        if self.run_tick != Some(run_tick) {
            self.cursor = 0;
            self.run_tick = Some(run_tick);
        }
        if self.cursor < self.entities.len() {
            let entity = self.entities[self.cursor];
            self.cursor = self.cursor + 1;
            Some(entity)
        } else {
            None
        }
    }

    /// Records the entity spawned for a draw call for which `begin_draw` returned `None`,
    /// completing that draw call.
    pub fn push_spawned(&mut self, entity: u64)
        requires
            old(self).wf(),
            old(self)@.cursor == old(self)@.entities.len(),
            old(self)@.entities.len() < usize::MAX,
        ensures
            final(self).wf(),
            final(self)@.entities == old(self)@.entities.push(entity),
            final(self)@.cursor == old(self)@.cursor + 1,
            final(self)@.run_tick == old(self)@.run_tick,
            old(self)@.run_tick is Some ==> final(self)@ == spec_draw(
                old(self)@,
                old(self)@.run_tick->0,
                entity,
            ),
    {
        self.entities.push(entity);
        self.cursor = self.cursor + 1;
    }
}

/// Law: within one system run the draw calls take consecutive positions, each draws into the
/// entity at its position, and spawned entities are kept, so later runs reuse them in order.
pub proof fn lemma_draw_takes_next_slot(v: PainterView, run_tick: u32, fresh: u64)
    requires
        v.cursor <= v.entities.len(),
    ensures
        ({
            let w = spec_draw(v, run_tick, fresh);
            &&& spec_slot(w, run_tick) == spec_slot(v, run_tick) + 1
            &&& w.entities[spec_slot(v, run_tick) as int] == spec_drawn_entity(v, run_tick, fresh)
            &&& v.entities.is_prefix_of(w.entities)
            &&& w.cursor <= w.entities.len()
        }),
{
}

/// Painter state after the draw calls of one run, made in order, where `fresh[j]` is the
/// entity that draw call `j` spawns if it needs one.
pub open spec fn spec_draw_all(v: PainterView, run_tick: u32, fresh: Seq<u64>) -> PainterView
    decreases fresh.len(),
{
    if fresh.len() == 0 {
        v
    } else {
        spec_draw(spec_draw_all(v, run_tick, fresh.drop_last()), run_tick, fresh.last())
    }
}

/// Law: the draw calls of one run take consecutive positions from the run's first slot; the
/// `j`-th of them draws into the entity kept at position `first + j`, and no spawned entity is
/// ever dropped or replaced. Afterwards the painter keeps as many entities as it had or as the
/// run reached, whichever is more, and a run that stays within the kept entities spawns none.
pub proof fn lemma_run_draws_in_order(v: PainterView, run_tick: u32, fresh: Seq<u64>, j: int)
    requires
        v.cursor <= v.entities.len(),
        fresh.len() > 0,
        0 <= j < fresh.len(),
    ensures
        ({
            let w = spec_draw_all(v, run_tick, fresh);
            &&& w.run_tick == Some(run_tick)
            &&& w.cursor == spec_slot(v, run_tick) + fresh.len()
            &&& w.cursor <= w.entities.len()
            &&& v.entities.is_prefix_of(w.entities)
            &&& w.entities.len() == if spec_slot(v, run_tick) + fresh.len() <= v.entities.len() {
                v.entities.len() as int
            } else {
                spec_slot(v, run_tick) + fresh.len() as int
            }
            &&& spec_slot(v, run_tick) + fresh.len() <= v.entities.len() ==> w.entities
                == v.entities
            &&& w.entities[spec_slot(v, run_tick) + j] == spec_drawn_entity(
                spec_draw_all(v, run_tick, fresh.take(j)),
                run_tick,
                fresh[j],
            )
        }),
    decreases fresh.len(),
{
    let n = fresh.len() as int;
    let prev = fresh.drop_last();
    let u = spec_draw_all(v, run_tick, prev);
    if n == 1 {
        assert(prev =~= Seq::<u64>::empty());
        assert(fresh.take(0) =~= Seq::<u64>::empty());
        lemma_draw_takes_next_slot(v, run_tick, fresh.last());
    } else {
        let jj = if j < n - 1 { j } else { 0 };
        lemma_run_draws_in_order(v, run_tick, prev, jj);
        lemma_draw_takes_next_slot(u, run_tick, fresh.last());
        let w = spec_draw(u, run_tick, fresh.last());
        assert(spec_slot(u, run_tick) == spec_slot(v, run_tick) + n - 1);
        assert(v.entities.is_prefix_of(w.entities)) by {
            assert forall|k: int| 0 <= k < v.entities.len() implies v.entities[k] == w.entities[k] by {
                assert(v.entities[k] == u.entities[k]);
                assert(u.entities[k] == w.entities[k]);
            }
        }
        if j < n - 1 {
            assert(prev.take(j) =~= fresh.take(j));
            assert(prev[j] == fresh[j]);
            assert(u.entities[spec_slot(v, run_tick) + j] == w.entities[spec_slot(v, run_tick) + j]);
        } else {
            assert(fresh.take(j) =~= prev);
        }
    }
}

/// Law: the first draw call of a new run draws into the first entity ever spawned.
pub proof fn lemma_new_run_restarts(v: PainterView, run_tick: u32, fresh: u64)
    requires
        v.run_tick != Some(run_tick),
        v.entities.len() > 0,
    ensures
        spec_drawn_entity(v, run_tick, fresh) == v.entities[0],
        spec_slot(spec_draw(v, run_tick, fresh), run_tick) == 1,
{
}

} // verus!
