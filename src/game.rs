//! The simulation facade: the one object callers drive.
//!
//! It owns the live cells, the auto-play timer, the queue of inputs deferred
//! while a step is outstanding, the statistics, and the changes not yet
//! handed to the renderer. Stepping goes one of two ways, chosen when the
//! facade is made: inline, where `step` runs the rule at once, or in the
//! background, where `step` hands out a snapshot for a worker and the
//! result comes back through `update`. At most one step is outstanding at a
//! time, and inputs made meanwhile are applied in order once it completes.
//!
//! `P` is the payload of a loaded save that the facade carries without
//! reading it (the view parameters: pan offset and zoom); it reaches the
//! renderer through `StateChanges::view`.

use vstd::prelude::*;

use crate::cells::{
    empty_set, set_clone, set_contains, set_insert, set_items, set_len, set_remove, Coord, LiveSet,
};
use crate::rule::{compute_step, next_generation};
use crate::timer::LoopState;

use std::collections::VecDeque;

verus! {

/// An input as the model sees it.
pub enum PendingAction<P> {
    Clear,
    Toggle(Coord),
    Load(Set<Coord>, P),
}

/// The state of the facade, as a mathematical value.
#[verifier::ext_equal]
pub struct GameModel<P> {
    pub cells: Set<Coord>,
    /// Steps run inline rather than on a worker.
    pub inline: bool,
    /// A step is outstanding.
    pub busy: bool,
    pub queue: Seq<PendingAction<P>>,
    pub loop_state: LoopState,
    pub interval: u64,
    pub step_count: u64,
    pub history: Seq<usize>,
    pub toggles: Seq<u64>,
    pub changed_cells: Option<Set<Coord>>,
    pub changed_view: Option<P>,
}

impl<P> GameModel<P> {
    /// The invariant: the population history has one entry per completed
    /// step plus its seed, inputs wait only while a step is outstanding, and
    /// nothing is outstanding when steps run inline.
    pub open spec fn wf(self) -> bool {
        &&& self.history.len() == self.step_count + 1
        &&& !self.busy ==> self.queue.len() == 0
        &&& self.inline ==> !self.busy
    }

    /// Empties the grid and resets the statistics.
    pub open spec fn cleared(self) -> Self {
        GameModel {
            cells: Set::empty(),
            step_count: 0,
            history: seq![0usize],
            toggles: Seq::empty(),
            changed_cells: Some(Set::empty()),
            ..self
        }
    }

    /// The cells with `c` flipped.
    pub open spec fn flip(cells: Set<Coord>, c: Coord) -> Set<Coord> {
        if cells.contains(c) {
            cells.remove(c)
        } else {
            cells.insert(c)
        }
    }

    /// Flips the cell `c` and records the toggle at the current step.
    pub open spec fn toggled(self, c: Coord) -> Self {
        GameModel {
            cells: Self::flip(self.cells, c),
            toggles: self.toggles.push(self.step_count),
            changed_cells: Some(Self::flip(self.cells, c)),
            ..self
        }
    }

    /// Clears, then takes the cells and view of a save.
    pub open spec fn loaded(self, cells: Set<Coord>, view: P) -> Self {
        GameModel {
            cells: cells,
            changed_cells: Some(cells),
            changed_view: Some(view),
            ..self.cleared()
        }
    }

    /// An input applied at once.
    pub open spec fn apply(self, a: PendingAction<P>) -> Self {
        match a {
            PendingAction::Clear => self.cleared(),
            PendingAction::Toggle(c) => self.toggled(c),
            PendingAction::Load(cells, view) => self.loaded(cells, view),
        }
    }

    /// Inputs applied at once, first to last.
    pub open spec fn apply_all(self, q: Seq<PendingAction<P>>) -> Self
        decreases q.len(),
    {
        if q.len() == 0 {
            self
        } else {
            self.apply(q[0]).apply_all(q.drop_first())
        }
    }

    /// An input as submitted: deferred while a step is outstanding, applied
    /// at once otherwise.
    pub open spec fn submit(self, a: PendingAction<P>) -> Self {
        if self.busy {
            GameModel { queue: self.queue.push(a), ..self }
        } else {
            self.apply(a)
        }
    }

    /// The deferred inputs applied in order, leaving the queue empty.
    pub open spec fn drained(self) -> Self {
        GameModel { queue: Seq::empty(), ..self }.apply_all(self.queue)
    }

    /// The result `next` of a step taken in, before the deferred inputs
    /// are applied: it becomes the live cells and the statistics count one
    /// more generation.
    pub open spec fn with_result(self, next: Set<Coord>) -> Self {
        GameModel {
            cells: next,
            busy: false,
            queue: Seq::empty(),
            step_count: (self.step_count + 1) as u64,
            history: self.history.push(next.len() as usize),
            changed_cells: Some(next),
            ..self
        }
    }

    /// The result `next` of the outstanding step taken in, then the
    /// deferred inputs applied in order.
    pub open spec fn committed(self, next: Set<Coord>) -> Self {
        self.with_result(next).apply_all(self.queue)
    }

    /// The state after a request for a step: nothing changes while one is
    /// outstanding; inline, the next generation is taken in at once; in the
    /// background, the step becomes outstanding.
    pub open spec fn stepped(self) -> Self {
        if self.busy {
            self
        } else if self.inline {
            self.committed(next_generation(self.cells))
        } else {
            GameModel { busy: true, ..self }
        }
    }

    /// Auto-play switched: stopping changes nothing else; starting requests
    /// a step at once and starts the interval at `now`.
    pub open spec fn play_toggled(self, now: u64) -> Self {
        if self.loop_state.playing() {
            GameModel { loop_state: LoopState::Stopped, ..self }
        } else {
            GameModel { loop_state: LoopState::Playing { last_update: now }, ..self.stepped() }
        }
    }

    /// One tick at `now`, before the changes are handed out: the timer is
    /// polled and, when a step is due, one is requested; then `ready`, the
    /// result of the outstanding step if it has come back, is taken in.
    pub open spec fn ticked(self, now: u64, ready: Option<Set<Coord>>) -> Self {
        let due = self.loop_state.due(now, self.interval);
        let timed = if due {
            GameModel { loop_state: LoopState::Playing { last_update: now }, ..self }.stepped()
        } else {
            self
        };
        match ready {
            Some(next) => timed.committed(next),
            None => timed,
        }
    }

    /// The changes handed out.
    pub open spec fn changes_taken(self) -> Self {
        GameModel { changed_cells: None, changed_view: None, ..self }
    }

    /// The state of a new facade.
    pub open spec fn initial(inline: bool) -> Self {
        GameModel {
            cells: Set::empty(),
            inline: inline,
            busy: false,
            queue: Seq::empty(),
            loop_state: LoopState::Stopped,
            interval: DEFAULT_INTERVAL,
            step_count: 0,
            history: seq![0usize],
            toggles: Seq::empty(),
            changed_cells: None,
            changed_view: None,
        }
    }

    /// Whether a request for a step hands a snapshot to a worker.
    pub open spec fn dispatches(self) -> bool {
        !self.busy && !self.inline
    }
}

/// Applying inputs keeps the invariant, and leaves alone whether a step is
/// outstanding, the queue, the strategy and the timer.
pub proof fn lemma_apply_all_keeps<P>(m: GameModel<P>, q: Seq<PendingAction<P>>)
    requires
        m.history.len() == m.step_count + 1,
    ensures
        m.apply_all(q).history.len() == m.apply_all(q).step_count + 1,
        m.apply_all(q).busy == m.busy,
        m.apply_all(q).queue == m.queue,
        m.apply_all(q).inline == m.inline,
        m.apply_all(q).loop_state == m.loop_state,
        m.apply_all(q).interval == m.interval,
    decreases q.len(),
{
    if q.len() > 0 {
        lemma_apply_all_keeps(m.apply(q[0]), q.drop_first());
    }
}

/// A completed step keeps the invariant.
pub proof fn lemma_committed_wf<P>(m: GameModel<P>, next: Set<Coord>)
    requires
        m.wf(),
        m.history.len() < usize::MAX,
    ensures
        m.committed(next).wf(),
        !m.committed(next).busy,
        m.committed(next).queue.len() == 0,
{
    let base = m.with_result(next);
    lemma_apply_all_keeps(base, m.queue);
}

/// A request for a step keeps the invariant.
pub proof fn lemma_stepped_wf<P>(m: GameModel<P>)
    requires
        m.wf(),
        m.history.len() < usize::MAX,
    ensures
        m.stepped().wf(),
{
    if !m.busy && m.inline {
        lemma_committed_wf(m, next_generation(m.cells));
    }
}

/// A saved game: the live cells and the view parameters.
pub struct SaveGame<P> {
    pub living_cells: LiveSet,
    pub view: P,
}

/// An input that arrived while a step was outstanding.
pub enum QueueAction<P> {
    Clear,
    Toggle(Coord),
    Load(SaveGame<P>),
}

/// A queue of inputs as the model sees it.
pub open spec fn actions_model<P>(q: Seq<QueueAction<P>>) -> Seq<PendingAction<P>> {
    q.map_values(|a: QueueAction<P>| a.model())
}

impl<P> QueueAction<P> {
    pub open spec fn model(self) -> PendingAction<P> {
        match self {
            QueueAction::Clear => PendingAction::Clear,
            QueueAction::Toggle(c) => PendingAction::Toggle(c),
            QueueAction::Load(save) => PendingAction::Load(save.living_cells@, save.view),
        }
    }
}

/// What changed for the renderer since it last asked. An absent field
/// means unchanged.
pub struct StateChanges<P> {
    /// Every live cell, in no particular order.
    pub cells: Option<Vec<Coord>>,
    pub view: Option<P>,
}

/// The cells of a list of changed cells, as a set.
pub open spec fn cells_model(cells: Option<Vec<Coord>>) -> Option<Set<Coord>> {
    match cells {
        Some(v) => Some(v@.to_set()),
        None => None,
    }
}

impl<P> StateChanges<P> {
    pub fn new() -> (r: Self)
        ensures
            r.cells is None,
            r.view is None,
    {
        StateChanges { cells: None, view: None }
    }

    /// Merges later changes into these: each field that `other` sets
    /// replaces the one here.
    pub fn add_assign(&mut self, other: StateChanges<P>)
        ensures
            final(self).cells == (if other.cells is Some {
                other.cells
            } else {
                old(self).cells
            }),
            final(self).view == (if other.view is Some {
                other.view
            } else {
                old(self).view
            }),
    {
        if other.cells.is_some() {
            self.cells = other.cells;
        }
        if other.view.is_some() {
            self.view = other.view;
        }
    }
}

/// What one tick of `update` hands back.
pub struct Tick<P> {
    /// A snapshot for the worker, when the tick started a step in the
    /// background.
    pub dispatch: Option<LiveSet>,
    /// What changed for the renderer since the last tick.
    pub changes: StateChanges<P>,
}

/// The cells of an optional set, as a set.
pub open spec fn ready_model(ready: Option<LiveSet>) -> Option<Set<Coord>> {
    match ready {
        Some(s) => Some(s@),
        None => None,
    }
}

/// How steps are run.
#[derive(Clone, Copy, Debug, PartialEq, Eq, Structural)]
pub enum Strategy {
    /// On the caller's thread of control, at once.
    Inline,
    /// On a worker: `step` hands out a snapshot and `update` takes the
    /// result back.
    Background,
}

/// The interval between automatic steps at first: 300 ms, in nanoseconds.
pub const DEFAULT_INTERVAL: u64 = 300_000_000;

pub struct GameState<P> {
    /// The live cells.
    living_cells: LiveSet,
    /// Timing and play information.
    loop_state: LoopState,
    /// The interval between automatic steps, in nanoseconds.
    interval: u64,
    /// Inputs made while a step was outstanding, oldest first.
    input_queue: VecDeque<QueueAction<P>>,
    strategy: Strategy,
    /// A step is outstanding.
    computing: bool,
    step_count: u64,
    /// The population after each completed step, after a zero seed.
    living_count_history: Vec<usize>,
    /// The step count at each manual toggle of a cell.
    toggle_record: Vec<u64>,
    /// Changes not yet handed to the renderer.
    changes: StateChanges<P>,
}

impl<P> View for GameState<P> {
    type V = GameModel<P>;

    closed spec fn view(&self) -> GameModel<P> {
        GameModel {
            cells: self.living_cells@,
            inline: self.strategy == Strategy::Inline,
            busy: self.computing,
            queue: actions_model(self.input_queue@),
            loop_state: self.loop_state,
            interval: self.interval,
            step_count: self.step_count,
            history: self.living_count_history@,
            toggles: self.toggle_record@,
            changed_cells: cells_model(self.changes.cells),
            changed_view: self.changes.view,
        }
    }
}

impl<P> GameState<P> {
    /// Empties the grid and resets the statistics.
    fn clear_action(&mut self)
        ensures
            final(self)@ == old(self)@.cleared(),
    {
        self.living_cells.clear();
        self.step_count = 0;
        self.living_count_history = vec![0];
        self.changes.cells = Some(Vec::new());
        self.toggle_record.clear();
        proof {
            assert(Seq::<Coord>::empty().to_set() =~= Set::<Coord>::empty());
            assert(self.living_count_history@ =~= seq![0usize]);
            assert(self@ =~= old(self)@.cleared());
        }
    }

    /// Flips the cell `cell_pos` and records the toggle.
    fn left_action(&mut self, cell_pos: Coord)
        ensures
            final(self)@ == old(self)@.toggled(cell_pos),
    {
        if set_contains(&self.living_cells, &cell_pos) {
            set_remove(&mut self.living_cells, &cell_pos);
        } else {
            set_insert(&mut self.living_cells, cell_pos);
        }
        let cells = set_items(&self.living_cells);
        self.toggle_record.push(self.step_count);
        self.changes.cells = Some(cells);
        proof {
            assert(self@ =~= old(self)@.toggled(cell_pos));
        }
    }

    /// Clears, then takes the cells and view of `save`.
    fn load_action(&mut self, save: SaveGame<P>)
        ensures
            final(self)@ == old(self)@.loaded(save.living_cells@, save.view),
    {
        self.clear_action();
        self.living_cells = save.living_cells;
        self.changes.cells = Some(set_items(&self.living_cells));
        self.changes.view = Some(save.view);
        proof {
            assert(self@ =~= old(self)@.loaded(save.living_cells@, save.view));
        }
    }

    /// Applies one input at once.
    fn apply_action(&mut self, action: QueueAction<P>)
        ensures
            final(self)@ == old(self)@.apply(action.model()),
    {
        match action {
            QueueAction::Clear => self.clear_action(),
            QueueAction::Toggle(cell) => self.left_action(cell),
            QueueAction::Load(save) => self.load_action(save),
        }
    }

    /// Applies the deferred inputs in the order they arrived, leaving the
    /// queue empty.
    fn resolve_queue(&mut self)
        ensures
            final(self)@ == old(self)@.drained(),
    {
        let mut pending: VecDeque<QueueAction<P>> = VecDeque::new();
        core::mem::swap(&mut self.input_queue, &mut pending);
        let ghost target = old(self)@.drained();
        proof {
            assert(actions_model(self.input_queue@) =~= Seq::empty());
            assert(self@ =~= GameModel { queue: Seq::empty(), ..old(self)@ });
        }
        while pending.len() > 0
            invariant
                self@.queue == Seq::<PendingAction<P>>::empty(),
                self@.apply_all(actions_model(pending@)) == target,
            decreases pending@.len(),
        {
            let ghost before = actions_model(pending@);
            match pending.pop_front() {
                Some(action) => {
                    proof {
                        assert(actions_model(pending@) =~= before.drop_first());
                    }
                    self.apply_action(action);
                },
                None => {},
            }
        }
        proof {
            assert(actions_model(pending@) =~= Seq::empty());
        }
    }

    /// Takes in `next`, the result of a step: it becomes the
    /// live cells, the statistics count one more generation, and the inputs
    /// deferred meanwhile are applied in the order they arrived.
    fn commit(&mut self, next: LiveSet)
        requires
            old(self)@.wf(),
        ensures
            final(self)@ == old(self)@.committed(next@),
            old(self)@.history.len() < usize::MAX,
    {
        let ghost next_cells = next@;
        let population = set_len(&next);
        let cells = set_items(&next);
        self.living_cells = next;
        self.computing = false;
        self.changes.cells = Some(cells);
        self.living_count_history.push(population);
        assert(self.living_count_history.len() == self.step_count + 2);
        self.step_count = self.step_count + 1;
        proof {
            assert(old(self)@.with_result(next_cells) =~= GameModel { queue: Seq::empty(), ..self@ });
        }
        self.resolve_queue();
    }

    /// A facade with no live cells, auto-play stopped, the default
    /// interval, and steps run as `strategy` says.
    pub fn new(strategy: Strategy) -> (r: Self)
        ensures
            r@ == GameModel::<P>::initial(strategy == Strategy::Inline),
            r@.wf(),
    {
        let r = GameState {
            living_cells: empty_set(),
            loop_state: LoopState::new(),
            interval: DEFAULT_INTERVAL,
            input_queue: VecDeque::new(),
            strategy: strategy,
            computing: false,
            step_count: 0,
            living_count_history: vec![0],
            toggle_record: Vec::new(),
            changes: StateChanges::new(),
        };
        proof {
            assert(actions_model(r.input_queue@) =~= Seq::empty());
            assert(r.living_count_history@ =~= seq![0usize]);
            assert(r@ =~= GameModel::<P>::initial(strategy == Strategy::Inline));
        }
        r
    }

    pub fn is_playing(&self) -> (r: bool)
        ensures
            r == self@.loop_state.playing(),
    {
        self.loop_state.is_playing()
    }

    /// The current number of living cells.
    pub fn get_living_count(&self) -> (r: usize)
        ensures
            r == self@.cells.len(),
    {
        set_len(&self.living_cells)
    }

    /// The interval between automatic steps, in nanoseconds.
    pub fn get_interval(&self) -> (r: u64)
        ensures
            r == self@.interval,
    {
        self.interval
    }

    pub fn set_interval(&mut self, to: u64)
        ensures
            final(self)@ == (GameModel { interval: to, ..old(self)@ }),
    {
        self.interval = to;
        proof {
            assert(self@ =~= (GameModel { interval: to, ..old(self)@ }));
        }
    }

    /// Whether a step is outstanding.
    pub fn is_busy(&self) -> (r: bool)
        ensures
            r == self@.busy,
    {
        self.computing
    }

    /// The number of completed steps since the last clear.
    pub fn step_count(&self) -> (r: u64)
        ensures
            r == self@.step_count,
    {
        self.step_count
    }

    /// The population after each completed step, after a zero seed.
    pub fn population_history(&self) -> (r: &Vec<usize>)
        ensures
            r@ == self@.history,
    {
        &self.living_count_history
    }

    /// The step count at each manual toggle of a cell.
    pub fn toggle_history(&self) -> (r: &Vec<u64>)
        ensures
            r@ == self@.toggles,
    {
        &self.toggle_record
    }

    pub fn living_cells(&self) -> (r: &LiveSet)
        ensures
            r@ == self@.cells,
    {
        &self.living_cells
    }

    /// Every live cell once, in no particular order.
    pub fn get_cells(&self) -> (r: Vec<Coord>)
        ensures
            r@.to_set() == self@.cells,
            r@.no_duplicates(),
    {
        set_items(&self.living_cells)
    }

    /// Requests a step. While one is outstanding this does nothing and
    /// returns `None`: the caller asks again later. Inline, the next
    /// generation is taken in at once. In the background, the step becomes
    /// outstanding and a snapshot of the live cells is returned, for the
    /// worker to run the rule on.
    pub fn step(&mut self) -> (dispatch: Option<LiveSet>)
        requires
            old(self)@.wf(),
        ensures
            final(self)@ == old(self)@.stepped(),
            final(self)@.wf(),
            match dispatch {
                Some(snapshot) => old(self)@.dispatches() && snapshot@ == old(self)@.cells,
                None => !old(self)@.dispatches(),
            },
    {
        if self.computing {
            return None;
        }
        match self.strategy {
            Strategy::Inline => {
                let next = compute_step(&self.living_cells);
                self.commit(next);
                proof {
                    lemma_stepped_wf(old(self)@);
                }
                None
            },
            Strategy::Background => {
                let snapshot = set_clone(&self.living_cells);
                self.computing = true;
                proof {
                    assert(self@ =~= old(self)@.stepped());
                }
                Some(snapshot)
            },
        }
    }

    /// Adds `action` to the queue of deferred inputs.
    fn defer(&mut self, action: QueueAction<P>)
        ensures
            final(self)@ == (GameModel { queue: old(self)@.queue.push(action.model()), ..old(self)@ }),
    {
        let ghost a = action.model();
        self.input_queue.push_back(action);
        proof {
            assert(actions_model(self.input_queue@) =~= old(self)@.queue.push(a));
            assert(self@ =~= (GameModel { queue: old(self)@.queue.push(a), ..old(self)@ }));
        }
    }

    /// Empties the grid and resets the statistics; deferred while a step
    /// is outstanding.
    pub fn clear(&mut self)
        requires
            old(self)@.wf(),
        ensures
            final(self)@ == old(self)@.submit(PendingAction::Clear),
            final(self)@.wf(),
    {
        if self.computing {
            self.defer(QueueAction::Clear);
        } else {
            self.clear_action();
        }
    }

    /// Flips the cell `cell` and records the toggle; deferred while a step
    /// is outstanding.
    pub fn toggle_cell(&mut self, cell: Coord)
        requires
            old(self)@.wf(),
        ensures
            final(self)@ == old(self)@.submit(PendingAction::Toggle(cell)),
            final(self)@.wf(),
    {
        if self.computing {
            self.defer(QueueAction::Toggle(cell));
        } else {
            self.left_action(cell);
        }
    }

    /// Clears, then takes the cells and view of `save`; deferred while a
    /// step is outstanding.
    pub fn load_save(&mut self, save: SaveGame<P>)
        requires
            old(self)@.wf(),
        ensures
            final(self)@ == old(self)@.submit(PendingAction::Load(save.living_cells@, save.view)),
            final(self)@.wf(),
    {
        if self.computing {
            self.defer(QueueAction::Load(save));
        } else {
            self.load_action(save);
        }
    }

    /// Switches auto-play at `now`. Stopping changes nothing else. Starting
    /// requests a step at once, as `step` does, and returns what `step`
    /// returns.
    pub fn toggle_playing(&mut self, now: u64) -> (dispatch: Option<LiveSet>)
        requires
            old(self)@.wf(),
        ensures
            final(self)@ == old(self)@.play_toggled(now),
            final(self)@.wf(),
            match dispatch {
                Some(snapshot) => !old(self)@.loop_state.playing() && old(self)@.dispatches()
                    && snapshot@ == old(self)@.cells,
                None => old(self)@.loop_state.playing() || !old(self)@.dispatches(),
            },
    {
        if self.loop_state.is_playing() {
            self.loop_state = LoopState::Stopped;
            proof {
                assert(self@ =~= old(self)@.play_toggled(now));
            }
            None
        } else {
            let dispatch = self.step();
            self.loop_state = LoopState::Playing { last_update: now };
            proof {
                assert(self@ =~= old(self)@.play_toggled(now));
            }
            dispatch
        }
    }

    /// Hands out the changes gathered since the last call, leaving none.
    fn take_changes(&mut self) -> (r: StateChanges<P>)
        ensures
            final(self)@ == old(self)@.changes_taken(),
            cells_model(r.cells) == old(self)@.changed_cells,
            r.view == old(self)@.changed_view,
    {
        let mut taken = StateChanges::new();
        core::mem::swap(&mut self.changes, &mut taken);
        proof {
            assert(self@ =~= old(self)@.changes_taken());
        }
        taken
    }

    /// One tick at `now`. The timer is polled and, when a step is due, one
    /// is requested as `step` does. Then `ready`, the result of the
    /// outstanding step if the worker has sent it back, is taken in: it
    /// becomes the live cells, the statistics count one more generation,
    /// and the inputs deferred meanwhile are applied in the order they
    /// arrived. Last, the changes gathered since the previous tick are
    /// handed out.
    pub fn update(&mut self, now: u64, ready: Option<LiveSet>) -> (r: Tick<P>)
        requires
            old(self)@.wf(),
            ready is Some ==> old(self)@.busy,
        ensures
            final(self)@ == old(self)@.ticked(now, ready_model(ready)).changes_taken(),
            final(self)@.wf(),
            cells_model(r.changes.cells) == old(self)@.ticked(now, ready_model(ready)).changed_cells,
            r.changes.view == old(self)@.ticked(now, ready_model(ready)).changed_view,
            match r.dispatch {
                Some(snapshot) => old(self)@.loop_state.due(now, old(self)@.interval)
                    && old(self)@.dispatches() && snapshot@ == old(self)@.cells,
                None => !(old(self)@.loop_state.due(now, old(self)@.interval)
                    && old(self)@.dispatches()),
            },
    {
        let ghost ready_cells = ready_model(ready);
        let should_step = self.loop_state.update(now, self.interval);
        let mut dispatch: Option<LiveSet> = None;
        if should_step {
            dispatch = self.step();
        }
        proof {
            if should_step {
                assert(self@ == (GameModel {
                    loop_state: LoopState::Playing { last_update: now },
                    ..old(self)@
                }).stepped());
            } else {
                assert(self@ =~= old(self)@);
            }
        }
        match ready {
            Some(next) => {
                self.commit(next);
                proof {
                    lemma_committed_wf(
                        (if should_step {
                            (GameModel {
                                loop_state: LoopState::Playing { last_update: now },
                                ..old(self)@
                            }).stepped()
                        } else {
                            old(self)@
                        }),
                        ready_cells->0,
                    );
                }
            },
            None => {},
        }
        let changes = self.take_changes();
        Tick { dispatch, changes }
    }

    /// Shortens the interval between automatic steps by a sixth.
    pub fn speed_up(&mut self)
        ensures
            final(self)@ == (GameModel { interval: (old(self)@.interval * 5 / 6) as u64, ..old(self)@ }),
    {
        let shorter = (self.interval as u128 * 5 / 6) as u64;
        self.set_interval(shorter);
    }

    /// Lengthens the interval between automatic steps by a fifth, up to the
    /// largest interval that can be held.
    pub fn slow_down(&mut self)
        ensures
            final(self)@ == (GameModel {
                interval: (if old(self)@.interval * 6 / 5 > u64::MAX {
                    u64::MAX as int
                } else {
                    old(self)@.interval * 6 / 5
                }) as u64,
                ..old(self)@
            }),
    {
        let longer = self.interval as u128 * 6 / 5;
        let capped = if longer > u64::MAX as u128 {
            u64::MAX
        } else {
            longer as u64
        };
        self.set_interval(capped);
    }
}

} // verus!
