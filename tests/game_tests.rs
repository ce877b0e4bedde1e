use life::cells::{Coord, LiveSet};
use life::game::{GameState, SaveGame, StateChanges, Strategy, DEFAULT_INTERVAL};
use life::rule::compute_step;

fn set_of(cells: &[Coord]) -> LiveSet {
    let mut s = LiveSet::default();
    for c in cells {
        s.insert(*c);
    }
    s
}

fn with_cells(strategy: Strategy, cells: &[Coord]) -> GameState<u32> {
    let mut g = GameState::new(strategy);
    for c in cells {
        g.toggle_cell(*c);
    }
    g
}

/// Runs one background step to completion: hands the snapshot to the rule
/// and the result back through `update`.
fn run_background_step(g: &mut GameState<u32>) {
    let snapshot = g.step().expect("a snapshot for the worker");
    let next = compute_step(&snapshot);
    let tick = g.update(0, Some(next));
    assert!(tick.dispatch.is_none());
}

#[test]
fn new_game_is_empty_and_stopped() {
    let g: GameState<u32> = GameState::new(Strategy::Inline);
    assert!(!g.is_playing());
    assert!(!g.is_busy());
    assert_eq!(g.get_living_count(), 0);
    assert_eq!(g.step_count(), 0);
    assert_eq!(g.population_history(), &vec![0]);
    assert!(g.toggle_history().is_empty());
    assert_eq!(g.get_interval(), DEFAULT_INTERVAL);
    assert_eq!(DEFAULT_INTERVAL, 300_000_000);
}

#[test]
fn toggle_cell_flips_and_records() {
    let mut g: GameState<u32> = GameState::new(Strategy::Inline);
    g.toggle_cell((2, 3));
    assert!(g.living_cells().contains(&(2, 3)));
    assert_eq!(g.get_living_count(), 1);
    g.toggle_cell((2, 3));
    assert!(!g.living_cells().contains(&(2, 3)));
    assert_eq!(g.get_living_count(), 0);
    assert_eq!(g.toggle_history(), &vec![0, 0]);
    let changes = g.update(0, None).changes;
    assert_eq!(changes.cells, Some(vec![]));
}

#[test]
fn toggle_history_records_the_step_count() {
    let mut g = with_cells(Strategy::Inline, &[(0, 0), (1, 0), (0, 1)]);
    g.step();
    g.toggle_cell((5, 5));
    assert_eq!(g.toggle_history(), &vec![0, 0, 0, 1]);
}

#[test]
fn clear_twice_is_clear_once() {
    let mut g = with_cells(Strategy::Inline, &[(0, 1), (1, 1), (2, 1)]);
    g.step();
    g.clear();
    let once = (g.get_living_count(), g.step_count(), g.population_history().clone(), g.toggle_history().clone());
    g.clear();
    let twice = (g.get_living_count(), g.step_count(), g.population_history().clone(), g.toggle_history().clone());
    assert_eq!(once, twice);
    assert_eq!(g.population_history(), &vec![0]);
    assert_eq!(g.step_count(), 0);
    assert!(g.toggle_history().is_empty());
    assert!(g.living_cells().is_empty());
}

#[test]
fn clear_while_busy_waits_for_the_result() {
    let mut g = with_cells(Strategy::Background, &[(0, 1), (1, 1), (2, 1)]);
    let snapshot = g.step().unwrap();
    g.clear();
    g.clear();
    assert_eq!(g.get_living_count(), 3);
    g.update(0, Some(compute_step(&snapshot)));
    assert!(g.living_cells().is_empty());
    assert_eq!(g.population_history(), &vec![0]);
    assert_eq!(g.step_count(), 0);
}

#[test]
fn second_step_while_busy_is_a_no_op() {
    let mut g = with_cells(Strategy::Background, &[(0, 1), (1, 1), (2, 1)]);
    let first = g.step();
    assert_eq!(first, Some(set_of(&[(0, 1), (1, 1), (2, 1)])));
    assert!(g.is_busy());
    assert_eq!(g.step(), None);
    assert!(g.is_busy());
    g.update(0, Some(compute_step(&first.unwrap())));
    assert!(!g.is_busy());
    assert_eq!(g.step_count(), 1);
    // Asking again now starts the next step.
    assert!(g.step().is_some());
}

#[test]
fn inline_step_hands_nothing_out() {
    let mut g = with_cells(Strategy::Inline, &[(0, 1), (1, 1), (2, 1)]);
    assert_eq!(g.step(), None);
    assert!(!g.is_busy());
    assert_eq!(g.living_cells(), &set_of(&[(1, 0), (1, 1), (1, 2)]));
}

#[test]
fn deferred_toggles_apply_in_order() {
    let mut g = with_cells(Strategy::Background, &[(0, 0), (1, 0), (0, 1), (1, 1)]);
    let snapshot = g.step().unwrap();
    g.toggle_cell((7, 7));
    g.toggle_cell((7, 7));
    assert!(g.toggle_history().len() == 4);
    g.update(0, Some(compute_step(&snapshot)));
    assert_eq!(g.living_cells(), &set_of(&[(0, 0), (1, 0), (0, 1), (1, 1)]));
    assert_eq!(g.toggle_history(), &vec![0, 0, 0, 0, 1, 1]);
}

#[test]
fn deferred_actions_keep_their_order() {
    let mut g = with_cells(Strategy::Background, &[(0, 0)]);
    let snapshot = g.step().unwrap();
    g.toggle_cell((3, 3));
    g.clear();
    g.toggle_cell((4, 4));
    g.update(0, Some(compute_step(&snapshot)));
    // The toggle before the clear is undone by it; the one after stays.
    assert_eq!(g.living_cells(), &set_of(&[(4, 4)]));
    assert_eq!(g.toggle_history(), &vec![0]);
    assert_eq!(g.step_count(), 0);
}

#[test]
fn counters_stay_in_lockstep() {
    let mut g = with_cells(Strategy::Background, &[(0, 1), (1, 1), (2, 1), (10, 10), (11, 10), (10, 11)]);
    for n in 1..=5u64 {
        run_background_step(&mut g);
        assert_eq!(g.step_count(), n);
        assert_eq!(g.population_history().len() as u64, g.step_count() + 1);
    }
    let mut h = with_cells(Strategy::Inline, &[(0, 0)]);
    for n in 1..=4u64 {
        h.step();
        assert_eq!(h.step_count(), n);
        assert_eq!(h.population_history().len() as u64, h.step_count() + 1);
    }
    assert_eq!(h.population_history(), &vec![0, 0, 0, 0, 0]);
}

#[test]
fn blinker_end_to_end_inline() {
    let mut g = with_cells(Strategy::Inline, &[(0, 1), (1, 1), (2, 1)]);
    g.step();
    assert_eq!(g.living_cells(), &set_of(&[(1, 0), (1, 1), (1, 2)]));
    g.step();
    assert_eq!(g.living_cells(), &set_of(&[(0, 1), (1, 1), (2, 1)]));
    assert_eq!(g.step_count(), 2);
    assert_eq!(g.population_history(), &vec![0, 3, 3]);
}

#[test]
fn blinker_end_to_end_background() {
    let mut g = with_cells(Strategy::Background, &[(0, 1), (1, 1), (2, 1)]);
    run_background_step(&mut g);
    assert_eq!(g.living_cells(), &set_of(&[(1, 0), (1, 1), (1, 2)]));
    run_background_step(&mut g);
    assert_eq!(g.living_cells(), &set_of(&[(0, 1), (1, 1), (2, 1)]));
    assert_eq!(g.step_count(), 2);
    assert_eq!(g.population_history(), &vec![0, 3, 3]);
}

#[test]
fn toggle_playing_steps_at_once() {
    let mut g = with_cells(Strategy::Inline, &[(0, 1), (1, 1), (2, 1)]);
    assert_eq!(g.toggle_playing(1_000), None);
    assert!(g.is_playing());
    assert_eq!(g.step_count(), 1);
    assert_eq!(g.toggle_playing(2_000), None);
    assert!(!g.is_playing());
    assert_eq!(g.step_count(), 1);
}

#[test]
fn toggle_playing_in_background_hands_out_a_snapshot() {
    let mut g = with_cells(Strategy::Background, &[(0, 1), (1, 1), (2, 1)]);
    let dispatch = g.toggle_playing(1_000);
    assert_eq!(dispatch, Some(set_of(&[(0, 1), (1, 1), (2, 1)])));
    assert!(g.is_playing());
    assert!(g.is_busy());
}

#[test]
fn update_steps_when_the_interval_has_passed() {
    let mut g = with_cells(Strategy::Inline, &[(0, 1), (1, 1), (2, 1)]);
    g.set_interval(100);
    g.toggle_playing(1_000);
    assert_eq!(g.step_count(), 1);
    g.update(1_099, None);
    assert_eq!(g.step_count(), 1);
    let tick = g.update(1_100, None);
    assert_eq!(g.step_count(), 2);
    assert!(tick.dispatch.is_none());
    assert!(tick.changes.cells.is_some());
    // The interval restarts from the tick that stepped.
    g.update(1_150, None);
    assert_eq!(g.step_count(), 2);
    g.update(1_200, None);
    assert_eq!(g.step_count(), 3);
}

#[test]
fn update_in_background_dispatches_then_commits() {
    let mut g = with_cells(Strategy::Background, &[(0, 1), (1, 1), (2, 1)]);
    g.set_interval(100);
    let first = g.toggle_playing(0).unwrap();
    // Due, but a step is outstanding: nothing is handed out.
    let tick = g.update(500, None);
    assert!(tick.dispatch.is_none());
    let tick = g.update(550, Some(compute_step(&first)));
    assert!(tick.dispatch.is_none());
    assert_eq!(g.step_count(), 1);
    let tick = g.update(700, None);
    assert_eq!(tick.dispatch, Some(set_of(&[(1, 0), (1, 1), (1, 2)])));
}

#[test]
fn update_hands_changes_out_once() {
    let mut g: GameState<u32> = GameState::new(Strategy::Inline);
    g.toggle_cell((1, 1));
    let first = g.update(0, None).changes;
    assert_eq!(first.cells, Some(vec![(1, 1)]));
    let second = g.update(0, None).changes;
    assert!(second.cells.is_none());
    assert!(second.view.is_none());
}

#[test]
fn load_save_replaces_cells_and_view() {
    let mut g = with_cells(Strategy::Inline, &[(0, 0)]);
    g.step();
    g.load_save(SaveGame { living_cells: set_of(&[(4, 4), (5, 5)]), view: 42 });
    assert_eq!(g.living_cells(), &set_of(&[(4, 4), (5, 5)]));
    assert_eq!(g.get_living_count(), 2);
    assert_eq!(g.step_count(), 0);
    assert_eq!(g.population_history(), &vec![0]);
    let changes = g.update(0, None).changes;
    assert_eq!(changes.view, Some(42));
    let mut cells = changes.cells.unwrap();
    cells.sort();
    assert_eq!(cells, vec![(4, 4), (5, 5)]);
}

#[test]
fn load_save_while_busy_waits_for_the_result() {
    let mut g = with_cells(Strategy::Background, &[(0, 1), (1, 1), (2, 1)]);
    let snapshot = g.step().unwrap();
    g.load_save(SaveGame { living_cells: set_of(&[(9, 9)]), view: 7 });
    assert_eq!(g.get_living_count(), 3);
    let changes = g.update(0, Some(compute_step(&snapshot))).changes;
    assert_eq!(g.living_cells(), &set_of(&[(9, 9)]));
    assert_eq!(changes.view, Some(7));
    assert_eq!(changes.cells, Some(vec![(9, 9)]));
}

#[test]
fn get_cells_lists_every_live_cell() {
    let g = with_cells(Strategy::Inline, &[(3, 1), (-2, 0), (0, 7)]);
    let mut cells = g.get_cells();
    cells.sort();
    assert_eq!(cells, vec![(-2, 0), (0, 7), (3, 1)]);
}

#[test]
fn speed_up_and_slow_down() {
    let mut g: GameState<u32> = GameState::new(Strategy::Inline);
    g.speed_up();
    assert_eq!(g.get_interval(), 250_000_000);
    g.slow_down();
    assert_eq!(g.get_interval(), 300_000_000);
    g.slow_down();
    assert_eq!(g.get_interval(), 360_000_000);
    g.set_interval(u64::MAX);
    g.slow_down();
    assert_eq!(g.get_interval(), u64::MAX);
    g.set_interval(1);
    g.speed_up();
    assert_eq!(g.get_interval(), 0);
}

#[test]
fn changes_merge_last_write_wins() {
    let mut a: StateChanges<u32> = StateChanges::new();
    a.add_assign(StateChanges { cells: Some(vec![(1, 1)]), view: Some(1) });
    a.add_assign(StateChanges { cells: None, view: Some(2) });
    assert_eq!(a.cells, Some(vec![(1, 1)]));
    assert_eq!(a.view, Some(2));
    a.add_assign(StateChanges { cells: Some(vec![]), view: None });
    assert_eq!(a.cells, Some(vec![]));
    assert_eq!(a.view, Some(2));
}

#[test]
fn strategies_agree() {
    let start: &[Coord] = &[(1, 0), (2, 1), (0, 2), (1, 2), (2, 2), (-5, -5), (-5, -4), (-4, -5)];
    let mut inline = with_cells(Strategy::Inline, start);
    let mut background = with_cells(Strategy::Background, start);
    for _ in 0..6 {
        inline.step();
        run_background_step(&mut background);
        assert_eq!(inline.living_cells(), background.living_cells());
        assert_eq!(inline.step_count(), background.step_count());
        assert_eq!(inline.population_history(), background.population_history());
        assert_eq!(inline.toggle_history(), background.toggle_history());
    }
    assert_eq!(inline.population_history(), &vec![0, 9, 9, 9, 9, 9, 9]);
}
