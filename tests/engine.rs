use gpu_life::brush::{draw_life_on, paint, CellPos};
use gpu_life::engine::GameOfLife;
use gpu_life::life::simulate_into;
use gpu_life::random::rand_grid;
use gpu_life::schedule::{DispatchParams, Phase, PingPong, Slot};
use gpu_life::texture::{colorize, Rgba8};

const RED: Rgba8 = Rgba8 { r: 255, g: 0, b: 0, a: 255 };
const CLEAR: Rgba8 = Rgba8 { r: 0, g: 0, b: 0, a: 0 };

fn grid_with(width: u32, height: u32, alive: &[(u32, u32)]) -> Vec<u32> {
    let mut g = vec![0u32; (width * height) as usize];
    for &(x, y) in alive {
        g[(y * width + x) as usize] = 1;
    }
    g
}

fn alive_cells(g: &[u32], width: u32) -> Vec<(u32, u32)> {
    let mut cells = Vec::new();
    for (i, &c) in g.iter().enumerate() {
        if c == 1 {
            cells.push((i as u32 % width, i as u32 / width));
        }
    }
    cells
}

fn glider_at(x: u32, y: u32) -> Vec<(u32, u32)> {
    vec![(x + 1, y), (x + 2, y + 1), (x, y + 2), (x + 1, y + 2), (x + 2, y + 2)]
}

#[test]
fn glider_moves_one_cell_diagonally_in_four_steps() {
    let mut engine = GameOfLife::with_cells(128, 128, grid_with(128, 128, &glider_at(60, 40)));
    for _ in 0..4 {
        engine.compute(RED, CLEAR);
    }
    assert_eq!(engine.steps(), 4);
    let mut expected = glider_at(61, 41);
    expected.sort_by_key(|&(x, y)| (y, x));
    assert_eq!(alive_cells(engine.current_cells(), 128), expected);
}

#[test]
fn texture_shows_the_latest_generation() {
    let mut engine = GameOfLife::with_cells(16, 8, grid_with(16, 8, &[(2, 3), (3, 3), (4, 3)]));
    engine.compute(RED, CLEAR);
    let cells = engine.current_cells().clone();
    assert_eq!(alive_cells(&cells, 16), vec![(3, 2), (3, 3), (3, 4)]);
    let image = engine.color_image();
    assert_eq!(image.len(), 128);
    for i in 0..128 {
        let expected = if cells[i] == 1 { RED } else { CLEAR };
        assert_eq!(image[i], expected);
    }
}

#[test]
fn step_matches_reference_on_snapshot() {
    let mut engine = GameOfLife::new(32, 16);
    for _ in 0..3 {
        let before_slot = engine.authoritative_slot();
        let snapshot = engine.current_cells().clone();
        let mut reference = vec![0u32; snapshot.len()];
        simulate_into(&snapshot, &mut reference, 32, 16);
        engine.compute(RED, CLEAR);
        assert_eq!(engine.current_cells(), &reference);
        assert_eq!(engine.buffer(before_slot), &snapshot);
    }
}

#[test]
fn authoritative_buffer_alternates_with_step_parity() {
    let mut engine = GameOfLife::new(16, 16);
    assert_eq!(engine.authoritative_slot(), Slot::B);
    for n in 1..=6u64 {
        engine.draw_life(CellPos { x: 5, y: 5 }, 3);
        engine.compute(RED, CLEAR);
        engine.draw_life(CellPos { x: 9, y: 2 }, 1);
        assert_eq!(engine.steps(), n);
        let expected = if n % 2 == 1 { Slot::A } else { Slot::B };
        assert_eq!(engine.authoritative_slot(), expected);
    }
}

#[test]
fn plan_flags_follow_step_parity() {
    let mut pp = PingPong::new();
    let (sim, color) = pp.plan(1u8, 0u8);
    assert_eq!(sim.phase, Phase::Simulate);
    assert_eq!(color.phase, Phase::Colorize);
    assert_eq!(sim.phase.selector(), 0);
    assert_eq!(color.phase.selector(), 1);
    assert!(sim.swap_read_order);
    assert!(!color.swap_read_order);
    assert_eq!((sim.life_color, sim.dead_color), (1, 0));
    assert_eq!(pp.authoritative(), Slot::B);
    pp.advance();
    let (sim, color) = pp.plan(1u8, 0u8);
    assert!(!sim.swap_read_order);
    assert!(color.swap_read_order);
    assert_eq!(pp.authoritative(), Slot::A);
    assert_eq!(pp.steps(), 1);
}

#[test]
fn colorizing_twice_gives_the_same_texture() {
    let mut engine = GameOfLife::new(16, 16);
    engine.compute(RED, CLEAR);
    let swap = engine.authoritative_slot() == Slot::B;
    let params = DispatchParams {
        life_color: RED,
        dead_color: CLEAR,
        phase: Phase::Colorize,
        swap_read_order: swap,
    };
    let before = engine.current_cells().clone();
    engine.dispatch(&params);
    let first = engine.color_image().clone();
    engine.dispatch(&params);
    assert_eq!(engine.color_image(), &first);
    assert_eq!(engine.current_cells(), &before);

    let grid = grid_with(8, 8, &[(1, 1), (6, 2)]);
    let mut a = vec![RED; 64];
    let mut b = vec![Rgba8 { r: 1, g: 2, b: 3, a: 4 }; 64];
    colorize(&grid, RED, CLEAR, &mut a);
    colorize(&grid, RED, CLEAR, &mut b);
    assert_eq!(a, b);
    assert_eq!(a[9], RED);
    assert_eq!(a[22], RED);
    assert_eq!(a[0], CLEAR);
}

#[test]
fn brush_radius_zero_at_origin_touches_only_origin() {
    let mut engine = GameOfLife::with_cells(16, 16, vec![0u32; 256]);
    engine.draw_life_with(CellPos { x: 0, y: 0 }, 0, &vec![1u32; 256]);
    assert_eq!(alive_cells(engine.current_cells(), 16), vec![(0, 0)]);
    assert_eq!(engine.steps(), 0);
}

#[test]
fn brush_one_past_the_edge_is_a_no_op() {
    let mut engine = GameOfLife::with_cells(16, 8, vec![0u32; 128]);
    let seeds = vec![1u32; 128];
    engine.draw_life_with(CellPos { x: 16, y: 3 }, 4, &seeds);
    engine.draw_life_with(CellPos { x: 3, y: 8 }, 4, &seeds);
    engine.draw_life_with(CellPos { x: -1, y: 3 }, 4, &seeds);
    engine.draw_life_with(CellPos { x: 3, y: -1 }, 4, &seeds);
    assert!(alive_cells(engine.current_cells(), 16).is_empty());
}

#[test]
fn brush_disk_sizes() {
    let seeds = vec![1u32; 256];
    let mut g = vec![0u32; 256];
    paint(&mut g, 16, 16, CellPos { x: 8, y: 8 }, 1, &seeds);
    assert_eq!(alive_cells(&g, 16).len(), 9);
    let mut g = vec![0u32; 256];
    paint(&mut g, 16, 16, CellPos { x: 8, y: 8 }, 2, &seeds);
    assert_eq!(alive_cells(&g, 16).len(), 21);
    assert_eq!(g[6 * 16 + 6], 0);
    assert_eq!(g[6 * 16 + 7], 1);
    let mut g = vec![0u32; 256];
    paint(&mut g, 16, 16, CellPos { x: 8, y: 8 }, -1, &seeds);
    assert!(alive_cells(&g, 16).is_empty());
}

#[test]
fn brush_past_the_corner_touches_only_grid_cells() {
    let seeds = vec![1u32; 256];
    let mut g = vec![0u32; 256];
    paint(&mut g, 16, 16, CellPos { x: 15, y: 15 }, 2, &seeds);
    let cells = alive_cells(&g, 16);
    assert_eq!(cells.len(), 8);
    assert!(cells.iter().all(|&(x, y)| x >= 13 && y >= 13));
}

#[test]
fn brush_follows_seeds() {
    let mut seeds = vec![0u32; 256];
    seeds[8 * 16 + 8] = 1;
    seeds[8 * 16 + 12] = 1;
    let mut g = vec![0u32; 256];
    paint(&mut g, 16, 16, CellPos { x: 8, y: 8 }, 2, &seeds);
    assert_eq!(alive_cells(&g, 16), vec![(8, 8)]);
}

#[test]
fn random_brush_stays_in_its_disk() {
    let mut g = vec![0u32; 256];
    for _ in 0..20 {
        draw_life_on(&mut g, 16, 16, CellPos { x: 3, y: 4 }, 2);
    }
    for (x, y) in alive_cells(&g, 16) {
        let dx = x as i64 - 3;
        let dy = y as i64 - 4;
        assert!(4 * (dx * dx + dy * dy) < 25);
    }
    assert!(g.iter().all(|&c| c <= 1));
    // Twenty draws leave each of the 21 cells dead with odds of 2^-20.
    assert!(alive_cells(&g, 16).len() > 10);
}

#[test]
fn random_grid_is_binary_and_mixed() {
    let g = rand_grid(64, 64);
    assert_eq!(g.len(), 4096);
    assert!(g.iter().all(|&c| c <= 1));
    let alive = g.iter().filter(|&&c| c == 1).count();
    assert!(alive > 1000 && alive < 3000);
}

#[test]
fn new_engine_has_sized_buffers() {
    let engine = GameOfLife::new(24, 8);
    assert_eq!((engine.width(), engine.height()), (24, 8));
    assert_eq!(engine.buffer(Slot::A).len(), 192);
    assert_eq!(engine.buffer(Slot::B).len(), 192);
    assert_eq!(engine.color_image().len(), 192);
    assert_eq!(engine.steps(), 0);
}

#[test]
fn engine_from_two_grids_keeps_both() {
    let a = grid_with(8, 8, &[(1, 1)]);
    let b = grid_with(8, 8, &[(2, 5), (7, 7)]);
    let mut engine = GameOfLife::from_grids(8, 8, a.clone(), b.clone());
    assert_eq!(engine.buffer(Slot::A), &a);
    assert_eq!(engine.buffer(Slot::B), &b);
    assert_eq!(engine.current_cells(), &b);
    assert_eq!(engine.color_image().len(), 64);
    engine.compute(RED, CLEAR);
    // The previous generation stays in the buffer it was read from.
    assert_eq!(engine.buffer(Slot::B), &b);
    assert_eq!(engine.current_cells(), &vec![0u32; 64]);
    assert!(engine.color_image().iter().all(|&t| t == CLEAR));
}
