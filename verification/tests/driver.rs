use tetris_core::driver::Action;
use tetris_core::driver::Driver;
use tetris_core::driver::Event;
use tetris_core::field::CellRect;
use tetris_core::field::Field;
use tetris_core::grid::Cell;

#[test]
fn twelve_tenth_second_frames_fire_one_tick() {
    // A 10-by-20 grid with a one-second interval, fed 12 frames of a tenth
    // of a second each: exactly one tick, fired on the tenth frame, with
    // two tenths of a second carried forward.
    let mut d = Driver::new();
    assert_eq!(d.field.grid.width(), 10);
    assert_eq!(d.field.grid.height(), 20);
    assert_eq!(d.field.timer.interval(), 1_000_000);
    let mut total: u64 = 0;
    for frame in 1..=12u32 {
        assert!(d.can_handle(Event::Update { dt_micros: 100_000 }));
        let a = d.handle_event(Event::Update { dt_micros: 100_000 });
        let ticks = match a {
            Action::Stepped { ticks } => ticks,
            _ => panic!("an update event must step the state"),
        };
        assert_eq!(ticks, if frame == 10 { 1 } else { 0 });
        total += ticks;
    }
    assert_eq!(total, 1);
    assert_eq!(d.field.moves, 1);
    assert_eq!(d.field.timer.accumulated(), 200_000);
    assert_eq!(d.stats.fps(), 10);
    assert!(d.running);
}

#[test]
fn render_asks_for_draw_and_changes_nothing() {
    let mut d = Driver::new();
    d.handle_event(Event::Update { dt_micros: 300_000 });
    let acc_before = d.field.timer.accumulated();
    let fps_before = d.stats.fps();
    let a = d.handle_event(Event::Render);
    assert_eq!(a, Action::Draw);
    assert_eq!(d.field.timer.accumulated(), acc_before);
    assert_eq!(d.stats.fps(), fps_before);
    assert_eq!(d.field.moves, 0);
    assert!(d.running);
}

#[test]
fn close_stops_the_loop() {
    let mut d = Driver::new();
    let a = d.handle_event(Event::Close);
    assert_eq!(a, Action::Stop);
    assert!(!d.running);
    assert_eq!(d.field.timer.accumulated(), 0);
}

#[test]
fn update_recomputes_fps() {
    let mut d = Driver::new();
    let a = d.handle_event(Event::Update { dt_micros: 16_667 });
    assert_eq!(a, Action::Stepped { ticks: 0 });
    assert_eq!(d.stats.fps(), 59);
    assert_eq!(d.stats.label(), b"FPS: 59".to_vec());
}

#[test]
fn overfull_accumulator_is_refused_up_front() {
    let mut d = Driver::new();
    d.handle_event(Event::Update { dt_micros: 500_000 });
    assert!(d.can_handle(Event::Update { dt_micros: 1 }));
    assert!(!d.can_handle(Event::Update { dt_micros: u64::MAX }));
    assert!(d.can_handle(Event::Render));
    assert!(d.can_handle(Event::Close));
}

#[test]
fn window_bounds_cover_the_window() {
    let d = Driver::new();
    let b = d.window_bounds();
    assert_eq!(b.pos.x, 0);
    assert_eq!(b.pos.y, 0);
    assert_eq!(b.dim.x, 400);
    assert_eq!(b.dim.y, 400);
}

#[test]
fn field_is_centred_with_square_cells() {
    let f = Field::new();
    assert_eq!(f.x, 100);
    assert_eq!(f.y, 0);
    assert_eq!(f.width, 200);
    assert_eq!(f.height, 400);
    let rects = f.cell_rects();
    assert_eq!(rects.len(), 200);
    assert_eq!(rects[0], CellRect { x: 100, y: 0, w: 20, h: 20, filled: false });
    // Row-major: position 15 is cell (5, 1).
    assert_eq!(rects[15], CellRect { x: 200, y: 20, w: 20, h: 20, filled: false });
    assert_eq!(rects[199], CellRect { x: 280, y: 380, w: 20, h: 20, filled: false });
}

#[test]
fn cell_rects_reflect_occupancy() {
    let mut f = Field::new();
    f.grid.set(0, 0, Cell::Filled);
    f.grid.set(5, 1, Cell::Filled);
    let rects = f.cell_rects();
    assert!(rects[0].filled);
    assert!(rects[15].filled);
    let filled = rects.iter().filter(|r| r.filled).count();
    assert_eq!(filled, 2);
}

#[test]
fn field_update_counts_ticks() {
    let mut f = Field::new();
    assert!(f.can_update(2_500_000));
    let ticks = f.update(2_500_000);
    assert_eq!(ticks, 2);
    assert_eq!(f.moves, 2);
    assert_eq!(f.timer.accumulated(), 500_000);
}
