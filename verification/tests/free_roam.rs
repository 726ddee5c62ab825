use platformer::free_roam::apply_gravity;
use platformer::free_roam::frame;
use platformer::free_roam::keyboard_input;
use platformer::free_roam::screen_bound;
use platformer::free_roam::spawn;
use platformer::free_roam::Direction;
use platformer::free_roam::Entity;
use platformer::screen::Keys;
use platformer::screen::Position;

fn keys(w: bool, a: bool, s: bool, d: bool) -> Keys {
    Keys { w, a, s, d }
}

fn at(x: i64, y: i64, dir: Direction) -> Entity {
    Entity { pos: Position { x, y }, dir }
}

#[test]
fn spawn_starts_centred_and_staying() {
    let e = spawn();
    assert_eq!(e.pos, Position { x: 0, y: 0 });
    assert_eq!(e.dir, Direction::Stay);
}

#[test]
fn latched_up_moves_up_by_speed_times_dt() {
    // `Up` was latched on the previous frame: this frame's movement stage
    // raises y by exactly SPEED * dt (300 units/s over 0.1 s = 30 units),
    // before gravity and the clamp run.
    let mut e = at(0, 0, Direction::Up);
    keyboard_input(&mut e, 100, keys(false, false, false, false));
    assert_eq!(e.pos.y, 30_000_000);
    assert_eq!(e.pos.x, 0);
    assert_eq!(e.dir, Direction::Stay);
}

#[test]
fn key_latched_this_frame_takes_effect_next_frame() {
    let mut e = spawn();
    // Frame 1: W held, but the previous direction was Stay, so no movement
    // from the keys yet; only gravity pulls the sprite down.
    frame(&mut e, 100, keys(true, false, false, false));
    assert_eq!(e.pos.y, -50_000_000);
    assert_eq!(e.dir, Direction::Up);
    // Frame 2: no key held; the latched Up now moves the sprite 30 units up,
    // gravity takes 50 back, and the latch resets to Stay.
    frame(&mut e, 100, keys(false, false, false, false));
    assert_eq!(e.pos.y, -70_000_000);
    assert_eq!(e.dir, Direction::Stay);
}

#[test]
fn diagonal_press_resolves_to_w_branch() {
    // W and A held together: the fixed priority latches Up, exactly as if
    // W were the only key held.
    let mut e = at(0, 0, Direction::Stay);
    keyboard_input(&mut e, 100, keys(true, true, false, false));
    assert_eq!(e.dir, Direction::Up);
    keyboard_input(&mut e, 100, keys(false, false, false, false));
    assert_eq!(e.pos.y, 30_000_000);
    assert_eq!(e.pos.x, 0);
}

#[test]
fn key_priority_chain() {
    let mut e = at(0, 0, Direction::Stay);
    keyboard_input(&mut e, 10, keys(false, true, true, true));
    assert_eq!(e.dir, Direction::Left);
    keyboard_input(&mut e, 10, keys(false, false, true, true));
    assert_eq!(e.dir, Direction::Down);
    keyboard_input(&mut e, 10, keys(false, false, false, true));
    assert_eq!(e.dir, Direction::Right);
}

#[test]
fn gravity_drifts_down_whatever_the_direction() {
    // Gravity lowers the position by 500 units/s times dt every frame,
    // regardless of the latched direction, and accumulates over frames.
    let mut e = at(7, 11, Direction::Left);
    apply_gravity(&mut e, 100);
    assert_eq!(e.pos.y, 11 - 50_000_000);
    assert_eq!(e.pos.x, 7);
    assert_eq!(e.dir, Direction::Left);
    apply_gravity(&mut e, 100);
    assert_eq!(e.pos.y, 11 - 100_000_000);
}

#[test]
fn right_overshoot_pulled_back_scenario() {
    // Already past the right clamp at x = 300 units with no key held: the
    // bounds stage pulls x back to 295 and reports a right collision.
    let mut e = at(300_000_000, 0, Direction::Stay);
    let ev = frame(&mut e, 100, keys(false, false, false, false));
    assert!(ev.right);
    assert!(!ev.left && !ev.top && !ev.bottom);
    assert_eq!(e.pos.x, 295_000_000);
    assert_eq!(e.pos.y, -50_000_000);
    assert_eq!(e.dir, Direction::Stay);
}

#[test]
fn left_and_vertical_edges_clamp() {
    let mut e = at(-299_000_000, 0, Direction::Stay);
    let ev = screen_bound(&mut e);
    assert!(ev.left && !ev.right && !ev.top && !ev.bottom);
    assert_eq!(e.pos.x, -295_000_000);

    let mut e2 = at(0, 999_000_000, Direction::Stay);
    let ev2 = screen_bound(&mut e2);
    assert!(ev2.top && !ev2.bottom);
    assert_eq!(e2.pos.y, 215_000_000);

    let mut e3 = at(0, -999_000_000, Direction::Stay);
    let ev3 = screen_bound(&mut e3);
    assert!(ev3.bottom && !ev3.top);
    assert_eq!(e3.pos.y, -215_000_000);
}

#[test]
fn frame_keeps_roamer_inside_screen() {
    let mut e = spawn();
    for i in 0..300 {
        let k = keys(i % 3 == 0, i % 5 == 0, false, i % 2 == 0);
        frame(&mut e, 16, k);
        assert!(-295_000_000 <= e.pos.x && e.pos.x <= 295_000_000);
        assert!(-215_000_000 <= e.pos.y && e.pos.y <= 215_000_000);
    }
}
