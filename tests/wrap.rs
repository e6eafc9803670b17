use pacman_core::geometry::Position;
use pacman_core::wrap::handle_player_screen_wrapping;

fn wrap(x: i64, y: i64) -> Position {
    let mut p = Position { x, y };
    handle_player_screen_wrapping(&mut p, 24, 816, 600);
    p
}

#[test]
fn left_exit_enters_right() {
    assert_eq!(wrap(-25, 300), Position { x: 828, y: 300 });
}

#[test]
fn right_exit_enters_left() {
    assert_eq!(wrap(816 + 24 + 1, 300), Position { x: -12, y: 300 });
}

#[test]
fn top_and_bottom_exits() {
    assert_eq!(wrap(400, -25), Position { x: 400, y: 612 });
    assert_eq!(wrap(400, 625), Position { x: 400, y: -12 });
}

#[test]
fn thresholds_are_strict() {
    assert_eq!(wrap(-24, 300), Position { x: -24, y: 300 });
    assert_eq!(wrap(840, 300), Position { x: 840, y: 300 });
    assert_eq!(wrap(400, -24), Position { x: 400, y: -24 });
    assert_eq!(wrap(400, 624), Position { x: 400, y: 624 });
}

#[test]
fn only_one_axis_per_call() {
    assert_eq!(wrap(-30, -30), Position { x: 828, y: -30 });
    assert_eq!(wrap(900, 700), Position { x: -12, y: 700 });
}
