use ragdoll_playground::level::{
    arena_blocks, ladder_steps, level_color, Block, LADDER_STEP_COUNT, PLAYER_SPAWN_X,
    PLAYER_SPAWN_Y,
};
use ragdoll_playground::ragdoll::components::Rgb;

fn top(b: &Block) -> i32 {
    b.center_y + b.collider_half_height as i32
}
fn bottom(b: &Block) -> i32 {
    b.center_y - b.collider_half_height as i32
}
fn left(b: &Block) -> i32 {
    b.center_x - b.collider_half_width as i32
}
fn right(b: &Block) -> i32 {
    b.center_x + b.collider_half_width as i32
}

#[test]
fn arena_has_floor_walls_and_ledge() {
    let a = arena_blocks();
    assert_eq!(a.len(), 4);
    assert_eq!(
        a[0],
        Block { center_x: 0, center_y: -320, width: 1320, height: 20, collider_half_width: 660, collider_half_height: 10 }
    );
    assert_eq!(
        a[1],
        Block { center_x: -640, center_y: 0, width: 20, height: 1000, collider_half_width: 10, collider_half_height: 500 }
    );
    assert_eq!(
        a[2],
        Block { center_x: 640, center_y: 0, width: 20, height: 1000, collider_half_width: 10, collider_half_height: 500 }
    );
    assert_eq!(
        a[3],
        Block { center_x: -555, center_y: 150, width: 150, height: 40, collider_half_width: 25, collider_half_height: 20 }
    );
}

#[test]
fn ladder_has_twelve_steps_descending_right() {
    let s = ladder_steps();
    assert_eq!(s.len(), LADDER_STEP_COUNT);
    assert_eq!(s.len(), 12);
    assert_eq!(s[0].center_x, -505);
    assert_eq!(s[0].center_y, 150);
    assert_eq!(s[11].center_x, 45);
    assert_eq!(s[11].center_y, -290);
    for (i, b) in s.iter().enumerate() {
        assert_eq!(b.center_x, -505 + 50 * i as i32);
        assert_eq!(b.center_y, 150 - 40 * i as i32);
        assert_eq!((b.width, b.height, b.collider_half_width, b.collider_half_height), (50, 40, 25, 20));
    }
    for w in s.windows(2) {
        assert_eq!(right(&w[0]), left(&w[1]));
        assert_eq!(bottom(&w[0]), top(&w[1]));
    }
}

#[test]
fn staircase_joins_ledge_and_floor() {
    let a = arena_blocks();
    let s = ladder_steps();
    assert_eq!(right(&a[3]), left(&s[0]));
    assert_eq!(top(&a[3]), top(&s[0]));
    assert_eq!(bottom(&s[11]), top(&a[0]));
    for b in &s {
        assert!(right(&a[1]) <= left(b));
        assert!(right(b) <= left(&a[2]));
    }
}

#[test]
fn level_constants() {
    assert_eq!(level_color(), Rgb { red: 30, green: 30, blue: 30 });
    assert_eq!((PLAYER_SPAWN_X, PLAYER_SPAWN_Y), (-445, 450));
}
