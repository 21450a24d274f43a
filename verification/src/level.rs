//! The static level the ragdoll plays in: a floor, two side walls, a ledge, and a
//! staircase that leads from the ledge down to the floor.
//!
//! Coordinates are world pixels with the origin at the centre of the window and
//! `y` pointing up.

use vstd::prelude::*;
use crate::ragdoll::components::Rgb;

verus! {

/// Where the player's ragdoll is spawned, horizontally.
pub const PLAYER_SPAWN_X: i32 = -445;

/// Where the player's ragdoll is spawned, vertically.
pub const PLAYER_SPAWN_Y: i32 = 450;

/// How many steps the staircase has.
pub const LADDER_STEP_COUNT: usize = 12;

/// A fixed, axis-aligned block of the level: a sprite and the collider box attached to it.
#[derive(Clone, Copy, PartialEq, Eq, Debug, Structural)]
pub struct Block {
    pub center_x: i32,
    pub center_y: i32,
    /// Size of the drawn sprite.
    pub width: u32,
    pub height: u32,
    /// Half extents of the collider, centred on the block.
    pub collider_half_width: u32,
    pub collider_half_height: u32,
}

/// The block centred at the given point with the given sprite size and collider half extents.
pub open spec fn block(
    center_x: int,
    center_y: int,
    width: u32,
    height: u32,
    collider_half_width: u32,
    collider_half_height: u32,
) -> Block {
    Block {
        center_x: center_x as i32,
        center_y: center_y as i32,
        width,
        height,
        collider_half_width,
        collider_half_height,
    }
}

/// The floor, the left wall, the right wall and the ledge, in that order.
pub open spec fn arena() -> Seq<Block> {
    seq![
        block(0, -320, 1320, 20, 660, 10),
        block(-640, 0, 20, 1000, 10, 500),
        block(640, 0, 20, 1000, 10, 500),
        block(-555, 150, 150, 40, 25, 20),
    ]
}

/// Step `i` of the staircase, counting from the top.
pub open spec fn ladder_step(i: int) -> Block {
    block(-505 + 50 * i, 150 - 40 * i, 50, 40, 25, 20)
}

/// Top and bottom of a block's collider.
pub open spec fn collider_top(b: Block) -> int {
    b.center_y + b.collider_half_height
}

pub open spec fn collider_bottom(b: Block) -> int {
    b.center_y - b.collider_half_height
}

/// Left and right side of a block's collider.
pub open spec fn collider_left(b: Block) -> int {
    b.center_x - b.collider_half_width
}

pub open spec fn collider_right(b: Block) -> int {
    b.center_x + b.collider_half_width
}

/// The colour every block of the level is drawn in.
pub open spec fn level_gray() -> Rgb {
    Rgb { red: 30, green: 30, blue: 30 }
}

/// The colour every block of the level is drawn in.
pub fn level_color() -> (c: Rgb)
    ensures
        c == level_gray(),
{
    Rgb { red: 30, green: 30, blue: 30 }
}

/// The floor, the two side walls and the ledge.
pub fn arena_blocks() -> (blocks: Vec<Block>)
    ensures
        blocks@ == arena(),
{
    let mut blocks: Vec<Block> = Vec::new();
    blocks.push(
        Block {
            center_x: 0,
            center_y: -320,
            width: 1320,
            height: 20,
            collider_half_width: 660,
            collider_half_height: 10,
        },
    );
    blocks.push(
        Block {
            center_x: -640,
            center_y: 0,
            width: 20,
            height: 1000,
            collider_half_width: 10,
            collider_half_height: 500,
        },
    );
    blocks.push(
        Block {
            center_x: 640,
            center_y: 0,
            width: 20,
            height: 1000,
            collider_half_width: 10,
            collider_half_height: 500,
        },
    );
    blocks.push(
        Block {
            center_x: -555,
            center_y: 150,
            width: 150,
            height: 40,
            collider_half_width: 25,
            collider_half_height: 20,
        },
    );
    assert(blocks@ =~= arena());
    blocks
}

/// The staircase, from its top step down: each step sits one step's width further
/// right and one step's height lower than the one before, so their colliders touch
/// edge to edge.
pub fn ladder_steps() -> (steps: Vec<Block>)
    ensures
        steps.len() == LADDER_STEP_COUNT,
        forall|i: int| 0 <= i < steps.len() ==> #[trigger] steps[i] == ladder_step(i),
        forall|i: int|
            0 <= i < steps.len() - 1 ==> {
                &&& collider_right(#[trigger] steps[i]) == collider_left(steps[i + 1])
                &&& collider_bottom(steps[i]) == collider_top(steps[i + 1])
            },
{
    let mut steps: Vec<Block> = Vec::new();
    let mut i: usize = 0;
    while i < LADDER_STEP_COUNT
        invariant
            i <= LADDER_STEP_COUNT,
            steps.len() == i,
            forall|k: int| 0 <= k < i ==> #[trigger] steps[k] == ladder_step(k),
        decreases LADDER_STEP_COUNT - i,
    {
        let n: i32 = i as i32;
        steps.push(
            Block {
                center_x: -505 + n * 50,
                center_y: 150 - n * 40,
                width: 50,
                height: 40,
                collider_half_width: 25,
                collider_half_height: 20,
            },
        );
        i = i + 1;
    }
    assert forall|i: int| 0 <= i < steps.len() - 1 implies {
        &&& collider_right(#[trigger] steps[i]) == collider_left(steps[i + 1])
        &&& collider_bottom(steps[i]) == collider_top(steps[i + 1])
    } by {
        assert(steps[i] == ladder_step(i));
        assert(steps[i + 1] == ladder_step(i + 1));
    }
    steps
}

/// The staircase connects the ledge to the floor: its top step continues the ledge's
/// collider at the same height, its bottom step stands on the floor, and every step
/// lies between the inner faces of the two side walls.
pub proof fn lemma_staircase_joins_ledge_and_floor()
    ensures
        collider_right(arena()[3]) == collider_left(ladder_step(0)),
        collider_top(arena()[3]) == collider_top(ladder_step(0)),
        collider_bottom(ladder_step(LADDER_STEP_COUNT - 1)) == collider_top(arena()[0]),
        forall|i: int|
            0 <= i < LADDER_STEP_COUNT ==> collider_right(arena()[1]) <= collider_left(
                #[trigger] ladder_step(i),
            ) && collider_right(ladder_step(i)) <= collider_left(arena()[2]),
{
}

} // verus!
