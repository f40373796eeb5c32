//! The rules of a small arcade game: a monster walks along a street and
//! squashes the buildings it attacks.
//!
//! Every length in this crate is an integer number of tenths of a pixel, so
//! that each displacement the game applies is exact.
mod building;
mod geom;
mod laws;
mod monster;
mod sheet;
mod world;

pub use building::{
    fresh_building_spec, splash_spec, struck_spec, Building, BuildingView, SPLASH_HEIGHT,
    SPLASH_WIDTH, SQUASH,
};
pub use geom::{
    centered_spec, in_range, overlaps_spec, Point, Rect, Rectangle, Vector, COORD_LIMIT, PIXEL,
};
pub use laws::{
    is_rest_spec, lemma_facing_is_sign, lemma_facing_kept, lemma_mouse_before_keys,
    lemma_rest_keeps_walk_facing, lemma_squash_accumulates, lemma_walk_unbounded,
};
pub use monster::{
    mouse_direction_spec, walk_left_spec, walk_right_spec, with_state_spec, Monster,
    MonsterState, MonsterView, DEAD_ZONE, FACING_LEFT, FACING_RIGHT, STEP,
};
pub use sheet::{
    frame_count_spec, frame_spec, sheet_frames, SHEET_COLUMNS, SHEET_ROWS, TILE_HEIGHT, TILE_WIDTH,
};
pub use world::{
    attack_spec, attacks_spec, fits_spec, frames_spec, initial_spec, reach_spec, sites_spec,
    step_spec, Input, World, WorldView, REACH_HEIGHT, REACH_WIDTH,
};
