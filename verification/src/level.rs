//! Coordinate conversions for level loading.
//!
//! Level files give pixel locations from the top-left corner of a layer;
//! the world wants fixed-point coordinates centred on the screen with the Y
//! axis pointing up. The conversions below do exactly that arithmetic over
//! sub-units ([`crate::math::UNIT`] sub-units per pixel of scale 1), so a
//! loader at the I/O edge only decodes values and hands them in.

use vstd::prelude::*;

use crate::math::{
    iabs, lemma_mul_range, round_to_units, round_units, Vec2, Vec2i, MOVE_LIMIT,
};

verus! {

/// Largest pixel coordinate magnitude the conversions accept.
pub const PIXEL_LIMIT: i64 = 1_000_000_000;

/// Largest scale (sub-units per pixel) the conversions accept.
pub const SCALE_LIMIT: i64 = 1_000_000;

/// Largest layer dimension, in sub-units, the conversions accept.
pub const LAYER_LIMIT: i64 = 1_000_000_000_000_000;

/// Where a tile at grid pixel `(x, y)` lands in world sub-units: shifted by
/// half a grid cell to its centre, offset to the middle of a layer `width`
/// by `height` sub-units large, with the Y axis flipped.
pub open spec fn tile_world_position(
    width: int,
    height: int,
    grid_size: int,
    scale: int,
    x: int,
    y: int,
) -> Vec2 {
    Vec2 {
        x: x * scale + (grid_size * scale) / 2 - width / 2,
        y: -(y * scale) - (grid_size * scale) / 2 + height / 2,
    }
}

/// Converts a tile's layer-local pixel position to world sub-units; `z`
/// passes through as the layer depth.
pub fn convert_to_world(
    width: i64,
    height: i64,
    grid_size: i64,
    scale: i64,
    x: i64,
    y: i64,
    z: i64,
) -> (r: (Vec2i, i64))
    requires
        0 <= width <= LAYER_LIMIT,
        0 <= height <= LAYER_LIMIT,
        0 <= grid_size <= SCALE_LIMIT,
        0 < scale <= SCALE_LIMIT,
        iabs(x as int) <= PIXEL_LIMIT as int,
        iabs(y as int) <= PIXEL_LIMIT as int,
    ensures
        r.0@ == tile_world_position(
            width as int,
            height as int,
            grid_size as int,
            scale as int,
            x as int,
            y as int,
        ),
        r.1 == z,
{
    proof {
        lemma_mul_range(x as int, scale as int, PIXEL_LIMIT as int, SCALE_LIMIT as int);
        lemma_mul_range(y as int, scale as int, PIXEL_LIMIT as int, SCALE_LIMIT as int);
        lemma_mul_range(grid_size as int, scale as int, SCALE_LIMIT as int, SCALE_LIMIT as int);
    }
    let cell = grid_size * scale;
    let world_x = x * scale + cell / 2 - width / 2;
    let world_y = -(y * scale) - cell / 2 + height / 2;
    (Vec2i { x: world_x, y: world_y }, z)
}

/// Where a level entity lands in world sub-units, with its half extents:
/// the entity's pixel rectangle is centred, scaled, offset to the middle of
/// the layer and Y-flipped.
pub open spec fn entity_world_position(
    position: Vec2,
    size: Vec2,
    layer_size: Vec2,
    scale: int,
) -> (Vec2, Vec2) {
    let half_x = (size.x * scale) / 2;
    let half_y = (size.y * scale) / 2;
    let centre_x = position.x * scale + half_x;
    let centre_y = position.y * scale + half_y;
    (
        Vec2 { x: centre_x - layer_size.x / 2, y: -centre_y + layer_size.y / 2 },
        Vec2 { x: half_x, y: half_y },
    )
}

/// Converts a level entity's pixel rectangle to a world-sub-unit centre and
/// half extents.
pub fn convert_ldtk_entity_to_bevy(
    position: Vec2i,
    size: Vec2i,
    layer_size: Vec2i,
    scale: i64,
) -> (r: (Vec2i, Vec2i))
    requires
        iabs(position@.x) <= PIXEL_LIMIT as int,
        iabs(position@.y) <= PIXEL_LIMIT as int,
        0 <= size@.x <= PIXEL_LIMIT as int,
        0 <= size@.y <= PIXEL_LIMIT as int,
        0 <= layer_size@.x <= LAYER_LIMIT as int,
        0 <= layer_size@.y <= LAYER_LIMIT as int,
        0 < scale <= SCALE_LIMIT,
    ensures
        (r.0@, r.1@) == entity_world_position(position@, size@, layer_size@, scale as int),
{
    proof {
        lemma_mul_range(position@.x, scale as int, PIXEL_LIMIT as int, SCALE_LIMIT as int);
        lemma_mul_range(position@.y, scale as int, PIXEL_LIMIT as int, SCALE_LIMIT as int);
        lemma_mul_range(size@.x, scale as int, PIXEL_LIMIT as int, SCALE_LIMIT as int);
        lemma_mul_range(size@.y, scale as int, PIXEL_LIMIT as int, SCALE_LIMIT as int);
    }
    let half_x = (size.x * scale) / 2;
    let half_y = (size.y * scale) / 2;
    let centre_x = position.x * scale + half_x;
    let centre_y = position.y * scale + half_y;
    (
        Vec2i { x: centre_x - layer_size.x / 2, y: -centre_y + layer_size.y / 2 },
        Vec2i { x: half_x, y: half_y },
    )
}

/// Which axes a tile's flip bits mirror it on: bit layout 1 = X, 2 = Y,
/// 3 = both.
pub fn tile_flip_flags(f: i64) -> (r: (bool, bool))
    ensures
        r.0 == (f == 1 || f == 3),
        r.1 == (f == 2 || f == 3),
{
    if f == 1 {
        (true, false)
    } else if f == 2 {
        (false, true)
    } else if f == 3 {
        (true, true)
    } else {
        (false, false)
    }
}

/// Per-layer drawing and sizing facts derived while loading a level.
#[derive(Clone, Copy, PartialEq, Eq, Structural, Debug)]
pub struct LayerInfo {
    pub grid_width: i64,
    pub grid_height: i64,
    pub grid_cell_size: i64,
    pub z_index: i64,
    pub px_width: i64,
    pub px_height: i64,
}

/// Computes a layer's record: depth decreases with layer index, and the
/// pixel dimensions are the grid dimensions at the given cell size and
/// scale, in sub-units.
pub fn layer_info_for(c_wid: i64, c_hei: i64, grid_size: i64, scale: i64, idx: i64) -> (info:
    LayerInfo)
    requires
        0 <= c_wid <= SCALE_LIMIT,
        0 <= c_hei <= SCALE_LIMIT,
        0 <= grid_size <= SCALE_LIMIT,
        0 < scale <= SCALE_LIMIT,
        iabs(idx as int) <= SCALE_LIMIT as int,
    ensures
        info.grid_width == c_wid,
        info.grid_height == c_hei,
        info.grid_cell_size == grid_size,
        info.z_index == 50 - idx,
        info.px_width == c_wid * (grid_size * scale),
        info.px_height == c_hei * (grid_size * scale),
{
    proof {
        lemma_mul_range(grid_size as int, scale as int, SCALE_LIMIT as int, SCALE_LIMIT as int);
        lemma_mul_range(
            c_wid as int,
            grid_size as int * scale as int,
            SCALE_LIMIT as int,
            SCALE_LIMIT as int * SCALE_LIMIT as int,
        );
        lemma_mul_range(
            c_hei as int,
            grid_size as int * scale as int,
            SCALE_LIMIT as int,
            SCALE_LIMIT as int * SCALE_LIMIT as int,
        );
    }
    let cell = grid_size * scale;
    LayerInfo {
        grid_width: c_wid,
        grid_height: c_hei,
        grid_cell_size: grid_size,
        z_index: 50 - idx,
        px_width: c_wid * cell,
        px_height: c_hei * cell,
    }
}

/// Rounds a sub-unit point to the nearest whole grid units, ties away from
/// zero: how spawned bodies' positions and collider extents are quantized
/// onto the grid.
pub fn snap_to_grid(v: Vec2i) -> (r: Vec2i)
    requires
        iabs(v@.x) <= MOVE_LIMIT as int,
        iabs(v@.y) <= MOVE_LIMIT as int,
    ensures
        r@.x == round_to_units(v@.x),
        r@.y == round_to_units(v@.y),
{
    Vec2i { x: round_units(v.x), y: round_units(v.y) }
}

} // verus!
