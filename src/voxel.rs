use vstd::prelude::*;

verus! {

/// Extent of the volume along x.
pub const LENGTH: usize = 32;
/// Extent of the volume along y, the vertical axis.
pub const HEIGHT: usize = 32;
/// Extent of the volume along z.
pub const WIDTH: usize = 32;
/// Number of cells in the volume.
pub const VOXEL_COUNT: usize = 32768;

pub const AIR: u32 = 0;
pub const WATER: u32 = 1;
pub const GRASS: u32 = 2;
pub const DIRT: u32 = 3;
pub const STONE: u32 = 4;

/// Terrain height of a column before the two waves are added.
pub const BASE_HEIGHT: usize = 20;
/// Cells of a river column at or below this level hold water.
pub const WATER_LEVEL: usize = 21;
/// Column index of the river's center line.
pub const RIVER_CENTER: usize = 16;
/// Half width of the river band: a column is river when |x - center| < this.
pub const RIVER_WIDTH: usize = 4;

/// Position of cell (x, y, z) in the flat volume: x-major, then y, then z.
pub open spec fn index_of(x: int, y: int, z: int) -> int {
    x * (HEIGHT * WIDTH) + y * WIDTH + z
}

/// The wave along x: the integer part of 4 sin(x / 5), negative values
/// clamped to zero, over the volume's extent.
pub open spec fn wave_x(x: int) -> int {
    if x < 2 {
        0
    } else if x < 3 {
        1
    } else if x < 5 {
        2
    } else if x < 12 {
        3
    } else if x < 14 {
        2
    } else if x < 15 {
        1
    } else {
        0
    }
}

/// The wave along z: the integer part of 3 sin(3z / 10), negative values
/// clamped to zero, over the volume's extent.
pub open spec fn wave_z(z: int) -> int {
    if z < 2 {
        0
    } else if z < 3 {
        1
    } else if z < 9 {
        2
    } else if z < 10 {
        1
    } else if z < 23 {
        0
    } else if z < 24 {
        1
    } else if z < 29 {
        2
    } else if z < 31 {
        1
    } else {
        0
    }
}

/// Terrain height of column (x, z).
pub open spec fn column_height(x: int, z: int) -> int {
    BASE_HEIGHT + wave_x(x) + wave_z(z)
}

/// Whether column x lies in the river band.
pub open spec fn is_river(x: int) -> bool {
    -(RIVER_WIDTH as int) < x - RIVER_CENTER < RIVER_WIDTH as int
}

/// Layered ground material of a cell at height y in a column of height h
/// (y <= h): grass on top, two cells of dirt below it, stone beneath.
pub open spec fn terrain_material(y: int, h: int) -> u32 {
    if y == h {
        GRASS
    } else if y > h - 3 {
        DIRT
    } else {
        STONE
    }
}

/// Material of cell (x, y, z).
pub open spec fn material_at(x: int, y: int, z: int) -> u32 {
    if is_river(x) && y <= WATER_LEVEL {
        WATER
    } else if !is_river(x) && y <= column_height(x, z) {
        terrain_material(y, column_height(x, z))
    } else {
        AIR
    }
}

/// The whole volume, cell by cell in the order of `index_of`.
pub open spec fn volume_model() -> Seq<u32> {
    Seq::new(
        VOXEL_COUNT as nat,
        |i: int| material_at(i / (HEIGHT * WIDTH) as int, (i / WIDTH as int) % HEIGHT as int, i % WIDTH as int),
    )
}

/// Position of cell (x, y, z) in the volume returned by `generate_volume`.
pub fn voxel_index(x: usize, y: usize, z: usize) -> (r: usize)
    requires
        x < LENGTH,
        y < HEIGHT,
        z < WIDTH,
    ensures
        r == index_of(x as int, y as int, z as int),
        r < VOXEL_COUNT,
{
    assert(x * 1024 <= 31 * 1024 && y * 32 <= 31 * 32) by (nonlinear_arith)
        requires
            x < 32,
            y < 32,
    ;
    assert(x * 1024 <= 31 * 1024 && y * 32 <= 31 * 32) by (nonlinear_arith)
        requires
            x < 32,
            y < 32,
    ;
    x * (HEIGHT * WIDTH) + y * WIDTH + z
}

/// Reading the model at `index_of(x, y, z)` gives the material of (x, y, z).
pub proof fn lemma_index_of_decodes(x: int, y: int, z: int)
    requires
        0 <= x < LENGTH,
        0 <= y < HEIGHT,
        0 <= z < WIDTH,
    ensures
        0 <= index_of(x, y, z) < VOXEL_COUNT,
        volume_model()[index_of(x, y, z)] == material_at(x, y, z),
{
    let i = index_of(x, y, z);
    vstd::arithmetic::div_mod::lemma_fundamental_div_mod_converse(i, 1024, x, y * 32 + z);
    vstd::arithmetic::div_mod::lemma_fundamental_div_mod_converse(i, 32, x * 32 + y, z);
    vstd::arithmetic::div_mod::lemma_fundamental_div_mod_converse(x * 32 + y, 32, x, y);
}

fn wave_x_exec(x: usize) -> (r: usize)
    ensures
        r == wave_x(x as int),
{
    if x < 2 {
        0
    } else if x < 3 {
        1
    } else if x < 5 {
        2
    } else if x < 12 {
        3
    } else if x < 14 {
        2
    } else if x < 15 {
        1
    } else {
        0
    }
}

fn wave_z_exec(z: usize) -> (r: usize)
    ensures
        r == wave_z(z as int),
{
    if z < 2 {
        0
    } else if z < 3 {
        1
    } else if z < 9 {
        2
    } else if z < 10 {
        1
    } else if z < 23 {
        0
    } else if z < 24 {
        1
    } else if z < 29 {
        2
    } else if z < 31 {
        1
    } else {
        0
    }
}

fn cell_material(x: usize, y: usize, z: usize) -> (r: u32)
    ensures
        r == material_at(x as int, y as int, z as int),
{
    let river = if x >= RIVER_CENTER {
        x - RIVER_CENTER < RIVER_WIDTH
    } else {
        RIVER_CENTER - x < RIVER_WIDTH
    };
    if river {
        if y <= WATER_LEVEL {
            WATER
        } else {
            AIR
        }
    } else {
        let h = BASE_HEIGHT + wave_x_exec(x) + wave_z_exec(z);
        if y == h {
            GRASS
        } else if y < h && y > h - 3 {
            DIRT
        } else if y < h {
            STONE
        } else {
            AIR
        }
    }
}

/// Builds the voxel volume as a flat grid of material ids, cell (x, y, z)
/// at `voxel_index(x, y, z)`. River columns hold water up to the water
/// level; other columns hold layered ground up to their terrain height.
pub fn generate_volume() -> (r: Vec<u32>)
    ensures
        r@ == volume_model(),
{
    let mut cells: Vec<u32> = Vec::new();
    let mut i: usize = 0;
    while i < VOXEL_COUNT
        invariant
            i <= VOXEL_COUNT,
            cells@.len() == i,
            forall|j: int| 0 <= j < i ==> cells@[j] == volume_model()[j],
        decreases VOXEL_COUNT - i,
    {
        let x = i / (HEIGHT * WIDTH);
        let y = (i / WIDTH) % HEIGHT;
        let z = i % WIDTH;
        cells.push(cell_material(x, y, z));
        i += 1;
    }
    assert(cells@ =~= volume_model());
    cells
}

/// Every cell of a river column at or below the water level holds water.
pub proof fn lemma_river_cells_hold_water(x: int, y: int, z: int)
    requires
        0 <= x < LENGTH,
        0 <= y < HEIGHT,
        0 <= z < WIDTH,
        is_river(x),
        y <= WATER_LEVEL,
    ensures
        volume_model()[index_of(x, y, z)] == WATER,
{
    lemma_index_of_decodes(x, y, z);
}

/// Every cell of a column outside the river band at or below the column's
/// terrain height holds ground: grass, dirt or stone, by its depth.
pub proof fn lemma_ground_cells_hold_terrain(x: int, y: int, z: int)
    requires
        0 <= x < LENGTH,
        0 <= y < HEIGHT,
        0 <= z < WIDTH,
        !is_river(x),
        y <= column_height(x, z),
    ensures
        volume_model()[index_of(x, y, z)] == terrain_material(y, column_height(x, z)),
        volume_model()[index_of(x, y, z)] == GRASS || volume_model()[index_of(x, y, z)] == DIRT
            || volume_model()[index_of(x, y, z)] == STONE,
{
    lemma_index_of_decodes(x, y, z);
}

} // verus!
