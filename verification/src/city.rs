//! The procedural city as data: what each block of the grid holds.
//!
//! Coordinates are in thousandths of a world unit ("milli-units") and are
//! local to a block: the block's corner crossroad is at the origin, the block
//! spans 5.5 units along x and 4 units along z, and the ground is at y = 0.
//! The application places block `(gx, gz)` at world offset `(5.5 gx, 0, 4 gz)`.

use vstd::prelude::*;

verus! {

/// Which parts of the city to generate (used for performance bisection).
#[derive(Clone, Copy, Debug, Default, PartialEq, Eq, Structural)]
pub struct SpawnConfig {
    pub no_cars: bool,
    pub no_buildings: bool,
    pub no_decorations: bool,
    pub minimal: bool,
}

/// The land use of a block, chosen from the block's noise density.
#[derive(Clone, Copy, Debug, PartialEq, Eq, Structural)]
pub enum Zone {
    Forest,
    LowDensity,
    MediumDensity,
    HighDensity,
}

/// A point or an extent in milli-units.
#[derive(Clone, Copy, Debug, PartialEq, Eq, Structural)]
pub struct Milli3 {
    pub x: i32,
    pub y: i32,
    pub z: i32,
}

/// The two shared meshes of the city.
#[derive(Clone, Copy, Debug, PartialEq, Eq, Structural)]
pub enum Shape {
    /// The unit cube.
    Cube,
    /// The cylinder of radius 0.5 and height 1.
    Cylinder,
}

/// The material of a piece; buildings and cars carry an index into their
/// palette.
#[derive(Clone, Copy, Debug, PartialEq, Eq, Structural)]
pub enum Paint {
    Ground,
    Road,
    Trunk,
    Canopy,
    Fence,
    Building(usize),
    Car(usize),
}

/// A uniform random sample of the unit interval: the value
/// `numerator / 2^24`, with `numerator < 2^24`.
#[derive(Clone, Copy, Debug, PartialEq, Eq, Structural)]
pub struct UnitSample {
    pub numerator: u32,
}

/// The denominator of a [`UnitSample`].
pub const UNIT_DENOMINATOR: u32 = 0x100_0000;

/// A sample's value lies in `[0, 1)`.
pub open spec fn unit_sample_ok(s: UnitSample) -> bool {
    s.numerator < UNIT_DENOMINATOR
}

/// A car parks in a slot when the slot's sample is below one quarter.
pub open spec fn car_parks(s: UnitSample) -> bool {
    s.numerator < UNIT_DENOMINATOR / 4
}

/// The height of a building, `(base + r * span) * factor`, where `r` is the
/// value of `sample`; `base` and `span` are in milli-units and `factor` in
/// thousandths.
#[derive(Clone, Copy, Debug, PartialEq, Eq, Structural)]
pub struct BuildingHeight {
    pub sample: UnitSample,
    pub base: i32,
    pub span: i32,
    pub factor: i32,
}

/// One instance of a shared mesh: its material, the centre of the mesh and its
/// extent along each axis.
///
/// A building (`height` is `Some`) stands on `center`: its vertical extent is
/// the drawn height and its centre rises by half of it; its `center.y` and
/// `size.y` are zero.
#[derive(Clone, Copy, Debug, PartialEq, Eq, Structural)]
pub struct Piece {
    pub shape: Shape,
    pub paint: Paint,
    pub center: Milli3,
    pub size: Milli3,
    pub height: Option<BuildingHeight>,
}

/// The draw for one car slot along the block's horizontal road: a sample,
/// and the car's colour when the sample parks a car there.
#[derive(Clone, Copy, Debug, PartialEq, Eq, Structural)]
pub struct CarDraw {
    pub sample: UnitSample,
    pub color: Option<usize>,
}

/// The draw for one column of buildings: the height sample shared by the
/// column and the colours of its front and back building.
#[derive(Clone, Copy, Debug, PartialEq, Eq, Structural)]
pub struct ColumnDraw {
    pub sample: UnitSample,
    pub front_color: usize,
    pub back_color: usize,
}

/// All random draws of one block, in the order they are made: car slots
/// first, then building columns.
#[derive(Clone, Debug)]
pub struct BlockDraws {
    pub cars: Vec<CarDraw>,
    pub columns: Vec<ColumnDraw>,
}

/// A planned block: its grid coordinates, zone, draws and pieces.
#[derive(Clone, Debug)]
pub struct BlockPlan {
    pub grid_x: i32,
    pub grid_z: i32,
    pub zone: Zone,
    pub draws: BlockDraws,
    pub pieces: Vec<Piece>,
}

// ---------------------------------------------------------------------------
// Sequences built piece by piece
// ---------------------------------------------------------------------------

/// `f(0) + f(1) + ... + f(n - 1)`.
pub open spec fn concat_map<A>(n: nat, f: spec_fn(int) -> Seq<A>) -> Seq<A>
    decreases n,
{
    if n == 0 {
        Seq::empty()
    } else {
        concat_map((n - 1) as nat, f) + f(n - 1)
    }
}

// ---------------------------------------------------------------------------
// Pieces
// ---------------------------------------------------------------------------

pub open spec fn m3(x: int, y: int, z: int) -> Milli3 {
    Milli3 { x: x as i32, y: y as i32, z: z as i32 }
}

pub open spec fn cube(paint: Paint, center: Milli3, size: Milli3) -> Piece {
    Piece { shape: Shape::Cube, paint, center, size, height: None }
}

pub open spec fn cylinder(paint: Paint, center: Milli3, size: Milli3) -> Piece {
    Piece { shape: Shape::Cylinder, paint, center, size, height: None }
}

/// The road strip along the block's near edge (x from 0 to 5.5, z = 0).
pub open spec fn horizontal_road() -> Piece {
    cube(Paint::Road, m3(2750, -350, 0), m3(5500, 500, 1000))
}

/// The road strip along the block's left edge (x = 0, z from 0 to 4).
pub open spec fn vertical_road() -> Piece {
    cube(Paint::Road, m3(0, -350, 2000), m3(1000, 500, 4000))
}

/// The ground tile covering the block.
pub open spec fn ground_tile() -> Piece {
    cube(Paint::Ground, m3(2750, -500, 2000), m3(5500, 400, 4000))
}

/// A car of colour `color` in slot `slot` of the horizontal road.
pub open spec fn car(slot: int, color: usize) -> Piece {
    cube(Paint::Car(color), m3(750 + 800 * slot, 350, -250), m3(500, 300, 300))
}

/// A tree standing at `(x, 0, z)`: trunk, then canopy.
pub open spec fn tree(x: int, z: int) -> Seq<Piece> {
    seq![
        cylinder(Paint::Trunk, m3(x, 400, z), m3(80, 800, 80)),
        cube(Paint::Canopy, m3(x, 1100, z), m3(500, 500, 500)),
    ]
}

/// A fence post of the low-density block, at depth `z`.
pub open spec fn fence_post(z: int) -> Piece {
    cylinder(Paint::Fence, m3(2750, 150, z), m3(80, 300, 80))
}

/// A building standing at `(x, 0, z)`.
pub open spec fn building(x: int, z: int, color: usize, height: BuildingHeight) -> Piece {
    Piece {
        shape: Shape::Cube,
        paint: Paint::Building(color),
        center: m3(x, 0, z),
        size: m3(700, 0, 700),
        height: Some(height),
    }
}

// ---------------------------------------------------------------------------
// Draw counts
// ---------------------------------------------------------------------------

/// Cars are drawn unless disabled or the city is minimal.
pub open spec fn cars_enabled(config: SpawnConfig) -> bool {
    !config.no_cars && !config.minimal
}

/// The number of car slots along the horizontal road.
pub const CAR_SLOTS: usize = 6;

/// The number of building columns of a zone.
pub open spec fn zone_columns(zone: Zone) -> nat {
    match zone {
        Zone::Forest => 0,
        Zone::LowDensity => 2,
        Zone::MediumDensity => 5,
        Zone::HighDensity => 3,
    }
}

/// The number of building columns drawn for a block.
pub open spec fn columns_drawn(zone: Zone, config: SpawnConfig) -> nat {
    if config.minimal || config.no_buildings {
        0
    } else {
        zone_columns(zone)
    }
}

/// The draws have the counts that the zone and the configuration call for.
pub open spec fn draws_shaped(
    zone: Zone,
    config: SpawnConfig,
    cars: Seq<CarDraw>,
    columns: Seq<ColumnDraw>,
) -> bool {
    &&& cars.len() == (if cars_enabled(config) { CAR_SLOTS as nat } else { 0 })
    &&& columns.len() == columns_drawn(zone, config)
}

/// The draws are shaped, every sample lies in `[0, 1)`, a car slot has a
/// colour exactly when its sample parks a car, and every colour indexes its
/// palette.
pub open spec fn draws_fit(
    zone: Zone,
    config: SpawnConfig,
    cars: Seq<CarDraw>,
    columns: Seq<ColumnDraw>,
    car_colors: nat,
    building_colors: nat,
) -> bool {
    &&& draws_shaped(zone, config, cars, columns)
    &&& forall|i: int|
        0 <= i < cars.len() ==> {
            let d = #[trigger] cars[i];
            &&& unit_sample_ok(d.sample)
            &&& (d.color is Some <==> car_parks(d.sample))
            &&& (d.color matches Some(c) ==> c < car_colors)
        }
    &&& forall|j: int|
        0 <= j < columns.len() ==> {
            let d = #[trigger] columns[j];
            &&& unit_sample_ok(d.sample)
            &&& d.front_color < building_colors
            &&& d.back_color < building_colors
        }
}

// ---------------------------------------------------------------------------
// Layout of a block
// ---------------------------------------------------------------------------

/// The car parked in slot `i`, if any.
pub open spec fn car_slot(cars: Seq<CarDraw>, i: int) -> Seq<Piece> {
    match cars[i].color {
        Some(c) => seq![car(i, c)],
        None => Seq::empty(),
    }
}

pub open spec fn car_slot_fn(cars: Seq<CarDraw>) -> spec_fn(int) -> Seq<Piece> {
    |i: int| car_slot(cars, i)
}

/// The cars of a block, in slot order.
pub open spec fn car_pieces(cars: Seq<CarDraw>) -> Seq<Piece> {
    concat_map(cars.len(), car_slot_fn(cars))
}

/// Height of the front (`back == false`) or back building of a column.
pub open spec fn column_height(zone: Zone, sample: UnitSample, back: bool) -> BuildingHeight {
    match zone {
        Zone::MediumDensity => BuildingHeight {
            sample,
            base: 1500,
            span: 2500,
            factor: if back { 700 } else { 1000 },
        },
        Zone::HighDensity => BuildingHeight {
            sample,
            base: 2000,
            span: 3000,
            factor: if back { 800 } else { 1000 },
        },
        _ => BuildingHeight { sample, base: 1000, span: 1500, factor: 1000 },
    }
}

/// The x coordinate of building column `j`.
pub open spec fn column_x(zone: Zone, j: int) -> int {
    match zone {
        Zone::MediumDensity => 900 * (j + 1),
        Zone::HighDensity => 1250 + 1500 * j,
        _ => 1800 * (j + 1),
    }
}

/// The depth of the front row of buildings (the back row is at 3000).
pub open spec fn front_row_z(zone: Zone) -> int {
    match zone {
        Zone::LowDensity => 1500,
        _ => 1250,
    }
}

/// The two buildings of column `j`: front, then back.
pub open spec fn column_pieces(zone: Zone, j: int, d: ColumnDraw) -> Seq<Piece> {
    seq![
        building(column_x(zone, j), front_row_z(zone), d.front_color, column_height(zone, d.sample, false)),
        building(column_x(zone, j), 3000, d.back_color, column_height(zone, d.sample, true)),
    ]
}

pub open spec fn column_fn(zone: Zone, columns: Seq<ColumnDraw>) -> spec_fn(int) -> Seq<Piece> {
    |j: int| column_pieces(zone, j, columns[j])
}

/// The buildings of a block, column by column.
pub open spec fn building_pieces(zone: Zone, columns: Seq<ColumnDraw>) -> Seq<Piece> {
    concat_map(columns.len(), column_fn(zone, columns))
}

/// Cell `k` of the forest grid is `(k / 9, k % 9)`; every other cell holds a tree.
pub open spec fn forest_cell(k: int) -> Seq<Piece> {
    let x = k / 9;
    let z = k % 9;
    if (x + z) % 2 == 1 {
        tree(750 + 325 * x, 850 + 300 * z)
    } else {
        Seq::empty()
    }
}

pub open spec fn forest_cell_fn() -> spec_fn(int) -> Seq<Piece> {
    |k: int| forest_cell(k)
}

/// The number of cells of the forest grid (13 columns of 9 cells).
pub const FOREST_CELLS: u32 = 117;

/// The trees of a forest block.
pub open spec fn forest_trees() -> Seq<Piece> {
    concat_map(FOREST_CELLS as nat, forest_cell_fn())
}

/// Row `i` of the low-density hedges: a tree on each side of the block.
pub open spec fn hedge_row(i: int) -> Seq<Piece> {
    tree(750, 750 + 400 * i) + tree(4750, 750 + 400 * i)
}

pub open spec fn hedge_row_fn() -> spec_fn(int) -> Seq<Piece> {
    |i: int| hedge_row(i)
}

pub open spec fn fence_fn() -> spec_fn(int) -> Seq<Piece> {
    |i: int| seq![fence_post(750 + 600 * i)]
}

/// The decorations of a low-density block: seven rows of hedge trees, then
/// five fence posts down the middle.
pub open spec fn low_density_decor() -> Seq<Piece> {
    concat_map(7, hedge_row_fn()) + concat_map(5, fence_fn())
}

pub open spec fn street_tree_fn() -> spec_fn(int) -> Seq<Piece> {
    |j: int| tree(900 * (j + 1), 2000)
}

/// The decorations of a medium-density block: four trees between the rows.
pub open spec fn medium_density_decor() -> Seq<Piece> {
    concat_map(4, street_tree_fn())
}

/// The decorations of a zone (high-density blocks have none).
pub open spec fn zone_decor(zone: Zone) -> Seq<Piece> {
    match zone {
        Zone::Forest => forest_trees(),
        Zone::LowDensity => low_density_decor(),
        Zone::MediumDensity => medium_density_decor(),
        Zone::HighDensity => Seq::empty(),
    }
}

/// What a zone puts on its block: buildings unless disabled, then
/// decorations unless disabled.
pub open spec fn zone_pieces(zone: Zone, config: SpawnConfig, columns: Seq<ColumnDraw>) -> Seq<Piece> {
    (if config.no_buildings { Seq::empty() } else { building_pieces(zone, columns) })
        + (if config.no_decorations { Seq::empty() } else { zone_decor(zone) })
}

/// Every piece of a block, in spawn order: the two road strips, the parked
/// cars, the ground tile and, unless the city is minimal, the zone's pieces.
pub open spec fn block_pieces_spec(
    zone: Zone,
    config: SpawnConfig,
    cars: Seq<CarDraw>,
    columns: Seq<ColumnDraw>,
) -> Seq<Piece> {
    seq![horizontal_road(), vertical_road()] + car_pieces(cars) + seq![ground_tile()] + (
    if config.minimal {
        Seq::empty()
    } else {
        zone_pieces(zone, config, columns)
    })
}

// ---------------------------------------------------------------------------
// The block grid
// ---------------------------------------------------------------------------

/// The lowest grid coordinate along each side: `-(size / 2)`. Each side runs
/// over the `size` coordinates from `grid_low(size)` up to `size - size / 2`
/// (exclusive), so the city is `size` blocks wide and deep.
pub open spec fn grid_low(size: u32) -> int {
    -(size as int / 2)
}

/// The grid coordinates of every block, x-major: block `k` is
/// `(lo + k / size, lo + k % size)` for `lo = grid_low(size)`.
pub open spec fn grid_cells(size: u32) -> Seq<(i32, i32)> {
    let lo = grid_low(size);
    Seq::new((size * size) as nat, |k: int| ((lo + k / (size as int)) as i32, (lo + k % (size as int)) as i32))
}

} // verus!
