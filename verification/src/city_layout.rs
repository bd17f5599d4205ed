//! Laying out the pieces of a block, and the grid of blocks.

use vstd::prelude::*;
use crate::city::{
    block_pieces_spec, building, building_pieces, car, car_pieces, car_slot, car_slot_fn,
    column_fn, column_height, column_pieces, column_x, concat_map, cube, cylinder, fence_fn,
    fence_post, forest_cell, forest_cell_fn, forest_trees, front_row_z, grid_cells, grid_low,
    ground_tile, hedge_row, hedge_row_fn, horizontal_road, low_density_decor, m3,
    medium_density_decor, street_tree_fn, tree, vertical_road, zone_decor, zone_pieces,
    draws_shaped, BlockDraws, BuildingHeight, CarDraw, ColumnDraw, Milli3, Paint, Piece, Shape,
    SpawnConfig, UnitSample, Zone, FOREST_CELLS,
};

verus! {

/// One more step of a [`concat_map`].
pub proof fn lemma_concat_map_step<A>(n: nat, f: spec_fn(int) -> Seq<A>)
    ensures
        concat_map(n + 1, f) == concat_map(n, f) + f(n as int),
{
}

/// Two [`concat_map`]s agree where their functions agree.
pub proof fn lemma_concat_map_congruent<A>(
    n: nat,
    f: spec_fn(int) -> Seq<A>,
    g: spec_fn(int) -> Seq<A>,
)
    requires
        forall|i: int| 0 <= i < n ==> #[trigger] f(i) == g(i),
    ensures
        concat_map(n, f) == concat_map(n, g),
    decreases n,
{
    if n > 0 {
        lemma_concat_map_congruent((n - 1) as nat, f, g);
        assert(f(n - 1) == g(n - 1));
    }
}

fn mk3(x: i32, y: i32, z: i32) -> (m: Milli3)
    ensures
        m == m3(x as int, y as int, z as int),
{
    Milli3 { x, y, z }
}

fn push_cube(v: &mut Vec<Piece>, paint: Paint, center: Milli3, size: Milli3)
    ensures
        final(v)@ == old(v)@.push(cube(paint, center, size)),
{
    v.push(Piece { shape: Shape::Cube, paint, center, size, height: None });
}

fn push_cylinder(v: &mut Vec<Piece>, paint: Paint, center: Milli3, size: Milli3)
    ensures
        final(v)@ == old(v)@.push(cylinder(paint, center, size)),
{
    v.push(Piece { shape: Shape::Cylinder, paint, center, size, height: None });
}

fn push_tree(v: &mut Vec<Piece>, x: i32, z: i32)
    ensures
        final(v)@ == old(v)@ + tree(x as int, z as int),
{
    push_cylinder(v, Paint::Trunk, mk3(x, 400, z), mk3(80, 800, 80));
    push_cube(v, Paint::Canopy, mk3(x, 1100, z), mk3(500, 500, 500));
    assert(final(v)@ =~= old(v)@ + tree(x as int, z as int));
}

fn push_cars(v: &mut Vec<Piece>, cars: &Vec<CarDraw>)
    requires
        cars@.len() <= 6,
    ensures
        final(v)@ == old(v)@ + car_pieces(cars@),
{
    let ghost start = v@;
    let n = cars.len();
    let mut i: usize = 0;
    while i < n
        invariant
            n == cars@.len(),
            n <= 6,
            0 <= i <= n,
            v@ == start + concat_map(i as nat, car_slot_fn(cars@)),
        decreases n - i,
    {
        proof {
            lemma_concat_map_step(i as nat, car_slot_fn(cars@));
        }
        let d = cars[i];
        match d.color {
            Some(c) => {
                let slot = i as i32;
                push_cube(v, Paint::Car(c), mk3(750 + 800 * slot, 350, -250), mk3(500, 300, 300));
                assert(car_slot(cars@, i as int) == seq![car(i as int, c)]);
            },
            None => {
                assert(car_slot(cars@, i as int) =~= Seq::<Piece>::empty());
            },
        }
        i = i + 1;
        assert(v@ =~= start + concat_map(i as nat, car_slot_fn(cars@)));
    }
}

fn exec_column_height(zone: Zone, sample: UnitSample, back: bool) -> (h: BuildingHeight)
    ensures
        h == column_height(zone, sample, back),
{
    match zone {
        Zone::MediumDensity => BuildingHeight {
            sample,
            base: 1500,
            span: 2500,
            factor: if back { 700 } else { 1000 },
        },
        Zone::HighDensity => BuildingHeight {
            sample,
            base: 2000,
            span: 3000,
            factor: if back { 800 } else { 1000 },
        },
        _ => BuildingHeight { sample, base: 1000, span: 1500, factor: 1000 },
    }
}

fn exec_column_x(zone: Zone, j: i32) -> (x: i32)
    requires
        0 <= j < 5,
    ensures
        x == column_x(zone, j as int),
{
    match zone {
        Zone::MediumDensity => 900 * (j + 1),
        Zone::HighDensity => 1250 + 1500 * j,
        _ => 1800 * (j + 1),
    }
}

fn exec_front_row_z(zone: Zone) -> (z: i32)
    ensures
        z == front_row_z(zone),
{
    match zone {
        Zone::LowDensity => 1500,
        _ => 1250,
    }
}

fn push_building(v: &mut Vec<Piece>, x: i32, z: i32, color: usize, height: BuildingHeight)
    ensures
        final(v)@ == old(v)@.push(building(x as int, z as int, color, height)),
{
    v.push(
        Piece {
            shape: Shape::Cube,
            paint: Paint::Building(color),
            center: mk3(x, 0, z),
            size: mk3(700, 0, 700),
            height: Some(height),
        },
    );
}

fn push_buildings(v: &mut Vec<Piece>, zone: Zone, columns: &Vec<ColumnDraw>)
    requires
        columns@.len() <= 5,
    ensures
        final(v)@ == old(v)@ + building_pieces(zone, columns@),
{
    let ghost start = v@;
    let n = columns.len();
    let mut j: usize = 0;
    while j < n
        invariant
            n == columns@.len(),
            n <= 5,
            0 <= j <= n,
            v@ == start + concat_map(j as nat, column_fn(zone, columns@)),
        decreases n - j,
    {
        proof {
            lemma_concat_map_step(j as nat, column_fn(zone, columns@));
        }
        let d = columns[j];
        let x = exec_column_x(zone, j as i32);
        let front = exec_front_row_z(zone);
        push_building(v, x, front, d.front_color, exec_column_height(zone, d.sample, false));
        push_building(v, x, 3000, d.back_color, exec_column_height(zone, d.sample, true));
        assert(column_pieces(zone, j as int, columns@[j as int]) =~= seq![
            building(x as int, front as int, d.front_color, column_height(zone, d.sample, false)),
            building(x as int, 3000, d.back_color, column_height(zone, d.sample, true)),
        ]);
        j = j + 1;
        assert(v@ =~= start + concat_map(j as nat, column_fn(zone, columns@)));
    }
}

fn push_forest(v: &mut Vec<Piece>)
    ensures
        final(v)@ == old(v)@ + forest_trees(),
{
    let ghost start = v@;
    let mut k: u32 = 0;
    while k < FOREST_CELLS
        invariant
            0 <= k <= FOREST_CELLS,
            v@ == start + concat_map(k as nat, forest_cell_fn()),
        decreases FOREST_CELLS - k,
    {
        proof {
            lemma_concat_map_step(k as nat, forest_cell_fn());
        }
        let x = k / 9;
        let z = k % 9;
        if (x + z) % 2 == 1 {
            push_tree(v, 750 + 325 * (x as i32), 850 + 300 * (z as i32));
        } else {
            assert(forest_cell(k as int) =~= Seq::<Piece>::empty());
        }
        k = k + 1;
        assert(v@ =~= start + concat_map(k as nat, forest_cell_fn()));
    }
}

fn push_low_density_decor(v: &mut Vec<Piece>)
    ensures
        final(v)@ == old(v)@ + low_density_decor(),
{
    let ghost start = v@;
    let mut i: i32 = 0;
    while i <= 6
        invariant
            0 <= i <= 7,
            v@ == start + concat_map(i as nat, hedge_row_fn()),
        decreases 7 - i,
    {
        proof {
            lemma_concat_map_step(i as nat, hedge_row_fn());
        }
        push_tree(v, 750, 750 + 400 * i);
        push_tree(v, 4750, 750 + 400 * i);
        assert(hedge_row(i as int) == tree(750, 750 + 400 * i) + tree(4750, 750 + 400 * i));
        i = i + 1;
        assert(v@ =~= start + concat_map(i as nat, hedge_row_fn()));
    }
    let ghost mid = v@;
    let mut i: i32 = 0;
    while i <= 4
        invariant
            0 <= i <= 5,
            v@ == mid + concat_map(i as nat, fence_fn()),
        decreases 5 - i,
    {
        proof {
            lemma_concat_map_step(i as nat, fence_fn());
        }
        push_cylinder(v, Paint::Fence, mk3(2750, 150, 750 + 600 * i), mk3(80, 300, 80));
        assert(fence_post(750 + 600 * i) == cylinder(Paint::Fence, m3(2750, 150, 750 + 600 * i), m3(80, 300, 80)));
        i = i + 1;
        assert(v@ =~= mid + concat_map(i as nat, fence_fn()));
    }
    assert(v@ =~= start + low_density_decor());
}

fn push_medium_density_decor(v: &mut Vec<Piece>)
    ensures
        final(v)@ == old(v)@ + medium_density_decor(),
{
    let ghost start = v@;
    let mut j: i32 = 0;
    while j < 4
        invariant
            0 <= j <= 4,
            v@ == start + concat_map(j as nat, street_tree_fn()),
        decreases 4 - j,
    {
        proof {
            lemma_concat_map_step(j as nat, street_tree_fn());
        }
        push_tree(v, 900 * (j + 1), 2000);
        j = j + 1;
        assert(v@ =~= start + concat_map(j as nat, street_tree_fn()));
    }
}

fn push_zone_decor(v: &mut Vec<Piece>, zone: Zone)
    ensures
        final(v)@ == old(v)@ + zone_decor(zone),
{
    match zone {
        Zone::Forest => push_forest(v),
        Zone::LowDensity => push_low_density_decor(v),
        Zone::MediumDensity => push_medium_density_decor(v),
        Zone::HighDensity => {
            assert(v@ =~= v@ + Seq::<Piece>::empty());
        },
    }
}

/// Lays out every piece of a block from its zone, the configuration and its
/// draws, in spawn order.
pub fn block_pieces(zone: Zone, config: SpawnConfig, draws: &BlockDraws) -> (v: Vec<Piece>)
    requires
        draws_shaped(zone, config, draws.cars@, draws.columns@),
    ensures
        v@ == block_pieces_spec(zone, config, draws.cars@, draws.columns@),
{
    let mut v: Vec<Piece> = Vec::new();
    push_cube(&mut v, Paint::Road, mk3(2750, -350, 0), mk3(5500, 500, 1000));
    push_cube(&mut v, Paint::Road, mk3(0, -350, 2000), mk3(1000, 500, 4000));
    push_cars(&mut v, &draws.cars);
    push_cube(&mut v, Paint::Ground, mk3(2750, -500, 2000), mk3(5500, 400, 4000));
    let ghost base = v@;
    assert(base =~= seq![horizontal_road(), vertical_road()] + car_pieces(draws.cars@) + seq![ground_tile()]);
    if !config.minimal {
        if !config.no_buildings {
            push_buildings(&mut v, zone, &draws.columns);
        }
        if !config.no_decorations {
            push_zone_decor(&mut v, zone);
        }
        assert(v@ =~= base + zone_pieces(zone, config, draws.columns@));
    } else {
        assert(v@ =~= base + Seq::<Piece>::empty());
    }
    v
}


pub proof fn lemma_div_below(k: int, w: int)
    requires
        0 < w,
        0 <= k < w * w,
    ensures
        0 <= k / w < w,
        0 <= k % w < w,
{
    assert(0 <= k / w < w) by (nonlinear_arith)
        requires
            0 < w,
            0 <= k < w * w,
    ;
}

/// The grid coordinates of every block of a city of `size` blocks per side,
/// x-major, each coordinate running over the `size` values from `-(size / 2)`
/// up to `size - size / 2` (exclusive).
pub fn block_grid(size: u32) -> (cells: Vec<(i32, i32)>)
    requires
        size * size <= usize::MAX,
    ensures
        cells@ == grid_cells(size),
{
    let low: i64 = -((size / 2) as i64);
    assert(low == grid_low(size));
    let w: usize = size as usize;
    let n: usize = w * w;
    let mut cells: Vec<(i32, i32)> = Vec::new();
    let mut k: usize = 0;
    while k < n
        invariant
            low == grid_low(size),
            w == size,
            n == w * w,
            0 <= k <= n,
            cells@.len() == k,
            forall|j: int| 0 <= j < k ==> #[trigger] cells@[j] == grid_cells(size)[j],
        decreases n - k,
    {
        proof {
            lemma_div_below(k as int, w as int);
        }
        let x: i32 = (low + (k / w) as i64) as i32;
        let z: i32 = (low + (k % w) as i64) as i32;
        cells.push((x, z));
        k = k + 1;
    }
    assert(cells@ =~= grid_cells(size));
    cells
}

} // verus!
