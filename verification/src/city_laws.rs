//! What holds of every planned block and of the block grid.

use vstd::prelude::*;
use vstd::arithmetic::div_mod::lemma_fundamental_div_mod;
use crate::city_layout::lemma_div_below;
use crate::city::{
    block_pieces_spec, building_pieces, car_pieces, car_slot, car_slot_fn, cars_enabled, column_fn,
    column_pieces, concat_map, draws_fit, draws_shaped, fence_fn, forest_cell_fn, grid_cells,
    grid_low, ground_tile, hedge_row_fn, horizontal_road, street_tree_fn, tree,
    vertical_road, zone_columns, zone_decor, zone_pieces, CarDraw, ColumnDraw, Milli3, Paint,
    Piece, Shape, SpawnConfig, Zone,
};

verus! {

/// Every element of `s` satisfies `p`.
pub open spec fn all_pieces(s: Seq<Piece>, p: spec_fn(Piece) -> bool) -> bool {
    forall|j: int| 0 <= j < s.len() ==> p(#[trigger] s[j])
}

/// The piece stands on the block's ground tile: its centre lies within
/// x in [0, 5.5] and z in [0, 4].
pub open spec fn on_ground_tile(p: Piece) -> bool {
    &&& 0 <= p.center.x <= 5500
    &&& 0 <= p.center.z <= 4000
}

/// The piece lies on the block's horizontal road strip: its centre lies
/// within x in [0, 5.5] and z in [-0.5, 0.5].
pub open spec fn on_horizontal_road(p: Piece) -> bool {
    &&& 0 <= p.center.x <= 5500
    &&& -500 <= p.center.z <= 500
}

/// The mesh that every piece of a material uses: trunks and fence posts are
/// cylinders, everything else is a cube.
pub open spec fn paint_shape(paint: Paint) -> Shape {
    match paint {
        Paint::Trunk => Shape::Cylinder,
        Paint::Fence => Shape::Cylinder,
        _ => Shape::Cube,
    }
}

/// Where each kind of piece may stand, which options allow it, and its mesh.
pub open spec fn placed_ok(config: SpawnConfig, p: Piece) -> bool {
    &&& p.shape == paint_shape(p.paint)
    &&& match p.paint {
        Paint::Road => true,
        Paint::Ground => true,
        Paint::Car(_) => cars_enabled(config) && on_horizontal_road(p),
        Paint::Building(_) => !config.minimal && !config.no_buildings && on_ground_tile(p),
        _ => !config.minimal && !config.no_decorations && on_ground_tile(p),
    }
}

pub open spec fn placed_ok_fn(config: SpawnConfig) -> spec_fn(Piece) -> bool {
    |p: Piece| placed_ok(config, p)
}

/// Every palette index of the piece is within its palette.
pub open spec fn colors_ok(car_colors: nat, building_colors: nat, p: Piece) -> bool {
    match p.paint {
        Paint::Car(c) => c < car_colors,
        Paint::Building(c) => c < building_colors,
        _ => true,
    }
}

pub open spec fn colors_ok_fn(car_colors: nat, building_colors: nat) -> spec_fn(Piece) -> bool {
    |p: Piece| colors_ok(car_colors, building_colors, p)
}

proof fn lemma_all_add(a: Seq<Piece>, b: Seq<Piece>, p: spec_fn(Piece) -> bool)
    requires
        all_pieces(a, p),
        all_pieces(b, p),
    ensures
        all_pieces(a + b, p),
{
    assert forall|j: int| 0 <= j < (a + b).len() implies p(#[trigger] (a + b)[j]) by {
        if j < a.len() {
            assert((a + b)[j] == a[j]);
        } else {
            assert((a + b)[j] == b[j - a.len()]);
        }
    }
}

proof fn lemma_concat_map_all(n: nat, f: spec_fn(int) -> Seq<Piece>, p: spec_fn(Piece) -> bool)
    requires
        forall|i: int| 0 <= i < n ==> all_pieces(#[trigger] f(i), p),
    ensures
        all_pieces(concat_map(n, f), p),
    decreases n,
{
    if n > 0 {
        lemma_concat_map_all((n - 1) as nat, f, p);
        assert(all_pieces(f(n - 1), p));
        lemma_all_add(concat_map((n - 1) as nat, f), f(n - 1), p);
    }
}

/// A decoration: a trunk, canopy or fence post on the ground tile.
pub open spec fn decoration(p: Piece) -> bool {
    &&& p.shape == paint_shape(p.paint)
    &&& (p.paint is Trunk || p.paint is Canopy || p.paint is Fence)
    &&& on_ground_tile(p)
}

pub open spec fn decoration_fn() -> spec_fn(Piece) -> bool {
    |p: Piece| decoration(p)
}

proof fn lemma_tree_decoration(x: int, z: int)
    requires
        0 <= x <= 5500,
        0 <= z <= 4000,
    ensures
        all_pieces(tree(x, z), decoration_fn()),
{
    assert(all_pieces(tree(x, z), decoration_fn()));
}

proof fn lemma_decor_decoration(zone: Zone)
    ensures
        all_pieces(zone_decor(zone), decoration_fn()),
{
    let p = decoration_fn();
    match zone {
        Zone::Forest => {
            assert forall|k: int| 0 <= k < 117 implies all_pieces(#[trigger] forest_cell_fn()(k), p) by {
                let x = k / 9;
                let z = k % 9;
                if (x + z) % 2 == 1 {
                    lemma_tree_decoration(750 + 325 * x, 850 + 300 * z);
                }
            }
            lemma_concat_map_all(117, forest_cell_fn(), p);
        },
        Zone::LowDensity => {
            assert forall|i: int| 0 <= i < 7 implies all_pieces(#[trigger] hedge_row_fn()(i), p) by {
                lemma_tree_decoration(750, 750 + 400 * i);
                lemma_tree_decoration(4750, 750 + 400 * i);
                lemma_all_add(tree(750, 750 + 400 * i), tree(4750, 750 + 400 * i), p);
            }
            lemma_concat_map_all(7, hedge_row_fn(), p);
            assert forall|i: int| 0 <= i < 5 implies all_pieces(#[trigger] fence_fn()(i), p) by {}
            lemma_concat_map_all(5, fence_fn(), p);
            lemma_all_add(concat_map(7, hedge_row_fn()), concat_map(5, fence_fn()), p);
        },
        Zone::MediumDensity => {
            assert forall|j: int| 0 <= j < 4 implies all_pieces(#[trigger] street_tree_fn()(j), p) by {
                lemma_tree_decoration(900 * (j + 1), 2000);
            }
            lemma_concat_map_all(4, street_tree_fn(), p);
        },
        Zone::HighDensity => {},
    }
}

proof fn lemma_decor_placed(config: SpawnConfig, zone: Zone)
    requires
        !config.minimal,
        !config.no_decorations,
    ensures
        all_pieces(zone_decor(zone), placed_ok_fn(config)),
{
    lemma_decor_decoration(zone);
    let s = zone_decor(zone);
    assert forall|j: int| 0 <= j < s.len() implies placed_ok_fn(config)(#[trigger] s[j]) by {
        assert(decoration_fn()(s[j]));
    }
}

proof fn lemma_buildings_placed(config: SpawnConfig, zone: Zone, columns: Seq<ColumnDraw>)
    requires
        !config.minimal,
        !config.no_buildings,
        columns.len() == zone_columns(zone),
    ensures
        all_pieces(building_pieces(zone, columns), placed_ok_fn(config)),
{
    let p = placed_ok_fn(config);
    assert forall|j: int| 0 <= j < columns.len() implies all_pieces(
        #[trigger] column_fn(zone, columns)(j),
        p,
    ) by {
        assert(all_pieces(column_pieces(zone, j, columns[j]), p));
    }
    lemma_concat_map_all(columns.len(), column_fn(zone, columns), p);
}

proof fn lemma_cars_placed(config: SpawnConfig, cars: Seq<CarDraw>)
    requires
        cars.len() == (if cars_enabled(config) { 6nat } else { 0nat }),
    ensures
        all_pieces(car_pieces(cars), placed_ok_fn(config)),
{
    let p = placed_ok_fn(config);
    assert forall|i: int| 0 <= i < cars.len() implies all_pieces(#[trigger] car_slot_fn(cars)(i), p) by {
        assert(all_pieces(car_slot(cars, i), p));
    }
    lemma_concat_map_all(cars.len(), car_slot_fn(cars), p);
}

proof fn lemma_block_placed(
    zone: Zone,
    config: SpawnConfig,
    cars: Seq<CarDraw>,
    columns: Seq<ColumnDraw>,
)
    requires
        draws_shaped(zone, config, cars, columns),
    ensures
        all_pieces(block_pieces_spec(zone, config, cars, columns), placed_ok_fn(config)),
{
    let p = placed_ok_fn(config);
    let roads = seq![horizontal_road(), vertical_road()];
    assert(all_pieces(roads, p));
    assert(all_pieces(seq![ground_tile()], p));
    lemma_cars_placed(config, cars);
    lemma_all_add(roads, car_pieces(cars), p);
    lemma_all_add(roads + car_pieces(cars), seq![ground_tile()], p);
    let head = roads + car_pieces(cars) + seq![ground_tile()];
    if config.minimal {
        lemma_all_add(head, Seq::empty(), p);
    } else {
        let b = if config.no_buildings {
            Seq::empty()
        } else {
            building_pieces(zone, columns)
        };
        let d = if config.no_decorations {
            Seq::empty()
        } else {
            zone_decor(zone)
        };
        if !config.no_buildings {
            lemma_buildings_placed(config, zone, columns);
        }
        if !config.no_decorations {
            lemma_decor_placed(config, zone);
        }
        assert(all_pieces(b, p));
        assert(all_pieces(d, p));
        lemma_all_add(b, d, p);
        lemma_all_add(head, zone_pieces(zone, config, columns), p);
    }
}

/// Every building, tree and fence post of a block stands on the block's
/// ground tile and every car parks on the block's horizontal road strip.
pub proof fn law_pieces_stay_on_their_block(
    zone: Zone,
    config: SpawnConfig,
    cars: Seq<CarDraw>,
    columns: Seq<ColumnDraw>,
)
    requires
        draws_shaped(zone, config, cars, columns),
    ensures
        forall|j: int|
            0 <= j < block_pieces_spec(zone, config, cars, columns).len() ==> {
                let p = #[trigger] block_pieces_spec(zone, config, cars, columns)[j];
                &&& (p.paint is Car ==> on_horizontal_road(p))
                &&& (p.paint is Building || p.paint is Trunk || p.paint is Canopy
                    || p.paint is Fence ==> on_ground_tile(p))
            },
{
    lemma_block_placed(zone, config, cars, columns);
    let s = block_pieces_spec(zone, config, cars, columns);
    assert forall|j: int| 0 <= j < s.len() implies {
        let p = #[trigger] s[j];
        &&& (p.paint is Car ==> on_horizontal_road(p))
        &&& (p.paint is Building || p.paint is Trunk || p.paint is Canopy || p.paint is Fence
            ==> on_ground_tile(p))
    } by {
        assert(placed_ok_fn(config)(s[j]));
    }
}

/// All pieces of one material share one mesh: trunks and fence posts are
/// cylinders, every other piece is a cube.
pub proof fn law_materials_share_meshes(
    zone: Zone,
    config: SpawnConfig,
    cars: Seq<CarDraw>,
    columns: Seq<ColumnDraw>,
)
    requires
        draws_shaped(zone, config, cars, columns),
    ensures
        forall|j: int|
            0 <= j < block_pieces_spec(zone, config, cars, columns).len() ==> {
                let p = #[trigger] block_pieces_spec(zone, config, cars, columns)[j];
                p.shape == paint_shape(p.paint)
            },
{
    lemma_block_placed(zone, config, cars, columns);
    let s = block_pieces_spec(zone, config, cars, columns);
    assert forall|j: int| 0 <= j < s.len() implies (#[trigger] s[j]).shape == paint_shape(
        s[j].paint,
    ) by {
        assert(placed_ok_fn(config)(s[j]));
    }
}

/// The spawn options are honoured: no car when cars are off or the city is
/// minimal, no building when buildings are off, no tree or fence when
/// decorations are off, and nothing but roads and ground in a minimal city.
pub proof fn law_spawn_options_honoured(
    zone: Zone,
    config: SpawnConfig,
    cars: Seq<CarDraw>,
    columns: Seq<ColumnDraw>,
)
    requires
        draws_shaped(zone, config, cars, columns),
    ensures
        forall|j: int|
            0 <= j < block_pieces_spec(zone, config, cars, columns).len() ==> {
                let p = #[trigger] block_pieces_spec(zone, config, cars, columns)[j];
                &&& (config.no_cars || config.minimal ==> !(p.paint is Car))
                &&& (config.no_buildings || config.minimal ==> !(p.paint is Building))
                &&& (config.no_decorations || config.minimal ==> !(p.paint is Trunk)
                    && !(p.paint is Canopy) && !(p.paint is Fence))
            },
{
    lemma_block_placed(zone, config, cars, columns);
    let s = block_pieces_spec(zone, config, cars, columns);
    assert forall|j: int| 0 <= j < s.len() implies {
        let p = #[trigger] s[j];
        &&& (config.no_cars || config.minimal ==> !(p.paint is Car))
        &&& (config.no_buildings || config.minimal ==> !(p.paint is Building))
        &&& (config.no_decorations || config.minimal ==> !(p.paint is Trunk) && !(p.paint is Canopy)
            && !(p.paint is Fence))
    } by {
        assert(placed_ok_fn(config)(s[j]));
    }
}

/// A minimal block holds exactly its two road strips and its ground tile.
pub proof fn law_minimal_block(
    zone: Zone,
    config: SpawnConfig,
    cars: Seq<CarDraw>,
    columns: Seq<ColumnDraw>,
)
    requires
        config.minimal,
        draws_shaped(zone, config, cars, columns),
    ensures
        block_pieces_spec(zone, config, cars, columns) == seq![
            horizontal_road(),
            vertical_road(),
            ground_tile(),
        ],
{
    assert(car_pieces(cars) =~= Seq::<Piece>::empty());
    assert(block_pieces_spec(zone, config, cars, columns) =~= seq![
        horizontal_road(),
        vertical_road(),
        ground_tile(),
    ]);
}

proof fn lemma_block_colors(
    zone: Zone,
    config: SpawnConfig,
    cars: Seq<CarDraw>,
    columns: Seq<ColumnDraw>,
    car_colors: nat,
    building_colors: nat,
)
    requires
        draws_fit(zone, config, cars, columns, car_colors, building_colors),
    ensures
        all_pieces(
            block_pieces_spec(zone, config, cars, columns),
            colors_ok_fn(car_colors, building_colors),
        ),
{
    let p = colors_ok_fn(car_colors, building_colors);
    assert forall|i: int| 0 <= i < cars.len() implies all_pieces(#[trigger] car_slot_fn(cars)(i), p) by {
        assert(all_pieces(car_slot(cars, i), p));
    }
    lemma_concat_map_all(cars.len(), car_slot_fn(cars), p);
    assert forall|j: int| 0 <= j < columns.len() implies all_pieces(
        #[trigger] column_fn(zone, columns)(j),
        p,
    ) by {
        assert(all_pieces(column_pieces(zone, j, columns[j]), p));
    }
    lemma_concat_map_all(columns.len(), column_fn(zone, columns), p);
    let s = block_pieces_spec(zone, config, cars, columns);
    assert forall|j: int| 0 <= j < s.len() implies p(#[trigger] s[j]) by {
        let q = s[j];
        if q.paint is Car || q.paint is Building {
            let roads = seq![horizontal_road(), vertical_road()];
            let head = roads + car_pieces(cars) + seq![ground_tile()];
            let rest = if config.minimal {
                Seq::empty()
            } else {
                zone_pieces(zone, config, columns)
            };
            assert(s == head + rest);
            if j < head.len() {
                assert(head[j] == q);
                assert((roads + car_pieces(cars))[j] == q);
                assert(car_pieces(cars)[j - 2] == q);
            } else {
                let b = if config.no_buildings {
                    Seq::empty()
                } else {
                    building_pieces(zone, columns)
                };
                let d = if config.no_decorations {
                    Seq::empty()
                } else {
                    zone_decor(zone)
                };
                assert(rest == b + d);
                let r = j - head.len();
                assert(rest[r] == q);
                if r < b.len() {
                    assert(b[r] == q);
                } else {
                    if !config.no_decorations {
                        lemma_decor_decoration(zone);
                        assert(decoration_fn()(d[r - b.len()]));
                    }
                    assert(d[r - b.len()] == q);
                    assert(false);
                }
            }
        }
    }
}

/// Every palette index that a block uses is within its palette.
pub proof fn law_palette_indices_in_range(
    zone: Zone,
    config: SpawnConfig,
    cars: Seq<CarDraw>,
    columns: Seq<ColumnDraw>,
    car_colors: nat,
    building_colors: nat,
)
    requires
        draws_fit(zone, config, cars, columns, car_colors, building_colors),
    ensures
        forall|j: int|
            0 <= j < block_pieces_spec(zone, config, cars, columns).len() ==> {
                let p = #[trigger] block_pieces_spec(zone, config, cars, columns)[j];
                &&& (p.paint matches Paint::Car(c) ==> c < car_colors)
                &&& (p.paint matches Paint::Building(c) ==> c < building_colors)
            },
{
    lemma_block_colors(zone, config, cars, columns, car_colors, building_colors);
    let s = block_pieces_spec(zone, config, cars, columns);
    assert forall|j: int| 0 <= j < s.len() implies {
        let p = #[trigger] s[j];
        &&& (p.paint matches Paint::Car(c) ==> c < car_colors)
        &&& (p.paint matches Paint::Building(c) ==> c < building_colors)
    } by {
        assert(colors_ok_fn(car_colors, building_colors)(s[j]));
    }
}

/// A city of `size` blocks per side has `size * size` blocks, at distinct grid
/// cells, each coordinate in `[-(size / 2), size - size / 2)`: the blocks tile
/// the square once each.
pub proof fn law_grid_tiles_square(size: u32)
    ensures
        grid_cells(size).len() == size * size,
        forall|k: int|
            0 <= k < grid_cells(size).len() ==> {
                let c = #[trigger] grid_cells(size)[k];
                &&& grid_low(size) <= c.0 < grid_low(size) + size
                &&& grid_low(size) <= c.1 < grid_low(size) + size
            },
        forall|i: int, j: int|
            0 <= i < grid_cells(size).len() && 0 <= j < grid_cells(size).len() && i != j
                ==> #[trigger] grid_cells(size)[i] != #[trigger] grid_cells(size)[j],
{
    let lo = grid_low(size);
    let w = size as int;
    let cells = grid_cells(size);
    assert(0 <= w * w) by (nonlinear_arith)
        requires
            0 <= w,
    ;
    assert forall|k: int| 0 <= k < cells.len() implies {
        let c = #[trigger] cells[k];
        &&& lo <= c.0 < lo + w
        &&& lo <= c.1 < lo + w
    } by {
        lemma_div_below(k, w);
    }
    assert forall|i: int, j: int|
        0 <= i < cells.len() && 0 <= j < cells.len() && i != j implies #[trigger] cells[i]
        != #[trigger] cells[j] by {
        lemma_div_below(i, w);
        lemma_div_below(j, w);
        lemma_fundamental_div_mod(i, w);
        lemma_fundamental_div_mod(j, w);
        if cells[i] == cells[j] {
            assert(i / w == j / w);
            assert(i % w == j % w);
            assert(i == j);
        }
    }
}

/// A [`concat_map`] of pieces of `c` elements each: element `r` of part `i`
/// is at `i * c + r`.
proof fn lemma_concat_map_uniform(n: nat, f: spec_fn(int) -> Seq<Piece>, c: nat)
    requires
        forall|i: int| 0 <= i < n ==> (#[trigger] f(i)).len() == c,
    ensures
        concat_map(n, f).len() == n * c,
        forall|i: int, r: int|
            #![trigger f(i)[r]]
            0 <= i < n && 0 <= r < c ==> concat_map(n, f)[i * c + r] == f(i)[r],
    decreases n,
{
    if n > 0 {
        let m = (n - 1) as nat;
        lemma_concat_map_uniform(m, f, c);
        assert(f(m as int).len() == c);
        assert(m * c + c == n * c) by (nonlinear_arith)
            requires
                m + 1 == n,
        ;
        assert forall|i: int, r: int| 0 <= i < n && 0 <= r < c implies concat_map(n, f)[i * c + r]
            == #[trigger] f(i)[r] by {
            if i < m {
                assert(i * c + r < m * c) by (nonlinear_arith)
                    requires
                        0 <= i < m,
                        0 <= r < c,
                ;
            } else {
                assert(i * c == m * c);
            }
        }
    }
}

/// Where the front building of column `j` stands in a block's pieces.
pub open spec fn front_building_index(cars: Seq<CarDraw>, j: int) -> int {
    zone_start(cars) + 2 * j
}

/// Where hedge row `i` of a low-density block starts in the block's pieces.
pub open spec fn hedge_row_index(cars: Seq<CarDraw>, columns: Seq<ColumnDraw>, i: int) -> int {
    zone_start(cars) + 2 * columns.len() + 4 * i
}

/// Where the zone's pieces start in a block that is not minimal.
pub open spec fn zone_start(cars: Seq<CarDraw>) -> int {
    3 + car_pieces(cars).len() as int
}

proof fn lemma_zone_part(
    zone: Zone,
    config: SpawnConfig,
    cars: Seq<CarDraw>,
    columns: Seq<ColumnDraw>,
    k: int,
)
    requires
        !config.minimal,
        0 <= k < zone_pieces(zone, config, columns).len(),
    ensures
        block_pieces_spec(zone, config, cars, columns)[zone_start(cars) + k] == zone_pieces(
            zone,
            config,
            columns,
        )[k],
        block_pieces_spec(zone, config, cars, columns).len() == zone_start(cars) + zone_pieces(
            zone,
            config,
            columns,
        ).len(),
{
    let head = seq![horizontal_road(), vertical_road()] + car_pieces(cars) + seq![ground_tile()];
    assert(head.len() == zone_start(cars));
    assert(block_pieces_spec(zone, config, cars, columns) == head + zone_pieces(zone, config, columns));
}

/// Every building of a column wears its own colour draw: in a block that is
/// not minimal and has buildings, column `j`'s front building (at
/// `zone_start + 2 j`) is painted `columns[j].front_color` and its back
/// building (next) `columns[j].back_color`. Both stand at the column's x, the
/// back one at depth 4 units minus one, behind the front one, and both take
/// their height from the column's sample.
pub proof fn law_buildings_wear_their_own_colours(
    zone: Zone,
    config: SpawnConfig,
    cars: Seq<CarDraw>,
    columns: Seq<ColumnDraw>,
)
    requires
        draws_shaped(zone, config, cars, columns),
        !config.minimal,
        !config.no_buildings,
    ensures
        forall|j: int|
            0 <= j < columns.len() ==> {
                let pieces = block_pieces_spec(zone, config, cars, columns);
                let k = #[trigger] front_building_index(cars, j);
                let front = pieces[k];
                let back = pieces[k + 1];
                &&& k + 1 < pieces.len()
                &&& front.paint == Paint::Building(columns[j].front_color)
                &&& back.paint == Paint::Building(columns[j].back_color)
                &&& front.shape == Shape::Cube && back.shape == Shape::Cube
                &&& front.center.x == back.center.x
                &&& front.center.z < back.center.z
                &&& back.center.z == 3000
                &&& front.height matches Some(h) && h.sample == columns[j].sample
                &&& back.height matches Some(h) && h.sample == columns[j].sample
            },
{
    let f = column_fn(zone, columns);
    assert forall|i: int| 0 <= i < columns.len() implies (#[trigger] f(i)).len() == 2 by {}
    lemma_concat_map_uniform(columns.len(), f, 2);
    let b = building_pieces(zone, columns);
    let d = if config.no_decorations {
        Seq::<Piece>::empty()
    } else {
        zone_decor(zone)
    };
    assert(zone_pieces(zone, config, columns) == b + d);
    assert forall|j: int| 0 <= j < columns.len() implies {
        let pieces = block_pieces_spec(zone, config, cars, columns);
        let k = #[trigger] front_building_index(cars, j);
        let front = pieces[k];
        let back = pieces[k + 1];
        &&& k + 1 < pieces.len()
        &&& front.paint == Paint::Building(columns[j].front_color)
        &&& back.paint == Paint::Building(columns[j].back_color)
        &&& front.shape == Shape::Cube && back.shape == Shape::Cube
        &&& front.center.x == back.center.x
        &&& front.center.z < back.center.z
        &&& back.center.z == 3000
        &&& front.height matches Some(h) && h.sample == columns[j].sample
        &&& back.height matches Some(h) && h.sample == columns[j].sample
    } by {
        assert(f(j)[0] == b[j * 2 + 0]);
        assert(f(j)[1] == b[j * 2 + 1]);
        lemma_zone_part(zone, config, cars, columns, 2 * j);
        lemma_zone_part(zone, config, cars, columns, 2 * j + 1);
        assert((b + d)[2 * j] == b[2 * j]);
        assert((b + d)[2 * j + 1] == b[2 * j + 1]);
    }
}

/// A low-density block with decorations has a hedge of seven trees down each
/// side: for each row `i`, a trunk at `(0.75, 0.4, 0.75 + 0.4 i)` and one at
/// `(4.75, 0.4, 0.75 + 0.4 i)`, each under its canopy 0.7 units higher, the
/// hedge starting after the buildings.
#[verifier::rlimit(40)]
pub proof fn law_low_density_hedges_on_both_sides(
    config: SpawnConfig,
    cars: Seq<CarDraw>,
    columns: Seq<ColumnDraw>,
)
    requires
        draws_shaped(Zone::LowDensity, config, cars, columns),
        !config.minimal,
        !config.no_decorations,
    ensures
        forall|i: int|
            0 <= i < 7 ==> {
                let pieces = block_pieces_spec(Zone::LowDensity, config, cars, columns);
                let k = #[trigger] hedge_row_index(cars, columns, i);
                &&& k + 3 < pieces.len()
                &&& pieces[k] == (Piece {
                    shape: Shape::Cylinder,
                    paint: Paint::Trunk,
                    center: Milli3 { x: 750, y: 400, z: (750 + 400 * i) as i32 },
                    size: Milli3 { x: 80, y: 800, z: 80 },
                    height: None,
                })
                &&& pieces[k + 1].paint == Paint::Canopy
                &&& pieces[k + 1].center == (Milli3 { x: 750, y: 1100, z: (750 + 400 * i) as i32 })
                &&& pieces[k + 2] == (Piece {
                    shape: Shape::Cylinder,
                    paint: Paint::Trunk,
                    center: Milli3 { x: 4750, y: 400, z: (750 + 400 * i) as i32 },
                    size: Milli3 { x: 80, y: 800, z: 80 },
                    height: None,
                })
                &&& pieces[k + 3].paint == Paint::Canopy
                &&& pieces[k + 3].center == (Milli3 { x: 4750, y: 1100, z: (750 + 400 * i) as i32 })
            },
{
    let zone = Zone::LowDensity;
    let f = column_fn(zone, columns);
    assert forall|i: int| 0 <= i < columns.len() implies (#[trigger] f(i)).len() == 2 by {}
    lemma_concat_map_uniform(columns.len(), f, 2);
    let h = hedge_row_fn();
    assert forall|i: int| 0 <= i < 7 implies (#[trigger] h(i)).len() == 4 by {}
    lemma_concat_map_uniform(7, h, 4);
    let b = if config.no_buildings {
        Seq::<Piece>::empty()
    } else {
        building_pieces(zone, columns)
    };
    assert(b.len() == 2 * columns.len());
    let d = zone_decor(zone);
    let hedges = concat_map(7, h);
    let fences = concat_map(5, fence_fn());
    assert(d == hedges + fences);
    assert(zone_pieces(zone, config, columns) == b + d);
    assert forall|i: int| 0 <= i < 7 implies {
        let pieces = block_pieces_spec(Zone::LowDensity, config, cars, columns);
        let k = #[trigger] hedge_row_index(cars, columns, i);
        &&& k + 3 < pieces.len()
        &&& pieces[k] == (Piece {
            shape: Shape::Cylinder,
            paint: Paint::Trunk,
            center: Milli3 { x: 750, y: 400, z: (750 + 400 * i) as i32 },
            size: Milli3 { x: 80, y: 800, z: 80 },
            height: None,
        })
        &&& pieces[k + 1].paint == Paint::Canopy
        &&& pieces[k + 1].center == (Milli3 { x: 750, y: 1100, z: (750 + 400 * i) as i32 })
        &&& pieces[k + 2] == (Piece {
            shape: Shape::Cylinder,
            paint: Paint::Trunk,
            center: Milli3 { x: 4750, y: 400, z: (750 + 400 * i) as i32 },
            size: Milli3 { x: 80, y: 800, z: 80 },
            height: None,
        })
        &&& pieces[k + 3].paint == Paint::Canopy
        &&& pieces[k + 3].center == (Milli3 { x: 4750, y: 1100, z: (750 + 400 * i) as i32 })
    } by {
        let base = 2 * columns.len();
        assert forall|r: int| 0 <= r < 4 implies {
            &&& (b + d)[base + 4 * i + r] == #[trigger] h(i)[r]
            &&& zone_pieces(zone, config, columns).len() > base + 4 * i + r
        } by {
            assert(hedges[i * 4 + r] == h(i)[r]);
            assert(d[4 * i + r] == hedges[4 * i + r]);
        }
        lemma_zone_part(zone, config, cars, columns, base + 4 * i);
        lemma_zone_part(zone, config, cars, columns, base + 4 * i + 1);
        lemma_zone_part(zone, config, cars, columns, base + 4 * i + 2);
        lemma_zone_part(zone, config, cars, columns, base + 4 * i + 3);
        assert(h(i) == tree(750, 750 + 400 * i) + tree(4750, 750 + 400 * i));
        assert(h(i)[0] == tree(750, 750 + 400 * i)[0]);
        assert(h(i)[1] == tree(750, 750 + 400 * i)[1]);
        assert(h(i)[2] == tree(4750, 750 + 400 * i)[0]);
        assert(h(i)[3] == tree(4750, 750 + 400 * i)[1]);
    }
}

// ---------------------------------------------------------------------------
// No two pieces at the same spot
// ---------------------------------------------------------------------------

/// Two pieces would be drawn on top of each other: same mesh, same material,
/// same centre.
pub open spec fn same_spot(p: Piece, q: Piece) -> bool {
    &&& p.shape == q.shape
    &&& p.paint == q.paint
    &&& p.center == q.center
}

/// No two pieces of `s` are at the same spot.
pub open spec fn spots_distinct(s: Seq<Piece>) -> bool {
    forall|i: int, j: int|
        0 <= i < s.len() && 0 <= j < s.len() && i != j ==> !same_spot(#[trigger] s[i], #[trigger] s[j])
}

/// No piece of `a` is at the same spot as a piece of `b`.
pub open spec fn spots_apart(a: Seq<Piece>, b: Seq<Piece>) -> bool {
    forall|i: int, j: int|
        0 <= i < a.len() && 0 <= j < b.len() ==> !same_spot(#[trigger] a[i], #[trigger] b[j])
}

proof fn lemma_distinct_add(a: Seq<Piece>, b: Seq<Piece>)
    requires
        spots_distinct(a),
        spots_distinct(b),
        spots_apart(a, b),
    ensures
        spots_distinct(a + b),
{
    let s = a + b;
    assert forall|i: int, j: int|
        0 <= i < s.len() && 0 <= j < s.len() && i != j implies !same_spot(#[trigger] s[i], #[trigger] s[j]) by {
        if i < a.len() && j < a.len() {
            assert(s[i] == a[i] && s[j] == a[j]);
        } else if i >= a.len() && j >= a.len() {
            assert(s[i] == b[i - a.len()] && s[j] == b[j - a.len()]);
        } else if i < a.len() {
            assert(s[i] == a[i] && s[j] == b[j - a.len()]);
        } else {
            assert(s[j] == a[j] && s[i] == b[i - a.len()]);
        }
    }
}

proof fn lemma_apart_by_paint(a: Seq<Piece>, b: Seq<Piece>, class: spec_fn(Paint) -> bool)
    requires
        forall|i: int| 0 <= i < a.len() ==> class(#[trigger] a[i].paint),
        forall|j: int| 0 <= j < b.len() ==> !class(#[trigger] b[j].paint),
    ensures
        spots_apart(a, b),
{
    assert forall|i: int, j: int| 0 <= i < a.len() && 0 <= j < b.len() implies !same_spot(
        #[trigger] a[i],
        #[trigger] b[j],
    ) by {
        assert(class(a[i].paint));
        assert(!class(b[j].paint));
    }
}

/// Pieces labelled by their centre: all of part `i` carry label `i`.
proof fn lemma_concat_map_distinct(n: nat, f: spec_fn(int) -> Seq<Piece>, label: spec_fn(Milli3) -> int)
    requires
        forall|i: int| 0 <= i < n ==> spots_distinct(#[trigger] f(i)),
        forall|i: int, r: int| 0 <= i < n && 0 <= r < f(i).len() ==> label((#[trigger] f(i)[r]).center) == i,
    ensures
        spots_distinct(concat_map(n, f)),
        forall|r: int|
            0 <= r < concat_map(n, f).len() ==> 0 <= label((#[trigger] concat_map(n, f)[r]).center) < n,
    decreases n,
{
    if n > 0 {
        let m = (n - 1) as nat;
        lemma_concat_map_distinct(m, f, label);
        let a = concat_map(m, f);
        let b = f(m as int);
        assert(spots_distinct(b));
        assert forall|i: int, j: int| 0 <= i < a.len() && 0 <= j < b.len() implies !same_spot(
            #[trigger] a[i],
            #[trigger] b[j],
        ) by {
            assert(label(a[i].center) < m);
            assert(label(b[j].center) == m);
        }
        lemma_distinct_add(a, b);
        assert forall|r: int| 0 <= r < concat_map(n, f).len() implies 0 <= label(
            (#[trigger] concat_map(n, f)[r]).center,
        ) < n by {
            if r < a.len() {
                assert(concat_map(n, f)[r] == a[r]);
            } else {
                assert(concat_map(n, f)[r] == b[r - a.len()]);
            }
        }
    }
}

proof fn lemma_tree_distinct(x: int, z: int)
    ensures
        spots_distinct(tree(x, z)),
{
}

proof fn lemma_mul_div(a: int, c: int)
    requires
        c > 0,
    ensures
        (c * a) / c == a,
{
    assert((c * a) / c == a) by (nonlinear_arith)
        requires
            c > 0,
    ;
}

pub open spec fn forest_label() -> spec_fn(Milli3) -> int {
    |c: Milli3| ((c.x - 750) / 325) * 9 + (c.z - 850) / 300
}

pub open spec fn row_label(start: int, step: int) -> spec_fn(Milli3) -> int {
    |c: Milli3| (c.z - start) / step
}

pub open spec fn column_label(first: int, step: int) -> spec_fn(Milli3) -> int {
    |c: Milli3| (c.x - first) / step
}

#[verifier::rlimit(40)]
proof fn lemma_decor_distinct(zone: Zone)
    ensures
        spots_distinct(zone_decor(zone)),
{
    match zone {
        Zone::Forest => {
            let f = forest_cell_fn();
            let label = forest_label();
            assert forall|k: int| 0 <= k < 117 implies spots_distinct(#[trigger] f(k)) by {
                let x = k / 9;
                let z = k % 9;
                if (x + z) % 2 == 1 {
                    lemma_tree_distinct(750 + 325 * x, 850 + 300 * z);
                }
            }
            assert forall|k: int, r: int| 0 <= k < 117 && 0 <= r < f(k).len() implies label(
                (#[trigger] f(k)[r]).center,
            ) == k by {
                let x = k / 9;
                let z = k % 9;
                lemma_mul_div(x, 325);
                lemma_mul_div(z, 300);
                lemma_fundamental_div_mod(k, 9);
                assert(f(k)[r].center.x == 750 + 325 * x);
                assert(f(k)[r].center.z == 850 + 300 * z);
            }
            lemma_concat_map_distinct(117, f, label);
        },
        Zone::LowDensity => {
            let h = hedge_row_fn();
            let hl = row_label(750, 400);
            assert forall|i: int| 0 <= i < 7 implies spots_distinct(#[trigger] h(i)) by {
                let t = tree(750, 750 + 400 * i) + tree(4750, 750 + 400 * i);
                assert(h(i) == t);
            }
            assert forall|i: int, r: int| 0 <= i < 7 && 0 <= r < h(i).len() implies hl(
                (#[trigger] h(i)[r]).center,
            ) == i by {
                lemma_mul_div(i, 400);
                assert(h(i)[r].center.z == 750 + 400 * i);
            }
            lemma_concat_map_distinct(7, h, hl);
            let fe = fence_fn();
            let fl = row_label(750, 600);
            assert forall|i: int| 0 <= i < 5 implies spots_distinct(#[trigger] fe(i)) by {}
            assert forall|i: int, r: int| 0 <= i < 5 && 0 <= r < fe(i).len() implies fl(
                (#[trigger] fe(i)[r]).center,
            ) == i by {
                lemma_mul_div(i, 600);
            }
            lemma_concat_map_distinct(5, fe, fl);
            let a = concat_map(7, h);
            let b = concat_map(5, fe);
            lemma_decor_decoration(zone);
            assert forall|j: int| 0 <= j < b.len() implies (#[trigger] b[j].paint) is Fence by {
                assert forall|i: int| 0 <= i < 5 implies all_pieces(
                    #[trigger] fe(i),
                    |p: Piece| p.paint is Fence,
                ) by {}
                lemma_concat_map_all(5, fe, |p: Piece| p.paint is Fence);
            }
            assert forall|i: int| 0 <= i < a.len() implies !((#[trigger] a[i].paint) is Fence) by {
                assert forall|k: int| 0 <= k < 7 implies all_pieces(
                    #[trigger] h(k),
                    |p: Piece| !(p.paint is Fence),
                ) by {
                    assert(h(k) == tree(750, 750 + 400 * k) + tree(4750, 750 + 400 * k));
                }
                lemma_concat_map_all(7, h, |p: Piece| !(p.paint is Fence));
            }
            lemma_apart_by_paint(a, b, |p: Paint| !(p is Fence));
            lemma_distinct_add(a, b);
        },
        Zone::MediumDensity => {
            let f = street_tree_fn();
            let label = column_label(900, 900);
            assert forall|j: int| 0 <= j < 4 implies spots_distinct(#[trigger] f(j)) by {}
            assert forall|j: int, r: int| 0 <= j < 4 && 0 <= r < f(j).len() implies label(
                (#[trigger] f(j)[r]).center,
            ) == j by {
                lemma_mul_div(j, 900);
            }
            lemma_concat_map_distinct(4, f, label);
        },
        Zone::HighDensity => {},
    }
}

pub open spec fn building_label(zone: Zone) -> spec_fn(Milli3) -> int {
    match zone {
        Zone::MediumDensity => column_label(900, 900),
        Zone::HighDensity => column_label(1250, 1500),
        _ => column_label(1800, 1800),
    }
}

proof fn lemma_buildings_distinct(zone: Zone, columns: Seq<ColumnDraw>)
    requires
        columns.len() <= zone_columns(zone),
    ensures
        spots_distinct(building_pieces(zone, columns)),
        forall|j: int|
            0 <= j < building_pieces(zone, columns).len() ==> (#[trigger] building_pieces(
                zone,
                columns,
            )[j].paint) is Building,
{
    let f = column_fn(zone, columns);
    let label = building_label(zone);
    assert forall|j: int| 0 <= j < columns.len() implies spots_distinct(#[trigger] f(j)) by {}
    assert forall|j: int, r: int| 0 <= j < columns.len() && 0 <= r < f(j).len() implies label(
        (#[trigger] f(j)[r]).center,
    ) == j by {
        lemma_mul_div(j, 900);
        lemma_mul_div(j, 1500);
        lemma_mul_div(j, 1800);
    }
    lemma_concat_map_distinct(columns.len(), f, label);
    assert forall|j: int| 0 <= j < columns.len() implies all_pieces(
        #[trigger] f(j),
        |p: Piece| p.paint is Building,
    ) by {}
    lemma_concat_map_all(columns.len(), f, |p: Piece| p.paint is Building);
}

proof fn lemma_cars_distinct(cars: Seq<CarDraw>)
    requires
        cars.len() <= 6,
    ensures
        spots_distinct(car_pieces(cars)),
        forall|j: int| 0 <= j < car_pieces(cars).len() ==> (#[trigger] car_pieces(cars)[j].paint) is Car,
{
    let f = car_slot_fn(cars);
    let label = column_label(750, 800);
    assert forall|i: int| 0 <= i < cars.len() implies spots_distinct(#[trigger] f(i)) by {}
    assert forall|i: int, r: int| 0 <= i < cars.len() && 0 <= r < f(i).len() implies label(
        (#[trigger] f(i)[r]).center,
    ) == i by {
        lemma_mul_div(i, 800);
    }
    lemma_concat_map_distinct(cars.len(), f, label);
    assert forall|i: int| 0 <= i < cars.len() implies all_pieces(
        #[trigger] f(i),
        |p: Piece| p.paint is Car,
    ) by {}
    lemma_concat_map_all(cars.len(), f, |p: Piece| p.paint is Car);
}

/// No two pieces of a block are drawn at the same spot: no two share their
/// mesh, material and centre.
#[verifier::rlimit(40)]
pub proof fn law_no_two_pieces_at_one_spot(
    zone: Zone,
    config: SpawnConfig,
    cars: Seq<CarDraw>,
    columns: Seq<ColumnDraw>,
)
    requires
        draws_shaped(zone, config, cars, columns),
    ensures
        forall|i: int, j: int|
            0 <= i < block_pieces_spec(zone, config, cars, columns).len() && 0 <= j
                < block_pieces_spec(zone, config, cars, columns).len() && i != j ==> {
                let p = #[trigger] block_pieces_spec(zone, config, cars, columns)[i];
                let q = #[trigger] block_pieces_spec(zone, config, cars, columns)[j];
                !(p.shape == q.shape && p.paint == q.paint && p.center == q.center)
            },
{
    let roads = seq![horizontal_road(), vertical_road()];
    let cp = car_pieces(cars);
    let ground = seq![ground_tile()];
    lemma_cars_distinct(cars);
    assert(spots_distinct(roads));
    lemma_apart_by_paint(roads, cp, |p: Paint| p is Road);
    lemma_distinct_add(roads, cp);
    lemma_apart_by_paint(roads + cp, ground, |p: Paint| !(p is Ground));
    lemma_distinct_add(roads + cp, ground);
    let head = roads + cp + ground;
    let rest = if config.minimal {
        Seq::<Piece>::empty()
    } else {
        zone_pieces(zone, config, columns)
    };
    assert forall|i: int| 0 <= i < head.len() implies {
        let c = (#[trigger] head[i]).paint;
        c is Road || c is Car || c is Ground
    } by {
        if i < roads.len() + cp.len() {
            assert(head[i] == (roads + cp)[i]);
            if i >= 2 {
                assert((roads + cp)[i] == cp[i - 2]);
            }
        }
    }
    if !config.minimal {
        let b = if config.no_buildings {
            Seq::<Piece>::empty()
        } else {
            building_pieces(zone, columns)
        };
        let d = if config.no_decorations {
            Seq::<Piece>::empty()
        } else {
            zone_decor(zone)
        };
        if !config.no_buildings {
            lemma_buildings_distinct(zone, columns);
        }
        if !config.no_decorations {
            lemma_decor_distinct(zone);
            lemma_decor_decoration(zone);
        }
        assert forall|j: int| 0 <= j < d.len() implies !((#[trigger] d[j].paint) is Building) by {
            assert(decoration_fn()(d[j]));
        }
        lemma_apart_by_paint(b, d, |p: Paint| p is Building);
        lemma_distinct_add(b, d);
        assert(rest == b + d);
        assert forall|j: int| 0 <= j < rest.len() implies !({
            let c = (#[trigger] rest[j]).paint;
            c is Road || c is Car || c is Ground
        }) by {
            if j < b.len() {
                assert(rest[j] == b[j]);
            } else {
                assert(rest[j] == d[j - b.len()]);
                assert(decoration_fn()(d[j - b.len()]));
            }
        }
    }
    lemma_apart_by_paint(head, rest, |c: Paint| c is Road || c is Car || c is Ground);
    lemma_distinct_add(head, rest);
    assert(block_pieces_spec(zone, config, cars, columns) == head + rest);
}

// ---------------------------------------------------------------------------
// Where cars, forest trees, street trees and fence posts stand
// ---------------------------------------------------------------------------

/// Element `r` of part `i` of a [`concat_map`] sits after the parts before it.
proof fn lemma_concat_map_index(n: nat, f: spec_fn(int) -> Seq<Piece>, i: int, r: int)
    requires
        0 <= i < n,
        0 <= r < f(i).len(),
    ensures
        concat_map(i as nat, f).len() + r < concat_map(n, f).len(),
        concat_map(n, f)[concat_map(i as nat, f).len() + r] == f(i)[r],
    decreases n,
{
    let m = (n - 1) as nat;
    if i < m {
        lemma_concat_map_index(m, f, i, r);
    } else {
        assert(concat_map(n, f) == concat_map(m, f) + f(m as int));
    }
}

/// Where the piece of car slot `i` would stand in a block's pieces.
pub open spec fn car_index(cars: Seq<CarDraw>, i: int) -> int {
    2 + concat_map(i as nat, car_slot_fn(cars)).len() as int
}

/// A slot whose draw parks a car holds that car: a cube of the drawn colour,
/// `0.75 + 0.8 i` along the block's near road.
pub proof fn law_parked_cars_in_their_slots(
    zone: Zone,
    config: SpawnConfig,
    cars: Seq<CarDraw>,
    columns: Seq<ColumnDraw>,
)
    requires
        draws_shaped(zone, config, cars, columns),
    ensures
        forall|i: int|
            0 <= i < cars.len() && cars[i].color is Some ==> {
                let k = #[trigger] car_index(cars, i);
                &&& 0 <= k < block_pieces_spec(zone, config, cars, columns).len()
                &&& block_pieces_spec(zone, config, cars, columns)[k] == (Piece {
                    shape: Shape::Cube,
                    paint: Paint::Car(cars[i].color->0),
                    center: Milli3 { x: (750 + 800 * i) as i32, y: 350, z: -250i32 },
                    size: Milli3 { x: 500, y: 300, z: 300 },
                    height: None,
                })
            },
{
    let f = car_slot_fn(cars);
    let head = seq![horizontal_road(), vertical_road()] + car_pieces(cars) + seq![ground_tile()];
    let rest = if config.minimal {
        Seq::<Piece>::empty()
    } else {
        zone_pieces(zone, config, columns)
    };
    assert(block_pieces_spec(zone, config, cars, columns) == head + rest);
    assert forall|i: int| 0 <= i < cars.len() && cars[i].color is Some implies {
        let k = #[trigger] car_index(cars, i);
        &&& 0 <= k < block_pieces_spec(zone, config, cars, columns).len()
        &&& block_pieces_spec(zone, config, cars, columns)[k] == (Piece {
            shape: Shape::Cube,
            paint: Paint::Car(cars[i].color->0),
            center: Milli3 { x: (750 + 800 * i) as i32, y: 350, z: -250i32 },
            size: Milli3 { x: 500, y: 300, z: 300 },
            height: None,
        })
    } by {
        lemma_concat_map_index(cars.len(), f, i, 0);
        let k = car_index(cars, i);
        assert(head[k] == car_pieces(cars)[k - 2]);
        assert((head + rest)[k] == head[k]);
    }
}

/// Where forest cell `k`'s tree would stand in a forest block's pieces.
pub open spec fn forest_tree_index(cars: Seq<CarDraw>, k: int) -> int {
    zone_start(cars) + concat_map(k as nat, forest_cell_fn()).len() as int
}

/// A forest block with decorations has a tree on every other cell of its
/// 13 x 9 grid: cell `(x, z)` with `x + z` odd holds a trunk at
/// `(0.75 + 0.325 x, 0.4, 0.85 + 0.3 z)` with its canopy above.
#[verifier::rlimit(40)]
pub proof fn law_forest_checkerboard(config: SpawnConfig, cars: Seq<CarDraw>, columns: Seq<ColumnDraw>)
    requires
        draws_shaped(Zone::Forest, config, cars, columns),
        !config.minimal,
        !config.no_decorations,
    ensures
        forall|x: int, z: int|
            0 <= x <= 12 && 0 <= z <= 8 && (x + z) % 2 == 1 ==> {
                let k = #[trigger] forest_tree_index(cars, 9 * x + z);
                let pieces = block_pieces_spec(Zone::Forest, config, cars, columns);
                &&& 0 <= k && k + 1 < pieces.len()
                &&& pieces[k] == (Piece {
                    shape: Shape::Cylinder,
                    paint: Paint::Trunk,
                    center: Milli3 { x: (750 + 325 * x) as i32, y: 400, z: (850 + 300 * z) as i32 },
                    size: Milli3 { x: 80, y: 800, z: 80 },
                    height: None,
                })
                &&& pieces[k + 1].paint == Paint::Canopy
                &&& pieces[k + 1].center == (Milli3 {
                    x: (750 + 325 * x) as i32,
                    y: 1100,
                    z: (850 + 300 * z) as i32,
                })
            },
{
    let f = forest_cell_fn();
    assert(columns.len() == 0);
    assert(building_pieces(Zone::Forest, columns) =~= Seq::<Piece>::empty());
    assert(zone_pieces(Zone::Forest, config, columns) =~= concat_map(117, f));
    assert forall|x: int, z: int| 0 <= x <= 12 && 0 <= z <= 8 && (x + z) % 2 == 1 implies {
        let k = #[trigger] forest_tree_index(cars, 9 * x + z);
        let pieces = block_pieces_spec(Zone::Forest, config, cars, columns);
        &&& 0 <= k && k + 1 < pieces.len()
        &&& pieces[k] == (Piece {
            shape: Shape::Cylinder,
            paint: Paint::Trunk,
            center: Milli3 { x: (750 + 325 * x) as i32, y: 400, z: (850 + 300 * z) as i32 },
            size: Milli3 { x: 80, y: 800, z: 80 },
            height: None,
        })
        &&& pieces[k + 1].paint == Paint::Canopy
        &&& pieces[k + 1].center == (Milli3 {
            x: (750 + 325 * x) as i32,
            y: 1100,
            z: (850 + 300 * z) as i32,
        })
    } by {
        let c = 9 * x + z;
        assert(c / 9 == x && c % 9 == z);
        assert(f(c) == tree(750 + 325 * x, 850 + 300 * z));
        lemma_concat_map_index(117, f, c, 0);
        lemma_concat_map_index(117, f, c, 1);
        let base = concat_map(c as nat, f).len() as int;
        lemma_zone_part(Zone::Forest, config, cars, columns, base);
        lemma_zone_part(Zone::Forest, config, cars, columns, base + 1);
    }
}

/// A medium-density block with decorations has four street trees between its
/// rows of buildings, at `x = 0.9, 1.8, 2.7, 3.6` and depth 2, after the
/// buildings.
pub proof fn law_medium_density_street_trees(
    config: SpawnConfig,
    cars: Seq<CarDraw>,
    columns: Seq<ColumnDraw>,
)
    requires
        draws_shaped(Zone::MediumDensity, config, cars, columns),
        !config.minimal,
        !config.no_decorations,
    ensures
        forall|j: int|
            0 <= j < 4 ==> {
                let k = #[trigger] front_building_index(cars, columns.len() + j);
                let pieces = block_pieces_spec(Zone::MediumDensity, config, cars, columns);
                &&& k + 1 < pieces.len()
                &&& pieces[k] == (Piece {
                    shape: Shape::Cylinder,
                    paint: Paint::Trunk,
                    center: Milli3 { x: (900 * (j + 1)) as i32, y: 400, z: 2000 },
                    size: Milli3 { x: 80, y: 800, z: 80 },
                    height: None,
                })
                &&& pieces[k + 1].paint == Paint::Canopy
                &&& pieces[k + 1].center == (Milli3 { x: (900 * (j + 1)) as i32, y: 1100, z: 2000 })
            },
{
    let zone = Zone::MediumDensity;
    let f = column_fn(zone, columns);
    assert forall|i: int| 0 <= i < columns.len() implies (#[trigger] f(i)).len() == 2 by {}
    lemma_concat_map_uniform(columns.len(), f, 2);
    let t = street_tree_fn();
    assert forall|i: int| 0 <= i < 4 implies (#[trigger] t(i)).len() == 2 by {}
    lemma_concat_map_uniform(4, t, 2);
    let b = if config.no_buildings {
        Seq::<Piece>::empty()
    } else {
        building_pieces(zone, columns)
    };
    assert(b.len() == 2 * columns.len());
    let d = zone_decor(zone);
    assert(zone_pieces(zone, config, columns) == b + d);
    assert forall|j: int| 0 <= j < 4 implies {
        let k = #[trigger] front_building_index(cars, columns.len() + j);
        let pieces = block_pieces_spec(Zone::MediumDensity, config, cars, columns);
        &&& k + 1 < pieces.len()
        &&& pieces[k] == (Piece {
            shape: Shape::Cylinder,
            paint: Paint::Trunk,
            center: Milli3 { x: (900 * (j + 1)) as i32, y: 400, z: 2000 },
            size: Milli3 { x: 80, y: 800, z: 80 },
            height: None,
        })
        &&& pieces[k + 1].paint == Paint::Canopy
        &&& pieces[k + 1].center == (Milli3 { x: (900 * (j + 1)) as i32, y: 1100, z: 2000 })
    } by {
        let base = 2 * columns.len();
        assert(d[j * 2 + 0] == t(j)[0]);
        assert(d[j * 2 + 1] == t(j)[1]);
        assert((b + d)[base + 2 * j] == d[2 * j]);
        assert((b + d)[base + 2 * j + 1] == d[2 * j + 1]);
        lemma_zone_part(zone, config, cars, columns, base + 2 * j);
        lemma_zone_part(zone, config, cars, columns, base + 2 * j + 1);
    }
}

/// A low-density block with decorations ends with five fence posts down its
/// middle, at `x = 2.75` and depths `0.75 + 0.6 i`.
#[verifier::rlimit(40)]
pub proof fn law_low_density_fence(config: SpawnConfig, cars: Seq<CarDraw>, columns: Seq<ColumnDraw>)
    requires
        draws_shaped(Zone::LowDensity, config, cars, columns),
        !config.minimal,
        !config.no_decorations,
    ensures
        forall|i: int|
            0 <= i < 5 ==> {
                let k = #[trigger] hedge_row_index(cars, columns, 7 + i / 4) + i % 4;
                let pieces = block_pieces_spec(Zone::LowDensity, config, cars, columns);
                &&& k < pieces.len()
                &&& pieces[k] == (Piece {
                    shape: Shape::Cylinder,
                    paint: Paint::Fence,
                    center: Milli3 { x: 2750, y: 150, z: (750 + 600 * i) as i32 },
                    size: Milli3 { x: 80, y: 300, z: 80 },
                    height: None,
                })
            },
{
    let zone = Zone::LowDensity;
    let f = column_fn(zone, columns);
    assert forall|i: int| 0 <= i < columns.len() implies (#[trigger] f(i)).len() == 2 by {}
    lemma_concat_map_uniform(columns.len(), f, 2);
    let h = hedge_row_fn();
    assert forall|i: int| 0 <= i < 7 implies (#[trigger] h(i)).len() == 4 by {}
    lemma_concat_map_uniform(7, h, 4);
    let fe = fence_fn();
    assert forall|i: int| 0 <= i < 5 implies (#[trigger] fe(i)).len() == 1 by {}
    lemma_concat_map_uniform(5, fe, 1);
    let b = if config.no_buildings {
        Seq::<Piece>::empty()
    } else {
        building_pieces(zone, columns)
    };
    assert(b.len() == 2 * columns.len());
    let hedges = concat_map(7, h);
    let fences = concat_map(5, fe);
    let d = zone_decor(zone);
    assert(d == hedges + fences);
    assert(zone_pieces(zone, config, columns) == b + d);
    assert forall|i: int| 0 <= i < 5 implies {
        let k = #[trigger] hedge_row_index(cars, columns, 7 + i / 4) + i % 4;
        let pieces = block_pieces_spec(Zone::LowDensity, config, cars, columns);
        &&& k < pieces.len()
        &&& pieces[k] == (Piece {
            shape: Shape::Cylinder,
            paint: Paint::Fence,
            center: Milli3 { x: 2750, y: 150, z: (750 + 600 * i) as i32 },
            size: Milli3 { x: 80, y: 300, z: 80 },
            height: None,
        })
    } by {
        let base = 2 * columns.len();
        assert(hedge_row_index(cars, columns, 7 + i / 4) + i % 4 == zone_start(cars) + base + 28 + i);
        assert(fences[i * 1 + 0] == fe(i)[0]);
        assert(d[28 + i] == fences[i]);
        assert((b + d)[base + 28 + i] == d[28 + i]);
        lemma_zone_part(zone, config, cars, columns, base + 28 + i);
    }
}

} // verus!
