//! The random draws of the city generator and the plan of a whole city.

use vstd::prelude::*;
use crate::city::{
    block_pieces_spec, car_parks, concat_map, cars_enabled, columns_drawn, draws_fit, grid_cells,
    unit_sample_ok, BlockDraws, BlockPlan, CarDraw, ColumnDraw, SpawnConfig, UnitSample, Zone,
    CAR_SLOTS,
};
use crate::city_layout::{block_grid, block_pieces, lemma_concat_map_congruent, lemma_concat_map_step};
use crate::traced_rng::{traced_index, traced_rng_from_seed, traced_u32, RngCall, TracedRng};

verus! {

/// One draw of the city generator, as the generator's calls record it.
#[derive(Clone, Copy, Debug, PartialEq, Eq, Structural)]
pub enum Draw {
    /// One `u32` taken as it is.
    Word(u32),
    /// One `u32` taken as a unit sample: its top 24 bits.
    Unit(UnitSample),
    /// One index drawn below `len`.
    Index { len: usize, value: usize },
}

/// The recorded call `c` is the draw `d`.
pub open spec fn call_matches(c: RngCall, d: Draw) -> bool {
    match d {
        Draw::Word(w) => c == RngCall::Word(w),
        Draw::Unit(s) => c matches RngCall::Word(w) && w >> 8u32 == s.numerator,
        Draw::Index { len, value } => c == (RngCall::Index { len, value }),
    }
}

/// `after` is `before` followed by exactly one call for each of `draws`, in
/// order.
pub open spec fn extends_with(after: Seq<RngCall>, before: Seq<RngCall>, draws: Seq<Draw>) -> bool {
    &&& after.len() == before.len() + draws.len()
    &&& after.subrange(0, before.len() as int) == before
    &&& forall|i: int|
        0 <= i < draws.len() ==> call_matches(#[trigger] after[before.len() + i], draws[i])
}

proof fn lemma_extends_none(a: Seq<RngCall>)
    ensures
        extends_with(a, a, Seq::empty()),
{
    assert(a.subrange(0, a.len() as int) =~= a);
}

proof fn lemma_extends_trans(
    a: Seq<RngCall>,
    b: Seq<RngCall>,
    c: Seq<RngCall>,
    d1: Seq<Draw>,
    d2: Seq<Draw>,
)
    requires
        extends_with(b, a, d1),
        extends_with(c, b, d2),
    ensures
        extends_with(c, a, d1 + d2),
{
    assert(c.subrange(0, a.len() as int) =~= a) by {
        assert forall|i: int| 0 <= i < a.len() implies c.subrange(0, a.len() as int)[i] == a[i] by {
            assert(c.subrange(0, b.len() as int)[i] == b[i]);
            assert(b.subrange(0, a.len() as int)[i] == a[i]);
        }
    }
    assert forall|i: int| 0 <= i < (d1 + d2).len() implies call_matches(
        #[trigger] c[a.len() + i],
        (d1 + d2)[i],
    ) by {
        if i < d1.len() {
            assert(c.subrange(0, b.len() as int)[a.len() + i] == b[a.len() + i]);
            assert(call_matches(b[a.len() + i], d1[i]));
        } else {
            let k = i - d1.len();
            assert(c[b.len() + k] == c[a.len() + i]);
            assert(call_matches(c[b.len() + k], d2[k]));
        }
    }
}

proof fn lemma_extends_push(a: Seq<RngCall>, c: RngCall)
    ensures
        c matches RngCall::Index { len, value } ==> extends_with(
            a.push(c),
            a,
            seq![Draw::Index { len, value }],
        ),
{
    assert(a.push(c).subrange(0, a.len() as int) =~= a);
}

/// A record extended by no draw is unchanged.
pub proof fn lemma_extends_with_nothing(after: Seq<RngCall>, before: Seq<RngCall>)
    requires
        extends_with(after, before, Seq::empty()),
    ensures
        after == before,
{
    assert(after =~= after.subrange(0, before.len() as int));
}

/// The draws of one car slot: its sample and, when a car parks, its colour.
pub open spec fn car_draw_log(d: CarDraw, car_colors: usize) -> Seq<Draw> {
    seq![Draw::Unit(d.sample)] + (match d.color {
        Some(c) => seq![Draw::Index { len: car_colors, value: c }],
        None => Seq::empty(),
    })
}

pub open spec fn car_log_fn(cars: Seq<CarDraw>, car_colors: usize) -> spec_fn(int) -> Seq<Draw> {
    |i: int| car_draw_log(cars[i], car_colors)
}

/// The draws of one building column: its height sample, then the front and
/// the back colour.
pub open spec fn column_draw_log(d: ColumnDraw, building_colors: usize) -> Seq<Draw> {
    seq![
        Draw::Unit(d.sample),
        Draw::Index { len: building_colors, value: d.front_color },
        Draw::Index { len: building_colors, value: d.back_color },
    ]
}

pub open spec fn column_log_fn(columns: Seq<ColumnDraw>, building_colors: usize) -> spec_fn(
    int,
) -> Seq<Draw> {
    |j: int| column_draw_log(columns[j], building_colors)
}

/// The draws of one block, in order: the car slots, then the columns.
pub open spec fn block_draw_log(
    cars: Seq<CarDraw>,
    columns: Seq<ColumnDraw>,
    car_colors: usize,
    building_colors: usize,
) -> Seq<Draw> {
    concat_map(cars.len(), car_log_fn(cars, car_colors)) + concat_map(
        columns.len(),
        column_log_fn(columns, building_colors),
    )
}

pub open spec fn plan_log_fn(
    plan: Seq<BlockPlan>,
    car_colors: usize,
    building_colors: usize,
) -> spec_fn(int) -> Seq<Draw> {
    |k: int| block_draw_log(plan[k].draws.cars@, plan[k].draws.columns@, car_colors, building_colors)
}

/// The draws of a whole city plan, block after block.
pub open spec fn plan_draw_log(plan: Seq<BlockPlan>, car_colors: usize, building_colors: usize) -> Seq<
    Draw,
> {
    concat_map(plan.len(), plan_log_fn(plan, car_colors, building_colors))
}

/// The random generator of one city.
pub struct CityRng {
    rng: TracedRng,
}

impl CityRng {
    /// Every call made on this city's generator, in order, starting with its
    /// seeding.
    pub closed spec fn calls(&self) -> Seq<RngCall> {
        self.rng.calls()
    }
}

/// Seeds the city's generator from `seed` and draws the seed of the city's
/// density noise, the first value of the stream.
pub fn start_city(seed: u64) -> (r: (CityRng, u32))
    ensures
        r.0.calls() == seq![RngCall::Seeded(seed), RngCall::Word(r.1)],
{
    let mut rng = traced_rng_from_seed(seed);
    let noise_seed = traced_u32(&mut rng);
    assert(rng.calls() =~= seq![RngCall::Seeded(seed), RngCall::Word(noise_seed)]);
    (CityRng { rng }, noise_seed)
}

impl CityRng {
    /// Draws a uniform sample of `[0, 1)` from the top 24 bits of one `u32`
    /// draw (the same value and the same draw as `rand`'s uniform `f32`).
    pub fn draw_unit(&mut self) -> (s: UnitSample)
        ensures
            unit_sample_ok(s),
            extends_with(final(self).calls(), old(self).calls(), seq![Draw::Unit(s)]),
    {
        let w = traced_u32(&mut self.rng);
        let top = w >> 8u32;
        assert(w >> 8u32 < 0x100_0000u32) by (bit_vector);
        let s = UnitSample { numerator: top };
        assert(self.calls().subrange(0, old(self).calls().len() as int) =~= old(self).calls());
        assert(self.calls()[old(self).calls().len() as int] == RngCall::Word(w));
        s
    }

    /// Draws an index into a palette of `len` colours.
    pub fn draw_index(&mut self, len: usize) -> (i: usize)
        requires
            len > 0,
        ensures
            i < len,
            final(self).calls() == old(self).calls().push(RngCall::Index { len, value: i }),
    {
        traced_index(&mut self.rng, len)
    }

    /// Makes the draws of one block, in order: for each of the six car slots
    /// a sample and, when it parks a car, the car's colour; then for each
    /// building column a height sample and the colours of its front and back
    /// building. No other draw is made.
    pub fn draw_block(
        &mut self,
        zone: Zone,
        config: SpawnConfig,
        car_colors: usize,
        building_colors: usize,
    ) -> (d: BlockDraws)
        requires
            cars_enabled(config) ==> car_colors > 0,
            columns_drawn(zone, config) > 0 ==> building_colors > 0,
        ensures
            draws_fit(
                zone,
                config,
                d.cars@,
                d.columns@,
                car_colors as nat,
                building_colors as nat,
            ),
            extends_with(
                final(self).calls(),
                old(self).calls(),
                block_draw_log(d.cars@, d.columns@, car_colors, building_colors),
            ),
    {
        let ghost start = self.calls();
        proof {
            lemma_extends_none(start);
        }
        let mut cars: Vec<CarDraw> = Vec::new();
        if !config.no_cars && !config.minimal {
            let mut i: usize = 0;
            while i < CAR_SLOTS
                invariant
                    cars_enabled(config) ==> car_colors > 0,
                    cars_enabled(config),
                    0 <= i <= CAR_SLOTS,
                    cars@.len() == i,
                    forall|j: int|
                        0 <= j < i ==> {
                            let d = #[trigger] cars@[j];
                            &&& unit_sample_ok(d.sample)
                            &&& (d.color is Some <==> car_parks(d.sample))
                            &&& (d.color matches Some(c) ==> c < car_colors)
                        },
                    extends_with(
                        self.calls(),
                        start,
                        concat_map(i as nat, car_log_fn(cars@, car_colors)),
                    ),
                decreases CAR_SLOTS - i,
            {
                let ghost before = cars@;
                let ghost c0 = self.calls();
                let sample = self.draw_unit();
                let ghost c1 = self.calls();
                let color = if sample.numerator < 0x40_0000 {
                    let c = self.draw_index(car_colors);
                    proof {
                        lemma_extends_push(c1, RngCall::Index { len: car_colors, value: c });
                        lemma_extends_trans(
                            c0,
                            c1,
                            self.calls(),
                            seq![Draw::Unit(sample)],
                            seq![Draw::Index { len: car_colors, value: c }],
                        );
                    }
                    Some(c)
                } else {
                    proof {
                        lemma_extends_none(c1);
                        lemma_extends_trans(c0, c1, c1, seq![Draw::Unit(sample)], Seq::empty());
                    }
                    None
                };
                let d = CarDraw { sample, color };
                assert(extends_with(self.calls(), c0, car_draw_log(d, car_colors))) by {
                    match color {
                        Some(c) => {
                            assert(car_draw_log(d, car_colors) =~= seq![Draw::Unit(sample)]
                                + seq![Draw::Index { len: car_colors, value: c }]);
                        },
                        None => {
                            assert(car_draw_log(d, car_colors) =~= seq![Draw::Unit(sample)]
                                + Seq::<Draw>::empty());
                        },
                    }
                }
                cars.push(d);
                proof {
                    lemma_concat_map_congruent(
                        i as nat,
                        car_log_fn(before, car_colors),
                        car_log_fn(cars@, car_colors),
                    );
                    lemma_concat_map_step(i as nat, car_log_fn(cars@, car_colors));
                    assert(cars@[i as int] == d);
                    lemma_extends_trans(
                        start,
                        c0,
                        self.calls(),
                        concat_map(i as nat, car_log_fn(cars@, car_colors)),
                        car_draw_log(d, car_colors),
                    );
                }
                i = i + 1;
            }
        }
        let ghost mid = self.calls();
        let n: usize = if config.minimal || config.no_buildings {
            0
        } else {
            match zone {
                Zone::Forest => 0,
                Zone::LowDensity => 2,
                Zone::MediumDensity => 5,
                Zone::HighDensity => 3,
            }
        };
        assert(n == columns_drawn(zone, config));
        proof {
            lemma_extends_none(mid);
        }
        let mut columns: Vec<ColumnDraw> = Vec::new();
        let mut j: usize = 0;
        while j < n
            invariant
                n > 0 ==> building_colors > 0,
                0 <= j <= n,
                columns@.len() == j,
                forall|k: int|
                    0 <= k < j ==> {
                        let d = #[trigger] columns@[k];
                        &&& unit_sample_ok(d.sample)
                        &&& d.front_color < building_colors
                        &&& d.back_color < building_colors
                    },
                extends_with(
                    self.calls(),
                    mid,
                    concat_map(j as nat, column_log_fn(columns@, building_colors)),
                ),
            decreases n - j,
        {
            let ghost before = columns@;
            let ghost c0 = self.calls();
            let sample = self.draw_unit();
            let ghost c1 = self.calls();
            let front_color = self.draw_index(building_colors);
            let ghost c2 = self.calls();
            let back_color = self.draw_index(building_colors);
            let d = ColumnDraw { sample, front_color, back_color };
            proof {
                lemma_extends_push(c1, RngCall::Index { len: building_colors, value: front_color });
                lemma_extends_push(c2, RngCall::Index { len: building_colors, value: back_color });
                lemma_extends_trans(
                    c0,
                    c1,
                    c2,
                    seq![Draw::Unit(sample)],
                    seq![Draw::Index { len: building_colors, value: front_color }],
                );
                lemma_extends_trans(
                    c0,
                    c2,
                    self.calls(),
                    seq![Draw::Unit(sample)] + seq![
                        Draw::Index { len: building_colors, value: front_color },
                    ],
                    seq![Draw::Index { len: building_colors, value: back_color }],
                );
                assert(column_draw_log(d, building_colors) =~= seq![Draw::Unit(sample)] + seq![
                    Draw::Index { len: building_colors, value: front_color },
                ] + seq![Draw::Index { len: building_colors, value: back_color }]);
            }
            columns.push(d);
            proof {
                lemma_concat_map_congruent(
                    j as nat,
                    column_log_fn(before, building_colors),
                    column_log_fn(columns@, building_colors),
                );
                lemma_concat_map_step(j as nat, column_log_fn(columns@, building_colors));
                assert(columns@[j as int] == d);
                lemma_extends_trans(
                    mid,
                    c0,
                    self.calls(),
                    concat_map(j as nat, column_log_fn(columns@, building_colors)),
                    column_draw_log(d, building_colors),
                );
            }
            j = j + 1;
        }
        proof {
            if !(!config.no_cars && !config.minimal) {
                assert(concat_map(0, car_log_fn(cars@, car_colors)) =~= Seq::<Draw>::empty());
            }
            lemma_extends_trans(
                start,
                mid,
                self.calls(),
                concat_map(cars@.len(), car_log_fn(cars@, car_colors)),
                concat_map(columns@.len(), column_log_fn(columns@, building_colors)),
            );
        }
        BlockDraws { cars, columns }
    }
}

/// Plans a city of `size` blocks per side: block by block over the grid of
/// [`block_grid`], with the zone that `zones` gives each block, makes the
/// block's draws and lays out its pieces. The generator sees the blocks'
/// draws, block after block, and no other draw.
pub fn plan_city(
    rng: &mut CityRng,
    size: u32,
    config: SpawnConfig,
    zones: &Vec<Zone>,
    car_colors: usize,
    building_colors: usize,
) -> (plan: Vec<BlockPlan>)
    requires
        size * size <= usize::MAX,
        zones@.len() == grid_cells(size).len(),
        cars_enabled(config) && zones@.len() > 0 ==> car_colors > 0,
        forall|k: int|
            0 <= k < zones@.len() && columns_drawn(#[trigger] zones@[k], config) > 0
                ==> building_colors > 0,
    ensures
        plan@.len() == grid_cells(size).len(),
        forall|k: int|
            0 <= k < plan@.len() ==> {
                let b = #[trigger] plan@[k];
                &&& (b.grid_x, b.grid_z) == grid_cells(size)[k]
                &&& b.zone == zones@[k]
                &&& draws_fit(
                    b.zone,
                    config,
                    b.draws.cars@,
                    b.draws.columns@,
                    car_colors as nat,
                    building_colors as nat,
                )
                &&& b.pieces@ == block_pieces_spec(b.zone, config, b.draws.cars@, b.draws.columns@)
            },
        extends_with(
            final(rng).calls(),
            old(rng).calls(),
            plan_draw_log(plan@, car_colors, building_colors),
        ),
{
    let ghost start = rng.calls();
    proof {
        lemma_extends_none(start);
    }
    let cells = block_grid(size);
    let n = cells.len();
    let mut plan: Vec<BlockPlan> = Vec::new();
    let mut k: usize = 0;
    while k < n
        invariant
            cells@ == grid_cells(size),
            n == cells@.len(),
            zones@.len() == n,
            cars_enabled(config) && n > 0 ==> car_colors > 0,
            forall|i: int|
                0 <= i < zones@.len() && columns_drawn(#[trigger] zones@[i], config) > 0
                    ==> building_colors > 0,
            0 <= k <= n,
            plan@.len() == k,
            forall|i: int|
                0 <= i < k ==> {
                    let b = #[trigger] plan@[i];
                    &&& (b.grid_x, b.grid_z) == grid_cells(size)[i]
                    &&& b.zone == zones@[i]
                    &&& draws_fit(
                        b.zone,
                        config,
                        b.draws.cars@,
                        b.draws.columns@,
                        car_colors as nat,
                        building_colors as nat,
                    )
                    &&& b.pieces@ == block_pieces_spec(
                        b.zone,
                        config,
                        b.draws.cars@,
                        b.draws.columns@,
                    )
                },
            extends_with(rng.calls(), start, plan_draw_log(plan@, car_colors, building_colors)),
        decreases n - k,
    {
        let (grid_x, grid_z) = cells[k];
        let zone = zones[k];
        assert(columns_drawn(zones@[k as int], config) > 0 ==> building_colors > 0);
        let ghost before = plan@;
        let ghost c0 = rng.calls();
        let draws = rng.draw_block(zone, config, car_colors, building_colors);
        let pieces = block_pieces(zone, config, &draws);
        let ghost block_log = block_draw_log(draws.cars@, draws.columns@, car_colors, building_colors);
        plan.push(BlockPlan { grid_x, grid_z, zone, draws, pieces });
        proof {
            lemma_concat_map_congruent(
                k as nat,
                plan_log_fn(before, car_colors, building_colors),
                plan_log_fn(plan@, car_colors, building_colors),
            );
            lemma_concat_map_step(k as nat, plan_log_fn(plan@, car_colors, building_colors));
            lemma_extends_trans(
                start,
                c0,
                rng.calls(),
                plan_draw_log(before, car_colors, building_colors),
                block_draw_log(
                    plan@[k as int].draws.cars@,
                    plan@[k as int].draws.columns@,
                    car_colors,
                    building_colors,
                ),
            );
            assert(plan_log_fn(plan@, car_colors, building_colors)(k as int) == block_log);
        }
        k = k + 1;
    }
    plan
}

/// A block whose cars are off (or whose city is minimal) draws nothing for
/// its car slots, and a block without building columns (buildings off, a
/// minimal city, or a forest) draws nothing for buildings: a block with
/// neither leaves the generator untouched.
pub proof fn law_disabled_parts_draw_nothing(
    zone: Zone,
    config: SpawnConfig,
    cars: Seq<CarDraw>,
    columns: Seq<ColumnDraw>,
    car_colors: usize,
    building_colors: usize,
)
    requires
        crate::city::draws_shaped(zone, config, cars, columns),
    ensures
        !cars_enabled(config) ==> block_draw_log(cars, columns, car_colors, building_colors)
            == concat_map(columns.len(), column_log_fn(columns, building_colors)),
        columns_drawn(zone, config) == 0 ==> block_draw_log(
            cars,
            columns,
            car_colors,
            building_colors,
        ) == concat_map(cars.len(), car_log_fn(cars, car_colors)),
        !cars_enabled(config) && columns_drawn(zone, config) == 0 ==> block_draw_log(
            cars,
            columns,
            car_colors,
            building_colors,
        ) == Seq::<Draw>::empty(),
{
    assert(concat_map(0, car_log_fn(cars, car_colors)) =~= Seq::<Draw>::empty());
    assert(concat_map(0, column_log_fn(columns, building_colors)) =~= Seq::<Draw>::empty());
    assert(Seq::<Draw>::empty() + concat_map(columns.len(), column_log_fn(columns, building_colors))
        =~= concat_map(columns.len(), column_log_fn(columns, building_colors)));
    assert(concat_map(cars.len(), car_log_fn(cars, car_colors)) + Seq::<Draw>::empty()
        =~= concat_map(cars.len(), car_log_fn(cars, car_colors)));
}

/// A block with its cars off (or in a minimal city) and without building
/// columns makes no call on the city's generator.
pub proof fn law_disabled_block_leaves_generator_untouched(
    zone: Zone,
    config: SpawnConfig,
    cars: Seq<CarDraw>,
    columns: Seq<ColumnDraw>,
    car_colors: usize,
    building_colors: usize,
    before: Seq<RngCall>,
    after: Seq<RngCall>,
)
    requires
        crate::city::draws_shaped(zone, config, cars, columns),
        !cars_enabled(config),
        columns_drawn(zone, config) == 0,
        extends_with(after, before, block_draw_log(cars, columns, car_colors, building_colors)),
    ensures
        after == before,
{
    law_disabled_parts_draw_nothing(zone, config, cars, columns, car_colors, building_colors);
    lemma_extends_with_nothing(after, before);
}

/// A unit sample drawn from the word `w` has numerator `w / 2^8` (the word's
/// top 24 bits): every numerator below `2^24` is reached, by exactly the words
/// `256 n .. 256 n + 255`, and a car parks on the sample exactly when its word
/// is below `2^30` (the sample is below one quarter).
pub proof fn law_unit_sample_is_top_bits(w: u32, s: UnitSample)
    ensures
        call_matches(RngCall::Word(w), Draw::Unit(s)) <==> s.numerator == w / 256,
        call_matches(RngCall::Word(w), Draw::Unit(s)) ==> (car_parks(s) <==> w < 0x4000_0000),
        call_matches(RngCall::Word(w), Draw::Unit(s)) ==> (s.numerator < 0x40_0000 <==> w
            < 0x4000_0000),
        s.numerator < 0x100_0000 ==> call_matches(
            RngCall::Word((s.numerator * 256) as u32),
            Draw::Unit(s),
        ),
{
    assert(w >> 8u32 == w / 256) by (bit_vector);
    if s.numerator < 0x100_0000 {
        let n = s.numerator;
        assert(n < 0x100_0000 ==> ((n * 256) as u32) >> 8u32 == n) by (bit_vector);
    }
}

/// What `draw_unit` promises, in words: the generator's record gains exactly
/// one `u32` word `w`, and the sample's numerator is `w / 256`.
pub proof fn law_draw_unit_takes_one_word(before: Seq<RngCall>, after: Seq<RngCall>, s: UnitSample)
    requires
        extends_with(after, before, seq![Draw::Unit(s)]),
    ensures
        after.len() == before.len() + 1,
        after.subrange(0, before.len() as int) == before,
        after[before.len() as int] matches RngCall::Word(w) && s.numerator == w / 256,
{
    assert(seq![Draw::Unit(s)][0] == Draw::Unit(s));
    assert(call_matches(after[before.len() + 0int], Draw::Unit(s)));
    let c = after[before.len() as int];
    if let RngCall::Word(w) = c {
        law_unit_sample_is_top_bits(w, s);
    }
}

} // verus!
