use city_builder::city::{
    BlockDraws, CarDraw, ColumnDraw, Milli3, Paint, Piece, Shape, SpawnConfig, UnitSample, Zone,
};
use city_builder::city_layout::{block_grid, block_pieces};
use city_builder::city_rng::{plan_city, start_city};
use city_builder::palette::{city_palette, road_palette, Rgb};

fn sample(n: u32) -> UnitSample {
    UnitSample { numerator: n }
}

fn full_config() -> SpawnConfig {
    SpawnConfig::default()
}

fn draws(cars: Vec<CarDraw>, columns: Vec<ColumnDraw>) -> BlockDraws {
    BlockDraws { cars, columns }
}

fn no_cars_parked() -> Vec<CarDraw> {
    (0..6).map(|_| CarDraw { sample: sample(0x80_0000), color: None }).collect()
}

fn columns(n: usize) -> Vec<ColumnDraw> {
    (0..n)
        .map(|j| ColumnDraw { sample: sample(0x10_0000), front_color: j % 7, back_color: (j + 1) % 7 })
        .collect()
}

fn count(pieces: &[Piece], pred: impl Fn(&Paint) -> bool) -> usize {
    pieces.iter().filter(|p| pred(&p.paint)).count()
}

#[test]
fn palette_matches_the_city_colours() {
    let p = city_palette();
    assert_eq!(p.ground, Rgb { r: 97, g: 203, b: 139 });
    assert_eq!(p.road, Rgb { r: 50, g: 50, b: 55 });
    assert_eq!(p.trunk, Rgb { r: 120, g: 80, b: 50 });
    assert_eq!(p.canopy, Rgb { r: 46, g: 150, b: 80 });
    assert_eq!(p.fence, Rgb { r: 150, g: 150, b: 140 });
    assert_eq!(p.buildings.len(), 7);
    assert_eq!(p.buildings[0], Rgb { r: 210, g: 95, b: 90 });
    assert_eq!(p.buildings[6], Rgb { r: 210, g: 210, b: 215 });
    assert_eq!(p.cars.len(), 5);
    assert_eq!(p.cars[4], Rgb { r: 255, g: 255, b: 255 });
}

#[test]
fn road_palette_matches_the_scene_colours() {
    let p = road_palette();
    assert_eq!(p.ground, Rgb { r: 0x2e, g: 0x3d, b: 0x2a });
    assert_eq!(p.road, Rgb { r: 120, g: 122, b: 128 });
}

#[test]
fn grid_of_four_is_x_major_from_minus_two() {
    let cells = block_grid(4);
    assert_eq!(cells.len(), 16);
    assert_eq!(cells[0], (-2, -2));
    assert_eq!(cells[1], (-2, -1));
    assert_eq!(cells[4], (-1, -2));
    assert_eq!(cells[15], (1, 1));
}

#[test]
fn odd_grid_size_has_size_squared_blocks() {
    let cells = block_grid(3);
    assert_eq!(
        cells,
        vec![(-1, -1), (-1, 0), (-1, 1), (0, -1), (0, 0), (0, 1), (1, -1), (1, 0), (1, 1)]
    );
    let cells = block_grid(5);
    assert_eq!(cells.len(), 25);
    assert_eq!(cells[0], (-2, -2));
    assert_eq!(cells[24], (2, 2));
}

#[test]
fn small_grids() {
    assert!(block_grid(0).is_empty());
    assert_eq!(block_grid(1), vec![(0, 0)]);
    assert_eq!(block_grid(2), vec![(-1, -1), (-1, 0), (0, -1), (0, 0)]);
}

#[test]
fn grid_blocks_are_distinct() {
    let cells = block_grid(7);
    assert_eq!(cells.len(), 49);
    for i in 0..cells.len() {
        for j in 0..i {
            assert_ne!(cells[i], cells[j]);
        }
    }
}

#[test]
fn minimal_block_is_roads_and_ground() {
    let config = SpawnConfig { minimal: true, ..SpawnConfig::default() };
    let pieces = block_pieces(Zone::HighDensity, config, &draws(vec![], vec![]));
    assert_eq!(pieces.len(), 3);
    assert_eq!(pieces[0].center, Milli3 { x: 2750, y: -350, z: 0 });
    assert_eq!(pieces[0].size, Milli3 { x: 5500, y: 500, z: 1000 });
    assert_eq!(pieces[1].center, Milli3 { x: 0, y: -350, z: 2000 });
    assert_eq!(pieces[1].size, Milli3 { x: 1000, y: 500, z: 4000 });
    assert_eq!(pieces[2].paint, Paint::Ground);
    assert_eq!(pieces[2].center, Milli3 { x: 2750, y: -500, z: 2000 });
    assert_eq!(pieces[2].size, Milli3 { x: 5500, y: 400, z: 4000 });
}

#[test]
fn forest_block_has_58_trees_on_a_checkerboard() {
    let pieces = block_pieces(Zone::Forest, full_config(), &draws(no_cars_parked(), vec![]));
    let trunks: Vec<&Piece> = pieces.iter().filter(|p| p.paint == Paint::Trunk).collect();
    assert_eq!(trunks.len(), 58);
    assert_eq!(count(&pieces, |p| *p == Paint::Canopy), 58);
    // cell (0, 1) is the first tree
    assert_eq!(trunks[0].center, Milli3 { x: 750, y: 400, z: 1150 });
    assert_eq!(trunks[0].shape, Shape::Cylinder);
    for t in &trunks {
        let x = (t.center.x - 750) / 325;
        let z = (t.center.z - 850) / 300;
        assert_eq!((x + z) % 2, 1);
    }
}

#[test]
fn low_density_block_layout() {
    let pieces = block_pieces(Zone::LowDensity, full_config(), &draws(no_cars_parked(), columns(2)));
    assert_eq!(count(&pieces, |p| matches!(p, Paint::Building(_))), 4);
    assert_eq!(count(&pieces, |p| *p == Paint::Trunk), 14);
    assert_eq!(count(&pieces, |p| *p == Paint::Fence), 5);
    assert_eq!(pieces.len(), 3 + 4 + 28 + 5);
    let b = pieces[3];
    assert_eq!(b.center, Milli3 { x: 1800, y: 0, z: 1500 });
    assert_eq!(b.size, Milli3 { x: 700, y: 0, z: 700 });
    let h = b.height.unwrap();
    assert_eq!((h.base, h.span, h.factor), (1000, 1500, 1000));
    let back = pieces[4];
    assert_eq!(back.center, Milli3 { x: 1800, y: 0, z: 3000 });
    assert_eq!(back.height.unwrap().factor, 1000);
    assert_eq!(back.paint, Paint::Building(1));
    let last = pieces[pieces.len() - 1];
    assert_eq!(last.paint, Paint::Fence);
    assert_eq!(last.center, Milli3 { x: 2750, y: 150, z: 3150 });
    assert_eq!(last.size, Milli3 { x: 80, y: 300, z: 80 });
}

#[test]
fn medium_density_block_layout() {
    let pieces =
        block_pieces(Zone::MediumDensity, full_config(), &draws(no_cars_parked(), columns(5)));
    assert_eq!(count(&pieces, |p| matches!(p, Paint::Building(_))), 10);
    assert_eq!(count(&pieces, |p| *p == Paint::Trunk), 4);
    let front = pieces[3];
    assert_eq!(front.center, Milli3 { x: 900, y: 0, z: 1250 });
    let back = pieces[4].height.unwrap();
    assert_eq!((back.base, back.span, back.factor), (1500, 2500, 700));
    let last_tree = pieces[pieces.len() - 1];
    assert_eq!(last_tree.paint, Paint::Canopy);
    assert_eq!(last_tree.center, Milli3 { x: 3600, y: 1100, z: 2000 });
}

#[test]
fn high_density_block_layout() {
    let pieces = block_pieces(Zone::HighDensity, full_config(), &draws(no_cars_parked(), columns(3)));
    assert_eq!(pieces.len(), 3 + 6);
    let xs: Vec<i32> = pieces[3..].iter().map(|p| p.center.x).collect();
    assert_eq!(xs, vec![1250, 1250, 2750, 2750, 4250, 4250]);
    let back = pieces[4].height.unwrap();
    assert_eq!((back.base, back.span, back.factor), (2000, 3000, 800));
}

#[test]
fn parked_cars_follow_their_draws() {
    let mut cars = no_cars_parked();
    cars[0] = CarDraw { sample: sample(0x3F_FFFF), color: Some(3) };
    cars[5] = CarDraw { sample: sample(0), color: Some(4) };
    let config = SpawnConfig { no_buildings: true, no_decorations: true, ..SpawnConfig::default() };
    let pieces = block_pieces(Zone::LowDensity, config, &draws(cars, vec![]));
    assert_eq!(pieces.len(), 5);
    assert_eq!(pieces[2].paint, Paint::Car(3));
    assert_eq!(pieces[2].center, Milli3 { x: 750, y: 350, z: -250 });
    assert_eq!(pieces[2].size, Milli3 { x: 500, y: 300, z: 300 });
    assert_eq!(pieces[3].paint, Paint::Car(4));
    assert_eq!(pieces[3].center, Milli3 { x: 4750, y: 350, z: -250 });
    assert_eq!(pieces[4].paint, Paint::Ground);
}

#[test]
fn options_remove_their_pieces() {
    let config = SpawnConfig { no_decorations: true, ..SpawnConfig::default() };
    let pieces = block_pieces(Zone::Forest, config, &draws(no_cars_parked(), vec![]));
    assert_eq!(pieces.len(), 3);
    let config = SpawnConfig { no_buildings: true, ..SpawnConfig::default() };
    let pieces = block_pieces(Zone::HighDensity, config, &draws(no_cars_parked(), vec![]));
    assert_eq!(pieces.len(), 3);
}

#[test]
fn planned_city_respects_its_laws() {
    let (mut rng, _noise_seed) = start_city(42);
    let cells = block_grid(6);
    let zones: Vec<Zone> = (0..cells.len())
        .map(|k| match k % 4 {
            0 => Zone::Forest,
            1 => Zone::LowDensity,
            2 => Zone::MediumDensity,
            _ => Zone::HighDensity,
        })
        .collect();
    let plan = plan_city(&mut rng, 6, SpawnConfig::default(), &zones, 5, 7);
    assert_eq!(plan.len(), 36);
    let mut cars = 0;
    for (k, block) in plan.iter().enumerate() {
        assert_eq!((block.grid_x, block.grid_z), cells[k]);
        assert_eq!(block.zone, zones[k]);
        assert_eq!(block.draws.cars.len(), 6);
        for d in &block.draws.cars {
            assert!(d.sample.numerator < 0x100_0000);
            assert_eq!(d.color.is_some(), d.sample.numerator < 0x40_0000);
        }
        assert_eq!(block.pieces, block_pieces(block.zone, SpawnConfig::default(), &block.draws));
        for p in &block.pieces {
            let cylinder = matches!(p.paint, Paint::Trunk | Paint::Fence);
            assert_eq!(p.shape == Shape::Cylinder, cylinder);
            match p.paint {
                Paint::Car(c) => {
                    cars += 1;
                    assert!(c < 5);
                    assert!(p.center.z >= -500 && p.center.z <= 500);
                }
                Paint::Building(c) => {
                    assert!(c < 7);
                    assert!(p.center.x >= 0 && p.center.x <= 5500);
                    assert!(p.center.z >= 0 && p.center.z <= 4000);
                }
                _ => {}
            }
        }
    }
    assert!(cars > 0);
}

#[test]
fn same_seed_same_city() {
    let zones = vec![Zone::HighDensity; 16];
    // a city of size 4 has 16 blocks
    let (mut a, seed_a) = start_city(7);
    let (mut b, seed_b) = start_city(7);
    assert_eq!(seed_a, seed_b);
    let pa = plan_city(&mut a, 4, SpawnConfig::default(), &zones, 5, 7);
    let pb = plan_city(&mut b, 4, SpawnConfig::default(), &zones, 5, 7);
    for (x, y) in pa.iter().zip(pb.iter()) {
        assert_eq!(x.pieces, y.pieces);
    }
}

#[test]
fn draws_stay_in_range() {
    let (mut rng, _) = start_city(1);
    for _ in 0..1000 {
        assert!(rng.draw_index(3) < 3);
        assert!(rng.draw_unit().numerator < 0x100_0000);
    }
    let mut seen = [false; 3];
    for _ in 0..1000 {
        seen[rng.draw_index(3)] = true;
    }
    assert!(seen.iter().all(|s| *s));
}

#[test]
fn odd_city_plans_every_block() {
    let (mut rng, _) = start_city(11);
    let zones = vec![Zone::Forest; 9];
    let plan = plan_city(&mut rng, 3, SpawnConfig::default(), &zones, 5, 7);
    assert_eq!(plan.len(), 9);
    assert_eq!((plan[8].grid_x, plan[8].grid_z), (1, 1));
    let grounds: usize =
        plan.iter().map(|b| b.pieces.iter().filter(|p| p.paint == Paint::Ground).count()).sum();
    let roads: usize =
        plan.iter().map(|b| b.pieces.iter().filter(|p| p.paint == Paint::Road).count()).sum();
    assert_eq!((grounds, roads), (9, 18));
}

#[test]
fn minimal_city_draws_nothing() {
    let (mut rng, _) = start_city(3);
    let config = SpawnConfig { minimal: true, ..SpawnConfig::default() };
    let d = rng.draw_block(Zone::HighDensity, config, 0, 0);
    assert!(d.cars.is_empty());
    assert!(d.columns.is_empty());
}
