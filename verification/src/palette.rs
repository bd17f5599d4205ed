//! Colour palettes shared by the city generator and the road tool.

use vstd::prelude::*;

verus! {

/// An sRGB colour given by its three 8-bit channels.
#[derive(Clone, Copy, Debug, PartialEq, Eq, Structural)]
pub struct Rgb {
    pub r: u8,
    pub g: u8,
    pub b: u8,
}

/// Builds an [`Rgb`] from its channels.
pub open spec fn rgb(r: u8, g: u8, b: u8) -> Rgb {
    Rgb { r, g, b }
}

/// The colour of every material of the procedural city.
#[derive(Clone, Debug)]
pub struct CityPalette {
    pub ground: Rgb,
    pub road: Rgb,
    pub trunk: Rgb,
    pub canopy: Rgb,
    pub fence: Rgb,
    pub buildings: Vec<Rgb>,
    pub cars: Vec<Rgb>,
}

/// The building colours, in palette order.
pub open spec fn building_colors() -> Seq<Rgb> {
    seq![
        rgb(210, 95, 90),
        rgb(240, 165, 85),
        rgb(240, 210, 90),
        rgb(95, 180, 210),
        rgb(150, 130, 200),
        rgb(240, 140, 190),
        rgb(210, 210, 215),
    ]
}

/// The car colours, in palette order.
pub open spec fn car_colors() -> Seq<Rgb> {
    seq![
        rgb(60, 120, 220),
        rgb(220, 60, 60),
        rgb(240, 200, 60),
        rgb(60, 190, 120),
        rgb(255, 255, 255),
    ]
}

fn make_rgb(r: u8, g: u8, b: u8) -> (c: Rgb)
    ensures
        c == rgb(r, g, b),
{
    Rgb { r, g, b }
}

/// The palette of the procedural city: grass-green ground, dark asphalt,
/// brown trunks, green canopies, grey fences, seven building colours and
/// five car colours.
pub fn city_palette() -> (p: CityPalette)
    ensures
        p.ground == rgb(97, 203, 139),
        p.road == rgb(50, 50, 55),
        p.trunk == rgb(120, 80, 50),
        p.canopy == rgb(46, 150, 80),
        p.fence == rgb(150, 150, 140),
        p.buildings@ == building_colors(),
        p.cars@ == car_colors(),
{
    let buildings = vec![
        make_rgb(210, 95, 90),
        make_rgb(240, 165, 85),
        make_rgb(240, 210, 90),
        make_rgb(95, 180, 210),
        make_rgb(150, 130, 200),
        make_rgb(240, 140, 190),
        make_rgb(210, 210, 215),
    ];
    let cars = vec![
        make_rgb(60, 120, 220),
        make_rgb(220, 60, 60),
        make_rgb(240, 200, 60),
        make_rgb(60, 190, 120),
        make_rgb(255, 255, 255),
    ];
    assert(buildings@ == building_colors());
    assert(cars@ == car_colors());
    CityPalette {
        ground: make_rgb(97, 203, 139),
        road: make_rgb(50, 50, 55),
        trunk: make_rgb(120, 80, 50),
        canopy: make_rgb(46, 150, 80),
        fence: make_rgb(150, 150, 140),
        buildings,
        cars,
    }
}

/// Colours of the road-placement scene.
#[derive(Clone, Copy, Debug)]
pub struct RoadPalette {
    /// The flat ground plane, `#2e3d2a`.
    pub ground: Rgb,
    /// Roads (opaque), the road preview and the cursor marker (translucent).
    pub road: Rgb,
}

/// The road scene's colours: ground `#2e3d2a` and road grey `(120, 122, 128)`.
pub fn road_palette() -> (p: RoadPalette)
    ensures
        p.ground == rgb(0x2e, 0x3d, 0x2a),
        p.road == rgb(120, 122, 128),
{
    RoadPalette { ground: make_rgb(0x2e, 0x3d, 0x2a), road: make_rgb(120, 122, 128) }
}

} // verus!
