//! Verified core of a small city builder: the procedural city plan, the
//! road-placement state machine, the camera input decisions and the launch
//! options. Rendering, windowing and floating-point geometry live in the
//! application around this library.

pub mod palette;

pub mod city;
pub mod city_layout;
pub mod city_rng;
pub mod city_laws;
pub mod placement;
pub mod camera;
pub mod cli;
pub mod traced_rng;
