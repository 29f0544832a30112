//! What is drawn on screen, as plain values: one type for each kind of
//! item, holding what the consumers read and change.

use vstd::prelude::*;
use crate::components::LastUpdate;

verus! {

/// The place of a drawn tile in its layer, in cells: `x` grows to the
/// right and `y` grows upwards.
#[derive(Clone, Copy, Debug, PartialEq, Eq, Structural)]
pub struct TilePos {
    pub x: u32,
    pub y: u32,
}

/// A rectangle of the window, in physical pixels.
#[derive(Clone, Copy, Debug, PartialEq, Eq, Structural)]
pub struct Viewport {
    pub x: u32,
    pub y: u32,
    pub width: u32,
    pub height: u32,
}

/// The marker that shows where the agent stands, in pixels.
#[derive(Clone, Copy, Debug, PartialEq, Eq, Structural)]
pub struct VisualizerRobot {
    pub x: i128,
    pub y: i128,
}

/// The camera of the small overview in the corner of the window. Its
/// scale is counted in tenths.
#[derive(Clone, Copy, Debug, PartialEq, Eq, Structural)]
pub struct MiniCamera {
    pub x: i128,
    pub y: i128,
    pub scale_tenths: i64,
    pub order: i32,
    pub viewport: Viewport,
}

/// One tile of the content layer.
#[derive(Clone, Copy, Debug, PartialEq, Eq, Structural)]
pub struct ContentMap {
    pub position: TilePos,
    pub texture_index: u32,
    pub last_update: LastUpdate,
}

/// One tile of the terrain layer.
#[derive(Clone, Copy, Debug, PartialEq, Eq, Structural)]
pub struct TileMap {
    pub position: TilePos,
    pub texture_index: u32,
    pub last_update: LastUpdate,
}

/// The black sheet over the map whose opacity, in tenths, darkens the
/// scene at night.
#[derive(Clone, Copy, Debug, PartialEq, Eq, Structural)]
pub struct DncRectangle {
    pub alpha_tenths: u8,
}

/// The main camera, which follows the marker. Its scale is counted in
/// tenths.
#[derive(Clone, Copy, Debug, PartialEq, Eq, Structural)]
pub struct BigBrother {
    pub x: i128,
    pub y: i128,
    pub scale_tenths: i64,
}

/// The energy display: three pieces of text and a bar whose width is
/// counted in thousandths of the full width.
#[derive(Debug)]
pub struct HUD {
    pub caption: String,
    pub separator: String,
    pub maximum: String,
    pub bar_permille: u64,
}

} // verus!
