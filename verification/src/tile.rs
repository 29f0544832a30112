//! The cells of the world grid and the atlas slot each one is drawn with.

use vstd::prelude::*;

verus! {

/// The terrain categories a cell can have.
#[derive(Clone, Copy, Debug, PartialEq, Eq, Structural)]
pub enum TileType {
    DeepWater,
    ShallowWater,
    Sand,
    Grass,
    Street,
    Hill,
    Mountain,
    Snow,
    Lava,
    /// A teleport pad; the flag tells whether it has been discovered.
    Teleport(bool),
    Wall,
}

/// What lies on a cell, with its magnitude where the category has one.
#[derive(Clone, Copy, Debug, PartialEq, Eq, Structural)]
pub enum Content {
    Rock(usize),
    Tree(usize),
    Garbage(usize),
    Fire,
    Coin(usize),
    /// A bin and the bounds of what it can take.
    Bin(usize, usize),
    /// A crate and the bounds of what it can hold.
    Crate(usize, usize),
    /// A bank and the bounds of what it can hold.
    Bank(usize, usize),
    Water(usize),
    Market(usize),
    Fish(usize),
    Building,
    Bush(usize),
    JollyBlock(usize),
    Scarecrow,
    /// Nothing lies on the cell.
    Empty,
}

/// One cell of the grid as the world reports it.
#[derive(Clone, Copy, Debug, PartialEq, Eq, Structural)]
pub struct Tile {
    pub tile_type: TileType,
    pub content: Content,
    pub elevation: usize,
}

/// The atlas slot drawn for a cell whose terrain is unknown.
pub const FALLBACK_TERRAIN_INDEX: u32 = 5;

/// The atlas slot drawn for a cell that holds nothing or is unknown.
pub const FALLBACK_CONTENT_INDEX: u32 = 0;

/// The number of slots in the terrain atlas.
pub const TERRAIN_ATLAS_SLOTS: u32 = 11;

/// The number of slots in the content atlas.
pub const CONTENT_ATLAS_SLOTS: u32 = 16;

/// The terrain atlas slot of each terrain category. A discovered teleport
/// has no slot of its own and takes the fallback.
pub open spec fn terrain_index(kind: TileType) -> u32 {
    match kind {
        TileType::Grass => 0,
        TileType::Sand => 1,
        TileType::Snow => 2,
        TileType::Mountain => 3,
        TileType::Teleport(discovered) => if discovered { FALLBACK_TERRAIN_INDEX } else { 4 },
        TileType::Wall => 5,
        TileType::Hill => 6,
        TileType::Street => 7,
        TileType::Lava => 8,
        TileType::DeepWater => 9,
        TileType::ShallowWater => 10,
    }
}

/// The content atlas slot of each content category; the magnitude plays
/// no part.
pub open spec fn content_index(content: Content) -> u32 {
    match content {
        Content::Empty => 0,
        Content::Water(_) => 1,
        Content::Scarecrow => 2,
        Content::Tree(_) => 3,
        Content::Garbage(_) => 4,
        Content::Bank(_, _) => 5,
        Content::Crate(_, _) => 6,
        Content::Fish(_) => 7,
        Content::Market(_) => 8,
        Content::Bush(_) => 9,
        Content::Bin(_, _) => 10,
        Content::Coin(_) => 11,
        Content::Rock(_) => 12,
        Content::JollyBlock(_) => 13,
        Content::Fire => 14,
        Content::Building => 15,
    }
}

/// The terrain slot drawn for a cell that may be unknown.
pub open spec fn cell_terrain_index(cell: Option<Tile>) -> u32 {
    match cell {
        Some(tile) => terrain_index(tile.tile_type),
        None => FALLBACK_TERRAIN_INDEX,
    }
}

/// The content slot drawn for a cell that may be unknown.
pub open spec fn cell_content_index(cell: Option<Tile>) -> u32 {
    match cell {
        Some(tile) => content_index(tile.content),
        None => FALLBACK_CONTENT_INDEX,
    }
}

/// Whether two contents belong to the same category, whatever their
/// magnitudes.
pub open spec fn same_content_kind(a: Content, b: Content) -> bool {
    match (a, b) {
        (Content::Rock(_), Content::Rock(_)) => true,
        (Content::Tree(_), Content::Tree(_)) => true,
        (Content::Garbage(_), Content::Garbage(_)) => true,
        (Content::Fire, Content::Fire) => true,
        (Content::Coin(_), Content::Coin(_)) => true,
        (Content::Bin(_, _), Content::Bin(_, _)) => true,
        (Content::Crate(_, _), Content::Crate(_, _)) => true,
        (Content::Bank(_, _), Content::Bank(_, _)) => true,
        (Content::Water(_), Content::Water(_)) => true,
        (Content::Market(_), Content::Market(_)) => true,
        (Content::Fish(_), Content::Fish(_)) => true,
        (Content::Building, Content::Building) => true,
        (Content::Bush(_), Content::Bush(_)) => true,
        (Content::JollyBlock(_), Content::JollyBlock(_)) => true,
        (Content::Scarecrow, Content::Scarecrow) => true,
        (Content::Empty, Content::Empty) => true,
        _ => false,
    }
}

impl TileType {
    /// The terrain atlas slot of this category.
    pub fn texture_index(self) -> (index: u32)
        ensures
            index == terrain_index(self),
            index < TERRAIN_ATLAS_SLOTS,
    {
        match self {
            TileType::Grass => 0,
            TileType::Sand => 1,
            TileType::Snow => 2,
            TileType::Mountain => 3,
            TileType::Teleport(false) => 4,
            TileType::Wall => 5,
            TileType::Hill => 6,
            TileType::Street => 7,
            TileType::Lava => 8,
            TileType::DeepWater => 9,
            TileType::ShallowWater => 10,
            _ => FALLBACK_TERRAIN_INDEX,
        }
    }
}

impl Content {
    /// The content atlas slot of this category.
    pub fn texture_index(self) -> (index: u32)
        ensures
            index == content_index(self),
            index < CONTENT_ATLAS_SLOTS,
    {
        match self {
            Content::Empty => 0,
            Content::Water(_) => 1,
            Content::Scarecrow => 2,
            Content::Tree(_) => 3,
            Content::Garbage(_) => 4,
            Content::Bank(_, _) => 5,
            Content::Crate(_, _) => 6,
            Content::Fish(_) => 7,
            Content::Market(_) => 8,
            Content::Bush(_) => 9,
            Content::Bin(_, _) => 10,
            Content::Coin(_) => 11,
            Content::Rock(_) => 12,
            Content::JollyBlock(_) => 13,
            Content::Fire => 14,
            Content::Building => 15,
        }
    }
}

/// The terrain slot to draw for a cell: its category's slot, or the
/// fallback where the cell is unknown.
pub fn terrain_texture(cell: &Option<Tile>) -> (index: u32)
    ensures
        index == cell_terrain_index(*cell),
        index < TERRAIN_ATLAS_SLOTS,
{
    match cell {
        Some(tile) => tile.tile_type.texture_index(),
        None => FALLBACK_TERRAIN_INDEX,
    }
}

/// The content slot to draw for a cell: its category's slot, or the
/// fallback where the cell is unknown.
pub fn content_texture(cell: &Option<Tile>) -> (index: u32)
    ensures
        index == cell_content_index(*cell),
        index < CONTENT_ATLAS_SLOTS,
{
    match cell {
        Some(tile) => tile.content.texture_index(),
        None => FALLBACK_CONTENT_INDEX,
    }
}

/// Each content category has one slot: two contents of the same category
/// are drawn alike whatever their magnitudes, and two of different
/// categories are drawn differently.
pub proof fn lemma_content_index_by_kind(a: Content, b: Content)
    ensures
        same_content_kind(a, b) <==> content_index(a) == content_index(b),
{
}

/// Each terrain category has one slot, and only a discovered teleport
/// shares one: it is drawn with the fallback, as a wall is.
pub proof fn lemma_terrain_index_by_kind(a: TileType, b: TileType)
    ensures
        a == b ==> terrain_index(a) == terrain_index(b),
        terrain_index(a) == terrain_index(b) && a != b ==> (a == TileType::Wall && b
            == TileType::Teleport(true)) || (a == TileType::Teleport(true) && b == TileType::Wall),
{
}

} // verus!
