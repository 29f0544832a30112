//! The routines the host loop runs: setting the scene up, stepping the
//! agent when the timer admits it, and the consumers that redraw from the
//! snapshot store.

use vstd::prelude::*;
use vstd::string::StrSliceExecFns;
use vstd::string::StringExecFns;
use crate::components::LastUpdate;
use crate::entities::{
    BigBrother, ContentMap, DncRectangle, MiniCamera, TileMap, TilePos, Viewport, VisualizerRobot,
    HUD,
};
use crate::events::{any_completed, completed_count, count_completed, CameraEvent, TickEvent};
use crate::resources::{GameTimer, MapInfo, RunnerTag, TimerState};
use crate::store::{
    lemma_row_major_index, rectangular, row_length, row_major, PositionSnapshot, SnapshotStore,
};
use crate::text::{
    decimal_digits, decimal_text, parse_unsigned, parse_unsigned_in, parsed_unsigned,
};
use crate::wrapper::{step_published, Runnable};
use crate::tile::{
    cell_content_index, cell_terrain_index, content_texture, terrain_texture, Tile,
};

verus! {

/// The side of a tile on screen, in pixels.
pub const TILE_PIXEL_SIZE: u32 = 64;

/// How far the marker is lifted above the lower edge of its tile, in
/// pixels.
pub const TILE_PIXEL_OFFSET: u32 = 10;

/// How far the marker is pushed right of the left edge of its tile, in
/// pixels.
pub const MARKER_PIXEL_INSET: u32 = 5;

/// The energy that fills the whole bar.
pub const MAX_ENERGY: u64 = 1000;

/// The least time between two redraws of one tile, in nanoseconds. A
/// tile is redrawn only when more than this has passed since its last
/// redraw.
pub const REDRAW_INTERVAL: u64 = 1_000_000_000;

/// The scale the main camera takes when it follows the marker, in
/// tenths.
pub const FOLLOW_SCALE_TENTHS: i64 = 6;

/// Why the scene could not be set up.
#[derive(Clone, Copy, Debug, PartialEq, Eq, Structural)]
pub enum SetupError {
    /// The map has more cells than can be counted.
    MapTooLarge,
    /// Fewer launch arguments were given than are needed.
    MissingArgument,
    /// The starting amount of coins is no number.
    InvalidCoinAmount,
    /// The choice of agent names none of the agents.
    UnknownBot,
}

/// Which agent to run.
#[derive(Clone, Copy, Debug, PartialEq, Eq, Structural)]
pub enum BotChoice {
    /// The saving agent, with the coins it sets out to gather.
    SaverBot(usize),
    /// The exploring agent.
    MyRobot,
}

/// What the launch arguments ask for.
#[derive(Debug)]
pub struct LaunchPlan {
    pub bot: BotChoice,
    pub world_path: String,
}

/// The keys that move the camera, each pressed or not.
#[derive(Clone, Copy, Debug, PartialEq, Eq, Structural)]
pub struct KeyboardInput {
    pub a: bool,
    pub d: bool,
    pub w: bool,
    pub s: bool,
    pub z: bool,
    pub x: bool,
}

/// How the camera is to move in one frame: the direction along each
/// axis, and the change of scale in tenths.
#[derive(Clone, Copy, Debug, PartialEq, Eq, Structural)]
pub struct CameraMotion {
    pub dx: i8,
    pub dy: i8,
    pub zoom_tenths: i8,
}

/// Everything that is drawn, as it stands before the first redraw.
#[derive(Debug)]
pub struct Scene {
    pub overlay: DncRectangle,
    pub tiles: Vec<TileMap>,
    pub contents: Vec<ContentMap>,
    pub robot: VisualizerRobot,
    pub camera: BigBrother,
}

/// The place of the tile that is created `k`-th on a square map: tiles
/// are created row by row from the top of the screen down, each row from
/// left to right.
pub open spec fn spawn_position(side: nat, k: nat) -> TilePos {
    TilePos { x: (k % side) as u32, y: (side - 1 - k / side) as u32 }
}

/// The side of the map to draw: the height of the published grid, or the
/// side already known where no grid was published.
pub open spec fn map_side(store: &SnapshotStore, known: u32) -> nat {
    match store@.grid {
        Some(rows) => rows.len(),
        None => known as nat,
    }
}

/// The places of the tiles of a square map in the order in which they are
/// created.
fn spawn_order(side: u32) -> (places: Vec<TilePos>)
    requires
        side * side <= usize::MAX,
    ensures
        places@.len() == side * side,
        forall|k: int|
            0 <= k < places@.len() ==> #[trigger] places@[k] == spawn_position(
                side as nat,
                k as nat,
            ),
{
    let mut places: Vec<TilePos> = Vec::new();
    let mut done: u32 = 0;
    while done < side
        invariant
            done <= side,
            places@.len() == done * side,
            forall|k: int|
                0 <= k < places@.len() ==> #[trigger] places@[k] == spawn_position(
                    side as nat,
                    k as nat,
                ),
        decreases side - done,
    {
        let y: u32 = side - 1 - done;
        let mut x: u32 = 0;
        while x < side
            invariant
                x <= side,
                done < side,
                y == side - 1 - done,
                places@.len() == done * side + x,
                forall|k: int|
                    0 <= k < places@.len() ==> #[trigger] places@[k] == spawn_position(
                        side as nat,
                        k as nat,
                    ),
            decreases side - x,
        {
            proof {
                let k = done * side + x;
                vstd::arithmetic::div_mod::lemma_fundamental_div_mod_converse(
                    k as int,
                    side as int,
                    done as int,
                    x as int,
                );
            }
            places.push(TilePos { x, y });
            x += 1;
        }
        proof {
            assert(done * side + side == (done + 1) * side) by (nonlinear_arith);
        }
        done += 1;
    }
    places
}

/// Sets the scene: takes the side of the map from the published grid,
/// and lays out both tile layers, the night overlay, the marker and the
/// main camera.
///
/// Every tile starts with the first atlas slot and has never been
/// redrawn. Fails, and leaves the map record alone, where the map has
/// more cells than can be counted.
pub fn startup(store: &SnapshotStore, map_info: &mut MapInfo) -> (scene: Result<Scene, SetupError>)
    ensures
        ({
            let side = map_side(store, old(map_info).size);
            match scene {
                Ok(scene) => {
                    &&& side <= u32::MAX
                    &&& side * side <= usize::MAX
                    &&& *final(map_info) == (MapInfo { size: side as u32, ..*old(map_info) })
                    &&& scene.overlay == (DncRectangle { alpha_tenths: 0 })
                    &&& scene.robot == (VisualizerRobot { x: 0, y: 74 })
                    &&& scene.camera == (BigBrother { x: 0, y: 0, scale_tenths: 10 })
                    &&& scene.tiles@.len() == side * side
                    &&& scene.contents@.len() == side * side
                    &&& forall|k: int|
                        0 <= k < side * side ==> #[trigger] scene.tiles@[k] == (TileMap {
                            position: spawn_position(side, k as nat),
                            texture_index: 0,
                            last_update: LastUpdate { value: 0 },
                        })
                    &&& forall|k: int|
                        0 <= k < side * side ==> #[trigger] scene.contents@[k] == (ContentMap {
                            position: spawn_position(side, k as nat),
                            texture_index: 0,
                            last_update: LastUpdate { value: 0 },
                        })
                },
                Err(error) => {
                    &&& error == SetupError::MapTooLarge
                    &&& side > u32::MAX || side * side > usize::MAX
                    &&& *final(map_info) == *old(map_info)
                },
            }
        }),
{
    let side: u32 = match store.read_grid() {
        Some(grid) => {
            let height = grid.height();
            if height > u32::MAX as usize {
                return Err(SetupError::MapTooLarge);
            }
            height as u32
        },
        None => map_info.size,
    };
    if (side as usize).checked_mul(side as usize).is_none() {
        return Err(SetupError::MapTooLarge);
    }
    map_info.size = side;
    let places = spawn_order(side);
    let mut tiles: Vec<TileMap> = Vec::new();
    let mut contents: Vec<ContentMap> = Vec::new();
    let mut k: usize = 0;
    while k < places.len()
        invariant
            k <= places.len(),
            tiles@.len() == k,
            contents@.len() == k,
            forall|j: int|
                0 <= j < k ==> #[trigger] tiles@[j] == (TileMap {
                    position: places@[j],
                    texture_index: 0,
                    last_update: LastUpdate { value: 0 },
                }),
            forall|j: int|
                0 <= j < k ==> #[trigger] contents@[j] == (ContentMap {
                    position: places@[j],
                    texture_index: 0,
                    last_update: LastUpdate { value: 0 },
                }),
        decreases places.len() - k,
    {
        tiles.push(
            TileMap { position: places[k], texture_index: 0, last_update: LastUpdate::default() },
        );
        contents.push(
            ContentMap {
                position: places[k],
                texture_index: 0,
                last_update: LastUpdate::default(),
            },
        );
        k += 1;
    }
    Ok(
        Scene {
            overlay: DncRectangle { alpha_tenths: 0 },
            tiles,
            contents,
            robot: VisualizerRobot { x: 0, y: 74 },
            camera: BigBrother { x: 0, y: 0, scale_tenths: 10 },
        },
    )
}

/// The energy display as it stands before the first step is shown: a
/// zero, a line break, nothing after it, and a full bar.
pub fn setup_hud() -> (hud: HUD)
    ensures
        hud.caption@ == "0"@,
        hud.separator@ == "\n"@,
        hud.maximum@ == ""@,
        hud.bar_permille == 1000,
{
    HUD {
        caption: String::from_str("0"),
        separator: String::from_str("\n"),
        maximum: String::from_str(""),
        bar_permille: 1000,
    }
}

/// The camera of the overview: drawn over the main view, in a window 512
/// pixels wide and 256 high at the top left, five times as far out.
pub fn setup_minimap() -> (camera: MiniCamera)
    ensures
        camera == (MiniCamera {
            x: 0,
            y: 0,
            scale_tenths: 50,
            order: 2,
            viewport: Viewport { x: 0, y: 0, width: 512, height: 256 },
        }),
{
    MiniCamera {
        x: 0,
        y: 0,
        scale_tenths: 50,
        order: 2,
        viewport: Viewport { x: 0, y: 0, width: 512, height: 256 },
    }
}

/// Whether a tile last redrawn at `last` may be redrawn at `now`: more
/// than the least interval lies between the two.
pub open spec fn redraw_due(last: LastUpdate, now: u64) -> bool {
    now - last.value > REDRAW_INTERVAL
}

/// The cell that the `k`-th tile shows: the `k`-th cell of the grid in
/// row-major order, if the grid has that many.
pub open spec fn cell_in_order(grid: Seq<Seq<Option<Tile>>>, k: int) -> Option<Option<Tile>> {
    let cells = row_major(grid);
    if 0 <= k < cells.len() {
        Some(cells[k])
    } else {
        None
    }
}

/// A terrain tile after a redraw at `now`. A tile that is due takes the
/// slot of its cell, or keeps its slot where the grid has no cell for
/// it, and is stamped with `now`; a tile that is not due is left alone.
pub open spec fn redrawn_tile(tile: TileMap, cell: Option<Option<Tile>>, now: u64) -> TileMap {
    if redraw_due(tile.last_update, now) {
        TileMap {
            texture_index: match cell {
                Some(c) => cell_terrain_index(c),
                None => tile.texture_index,
            },
            last_update: LastUpdate { value: now },
            ..tile
        }
    } else {
        tile
    }
}

/// A content tile after a redraw at `now`, by the same rule as a terrain
/// tile.
pub open spec fn redrawn_content(tile: ContentMap, cell: Option<Option<Tile>>, now: u64)
    -> ContentMap {
    if redraw_due(tile.last_update, now) {
        ContentMap {
            texture_index: match cell {
                Some(c) => cell_content_index(c),
                None => tile.texture_index,
            },
            last_update: LastUpdate { value: now },
            ..tile
        }
    } else {
        tile
    }
}

/// The terrain layer after a redraw from the grid at `now`.
pub open spec fn redrawn_tiles(tiles: Seq<TileMap>, grid: Seq<Seq<Option<Tile>>>, now: u64)
    -> Seq<TileMap> {
    Seq::new(tiles.len(), |k: int| redrawn_tile(tiles[k], cell_in_order(grid, k), now))
}

/// The content layer after a redraw from the grid at `now`.
pub open spec fn redrawn_contents(
    tiles: Seq<ContentMap>,
    grid: Seq<Seq<Option<Tile>>>,
    now: u64,
) -> Seq<ContentMap> {
    Seq::new(tiles.len(), |k: int| redrawn_content(tiles[k], cell_in_order(grid, k), now))
}

/// On a square map the tile that shows the cell of a row and a column
/// is created at the place in that column, as far from the top as the
/// row is: the first row of the grid is drawn at the top of the screen.
pub proof fn lemma_tile_shows_cell(grid: Seq<Seq<Option<Tile>>>, row: int, col: int)
    requires
        rectangular(grid),
        row_length(grid) == grid.len(),
        grid.len() <= u32::MAX,
        0 <= row < grid.len(),
        0 <= col < grid.len(),
    ensures
        cell_in_order(grid, row * grid.len() + col) == Some(grid[row][col]),
        0 <= row * grid.len() + col,
        spawn_position(grid.len(), (row * grid.len() + col) as nat) == (TilePos {
            x: col as u32,
            y: (grid.len() - 1 - row) as u32,
        }),
{
    let side = grid.len() as int;
    let k = row * side + col;
    lemma_row_major_index(grid, row, col);
    vstd::arithmetic::div_mod::lemma_fundamental_div_mod_converse(k, side, row, col);
}

/// Tells whether more than the least interval has passed since `last`.
fn is_due(last: LastUpdate, now: u64) -> (due: bool)
    ensures
        due == redraw_due(last, now),
{
    now > last.value && now - last.value > REDRAW_INTERVAL
}

/// Redraws the terrain layer at time `now`.
///
/// Nothing happens unless a completed step was notified and a grid has
/// been published. Then each tile that is due is given the slot of the
/// cell it shows, the tiles taking the cells in row-major order.
pub fn update_tilemap(
    now: u64,
    tiles: &mut Vec<TileMap>,
    store: &SnapshotStore,
    events: &Vec<TickEvent>,
)
    ensures
        final(tiles)@ == if any_completed(events@) && store@.grid is Some {
            redrawn_tiles(old(tiles)@, store@.grid->0, now)
        } else {
            old(tiles)@
        },
{
    if count_completed(events) == 0 {
        return ;
    }
    let grid = match store.read_grid() {
        Some(grid) => grid,
        None => {
            return ;
        },
    };
    let cells = grid.flatten();
    let mut k: usize = 0;
    while k < tiles.len()
        invariant
            k <= tiles@.len(),
            tiles@.len() == old(tiles)@.len(),
            cells@ == row_major(grid@),
            forall|j: int|
                0 <= j < k ==> #[trigger] tiles@[j] == redrawn_tile(
                    old(tiles)@[j],
                    cell_in_order(grid@, j),
                    now,
                ),
            forall|j: int| k <= j < tiles@.len() ==> #[trigger] tiles@[j] == old(tiles)@[j],
        decreases tiles@.len() - k,
    {
        let tile = tiles[k];
        if is_due(tile.last_update, now) {
            let texture_index = if k < cells.len() {
                terrain_texture(&cells[k])
            } else {
                tile.texture_index
            };
            tiles[k] = TileMap { texture_index, last_update: LastUpdate { value: now }, ..tile };
        }
        k += 1;
    }
    assert(tiles@ =~= redrawn_tiles(old(tiles)@, grid@, now));
}

/// Redraws the content layer at time `now`.
///
/// Nothing happens unless a completed step was notified and a grid has
/// been published. Then each tile that is due is given the slot of what
/// lies on the cell it shows, the tiles taking the cells in row-major
/// order.
pub fn update_contents(
    now: u64,
    tiles: &mut Vec<ContentMap>,
    store: &SnapshotStore,
    events: &Vec<TickEvent>,
)
    ensures
        final(tiles)@ == if any_completed(events@) && store@.grid is Some {
            redrawn_contents(old(tiles)@, store@.grid->0, now)
        } else {
            old(tiles)@
        },
{
    if count_completed(events) == 0 {
        return ;
    }
    let grid = match store.read_grid() {
        Some(grid) => grid,
        None => {
            return ;
        },
    };
    let cells = grid.flatten();
    let mut k: usize = 0;
    while k < tiles.len()
        invariant
            k <= tiles@.len(),
            tiles@.len() == old(tiles)@.len(),
            cells@ == row_major(grid@),
            forall|j: int|
                0 <= j < k ==> #[trigger] tiles@[j] == redrawn_content(
                    old(tiles)@[j],
                    cell_in_order(grid@, j),
                    now,
                ),
            forall|j: int| k <= j < tiles@.len() ==> #[trigger] tiles@[j] == old(tiles)@[j],
        decreases tiles@.len() - k,
    {
        let tile = tiles[k];
        if is_due(tile.last_update, now) {
            let texture_index = if k < cells.len() {
                content_texture(&cells[k])
            } else {
                tile.texture_index
            };
            tiles[k] = ContentMap {
                texture_index,
                last_update: LastUpdate { value: now },
                ..tile
            };
        }
        k += 1;
    }
    assert(tiles@ =~= redrawn_contents(old(tiles)@, grid@, now));
}

/// How many characters stand before the first colon; the whole length
/// where there is no colon.
pub open spec fn colon_offset(s: Seq<char>) -> nat
    decreases s.len(),
{
    if s.len() == 0 || s[0] == ':' {
        0
    } else {
        1 + colon_offset(s.drop_first())
    }
}

/// The hour that a time of day names: what stands before its first
/// colon, read as a number of at most 255. A text without a colon, or
/// with something else than a number before it, names no hour.
pub open spec fn hour_of(time_of_day: Seq<char>) -> Option<u8> {
    let cut = colon_offset(time_of_day);
    if cut < time_of_day.len() {
        match parsed_unsigned(time_of_day.take(cut as int), 255) {
            Some(hour) => Some(hour as u8),
            None => None,
        }
    } else {
        None
    }
}

/// How dark the overlay is at each hour, in tenths: dark through the
/// night, clear from eight to five, with dawn and dusk between. An hour
/// beyond the day leaves it clear.
pub open spec fn night_opacity(hour: u8) -> u8 {
    if hour <= 4 {
        8
    } else if hour == 5 {
        6
    } else if hour == 6 {
        3
    } else if hour == 7 {
        1
    } else if hour <= 17 {
        0
    } else if hour == 18 {
        2
    } else if hour == 19 {
        4
    } else if hour == 20 {
        6
    } else if hour <= 23 {
        8
    } else {
        0
    }
}

/// The first colon stands where no colon stands before.
proof fn lemma_colon_offset(s: Seq<char>, i: int)
    requires
        0 <= i <= s.len(),
        forall|j: int| 0 <= j < i ==> s[j] != ':',
        i == s.len() || s[i] == ':',
    ensures
        colon_offset(s) == i,
    decreases i,
{
    if i > 0 {
        let rest = s.drop_first();
        assert forall|j: int| 0 <= j < i - 1 implies rest[j] != ':' by {
            assert(rest[j] == s[j + 1]);
        }
        lemma_colon_offset(rest, i - 1);
    }
}

/// Reads the hour out of a time of day.
pub fn read_hour(time_of_day: &str) -> (hour: Option<u8>)
    ensures
        hour == hour_of(time_of_day@),
{
    let length = time_of_day.unicode_len();
    let mut cut: usize = 0;
    while cut < length && time_of_day.get_char(cut) != ':'
        invariant
            cut <= length,
            length == time_of_day@.len(),
            forall|j: int| 0 <= j < cut ==> time_of_day@[j] != ':',
        decreases length - cut,
    {
        cut += 1;
    }
    proof {
        lemma_colon_offset(time_of_day@, cut as int);
    }
    if cut == length {
        return None;
    }
    assert(time_of_day@.take(cut as int) == time_of_day@.subrange(0, cut as int));
    match parse_unsigned_in(time_of_day, 0, cut, 255) {
        Some(hour) => Some(hour as u8),
        None => None,
    }
}

/// The opacity of the overlay at the given hour, in tenths.
pub fn opacity_at(hour: u8) -> (tenths: u8)
    ensures
        tenths == night_opacity(hour),
        tenths <= 10,
{
    match hour {
        0..=4 => 8,
        5 => 6,
        6 => 3,
        7 => 1,
        8..=17 => 0,
        18 => 2,
        19 => 4,
        20 => 6,
        21..=23 => 8,
        _ => 0,
    }
}

/// Tints the overlay for the time of day.
///
/// Nothing happens unless a completed step was notified, an
/// environmental reading has been published and its time of day names
/// an hour. Then the overlay takes the opacity of that hour.
pub fn update_dnc(overlay: &mut DncRectangle, store: &SnapshotStore, events: &Vec<TickEvent>)
    ensures
        *final(overlay) == if any_completed(events@) && store@.environment is Some && hour_of(
            (store@.environment->0).time_of_day@,
        ) is Some {
            DncRectangle {
                alpha_tenths: night_opacity(hour_of((store@.environment->0).time_of_day@)->0),
            }
        } else {
            *old(overlay)
        },
{
    if count_completed(events) == 0 {
        return ;
    }
    if let Some(reading) = store.read_environment() {
        if let Some(hour) = read_hour(reading.time_of_day.as_str()) {
            overlay.alpha_tenths = opacity_at(hour);
        }
    }
}

/// The width of the energy bar for an energy level, in thousandths of
/// the full width.
pub open spec fn bar_width(level: usize) -> int {
    level * 1000 / (MAX_ENERGY as int)
}

/// Shows the energy level.
///
/// Nothing happens unless a completed step was notified and an energy
/// level has been published. Then the text reads the level, a stroke and
/// the maximum, and the bar is as wide as the level is of the maximum.
pub fn update_hud(hud: &mut HUD, store: &SnapshotStore, events: &Vec<TickEvent>)
    ensures
        if any_completed(events@) && store@.energy is Some {
            &&& final(hud).caption@ == "Energy: "@ + decimal_digits(store@.energy->0 as nat)
            &&& final(hud).separator@ == "/"@
            &&& final(hud).maximum@ == decimal_digits(MAX_ENERGY as nat)
            &&& final(hud).bar_permille == bar_width(store@.energy->0)
        } else {
            *final(hud) == *old(hud)
        },
{
    if count_completed(events) == 0 {
        return ;
    }
    if let Some(level) = store.read_energy() {
        let mut caption = String::from_str("Energy: ");
        let digits = decimal_text(level as u64);
        caption.append(digits.as_str());
        hud.caption = caption;
        hud.separator = String::from_str("/");
        hud.maximum = decimal_text(MAX_ENERGY);
        hud.bar_permille = (level as u128 * 1000 / (MAX_ENERGY as u128)) as u64;
    }
}

/// Where the marker stands from the left, in pixels, when the agent is
/// in the given column.
pub open spec fn marker_x(col: usize) -> int {
    TILE_PIXEL_SIZE * col + MARKER_PIXEL_INSET
}

/// Where the marker stands from the bottom, in pixels, when the agent is
/// in the given row of a map of the given side: the first row is at the
/// top, so the marker sinks as the row grows.
pub open spec fn marker_y(side: u32, row: usize) -> int {
    side * TILE_PIXEL_SIZE - TILE_PIXEL_SIZE * (row + 1) + TILE_PIXEL_OFFSET
}

/// Whether the position consumer has something to apply: a completed
/// step was notified, a position is published, and either none was
/// applied yet or the published one is another than the one applied
/// last.
pub open spec fn position_changed(
    published: Option<PositionSnapshot>,
    map_info: MapInfo,
    events: Seq<TickEvent>,
) -> bool {
    &&& any_completed(events)
    &&& published is Some
    &&& map_info.last_known_robot_position != Some(((published->0).row, (published->0).col))
}

/// The marker after the position consumer has run: moved to the
/// published cell where there is something to apply, else as it was.
pub open spec fn moved_marker(
    robot: VisualizerRobot,
    published: Option<PositionSnapshot>,
    map_info: MapInfo,
    events: Seq<TickEvent>,
) -> VisualizerRobot {
    if position_changed(published, map_info, events) {
        VisualizerRobot {
            x: marker_x((published->0).col) as i128,
            y: marker_y(map_info.size, (published->0).row) as i128,
        }
    } else {
        robot
    }
}

/// The record of the last applied position after the position consumer
/// has run.
pub open spec fn moved_record(
    published: Option<PositionSnapshot>,
    map_info: MapInfo,
    events: Seq<TickEvent>,
) -> MapInfo {
    if position_changed(published, map_info, events) {
        MapInfo {
            last_known_robot_position: Some(((published->0).row, (published->0).col)),
            ..map_info
        }
    } else {
        map_info
    }
}

/// Moves the marker to the agent's cell.
///
/// The marker and the record of the last applied position change only
/// when a completed step was notified and the published position is
/// the first of the session or another than the one applied last. One
/// request to the cameras is
/// returned for each completed step notified, whether the marker moved
/// or not.
pub fn update_robot_position(
    robot: &mut VisualizerRobot,
    map_info: &mut MapInfo,
    store: &SnapshotStore,
    events: &Vec<TickEvent>,
) -> (requests: Vec<CameraEvent>)
    ensures
        requests@.len() == completed_count(events@),
        *final(robot) == moved_marker(*old(robot), store@.position, *old(map_info), events@),
        *final(map_info) == moved_record(store@.position, *old(map_info), events@),
{
    let completed = count_completed(events);
    let mut requests: Vec<CameraEvent> = Vec::new();
    if completed == 0 {
        return requests;
    }
    if let Some(position) = store.read_position() {
        let differs = match map_info.last_known_robot_position {
            Some(last) => position.row != last.0 || position.col != last.1,
            None => true,
        };
        if differs {
            robot.x = (TILE_PIXEL_SIZE as i128) * (position.col as i128) + (
            MARKER_PIXEL_INSET as i128);
            robot.y = (map_info.size as i128) * (TILE_PIXEL_SIZE as i128) - (
            TILE_PIXEL_SIZE as i128) * (position.row as i128 + 1) + (TILE_PIXEL_OFFSET as i128);
            map_info.last_known_robot_position = Some((position.row, position.col));
        }
    }
    let mut sent: usize = 0;
    while sent < completed
        invariant
            sent <= completed,
            requests@.len() == sent,
        decreases completed - sent,
    {
        requests.push(CameraEvent);
        sent += 1;
    }
    requests
}

/// A position is applied once: after the position consumer has seen a
/// completed step, running it again on the same published position
/// moves nothing, whatever is notified.
pub proof fn lemma_position_applied_once(
    robot: VisualizerRobot,
    published: Option<PositionSnapshot>,
    map_info: MapInfo,
    first: Seq<TickEvent>,
    second: Seq<TickEvent>,
)
    requires
        any_completed(first),
    ensures
        moved_marker(
            moved_marker(robot, published, map_info, first),
            published,
            moved_record(published, map_info, first),
            second,
        ) == moved_marker(robot, published, map_info, first),
        moved_record(published, moved_record(published, map_info, first), second) == moved_record(
            published,
            map_info,
            first,
        ),
{
}

/// The marker moves only for another position: where the published
/// position is the one applied last, or nothing was published or
/// notified, marker and record stay as they are.
pub proof fn lemma_position_unchanged(
    robot: VisualizerRobot,
    published: Option<PositionSnapshot>,
    map_info: MapInfo,
    events: Seq<TickEvent>,
)
    requires
        published matches Some(position) ==> map_info.last_known_robot_position == Some(
            (position.row, position.col),
        ),
    ensures
        moved_marker(robot, published, map_info, events) == robot,
        moved_record(published, map_info, events) == map_info,
{
}

/// A tile is not redrawn twice within the least interval: where it is
/// redrawn at one time and again at another, more than the interval lies
/// between the two.
pub proof fn lemma_tile_throttle(
    tile: TileMap,
    first_cell: Option<Option<Tile>>,
    first: u64,
    second_cell: Option<Option<Tile>>,
    second: u64,
)
    requires
        redraw_due(tile.last_update, first),
        redraw_due(redrawn_tile(tile, first_cell, first).last_update, second),
    ensures
        second - first > REDRAW_INTERVAL,
{
}

/// A content tile is not redrawn twice within the least interval.
pub proof fn lemma_content_throttle(
    tile: ContentMap,
    first_cell: Option<Option<Tile>>,
    first: u64,
    second_cell: Option<Option<Tile>>,
    second: u64,
)
    requires
        redraw_due(tile.last_update, first),
        redraw_due(redrawn_content(tile, first_cell, first).last_update, second),
    ensures
        second - first > REDRAW_INTERVAL,
{
}

/// A redraw changes a tile only by stamping it with the time of the
/// redraw, and then more than the least interval has passed since its
/// last stamp.
pub proof fn lemma_redraw_stamps(tile: TileMap, cell: Option<Option<Tile>>, now: u64)
    ensures
        redrawn_tile(tile, cell, now) != tile ==> redrawn_tile(tile, cell, now).last_update.value
            - tile.last_update.value > REDRAW_INTERVAL,
        redrawn_tile(tile, cell, now).position == tile.position,
{
}

/// Redrawing the terrain layer again from the same grid assigns the same
/// slots: at the same time it changes nothing at all, and at any other
/// time every tile that the first redraw drew keeps its slot.
pub proof fn lemma_tiles_redraw_again(
    tiles: Seq<TileMap>,
    grid: Seq<Seq<Option<Tile>>>,
    first: u64,
    second: u64,
)
    ensures
        redrawn_tiles(redrawn_tiles(tiles, grid, first), grid, first) == redrawn_tiles(
            tiles,
            grid,
            first,
        ),
        forall|k: int|
            0 <= k < tiles.len() && redraw_due(tiles[k].last_update, first) ==> (
            #[trigger] redrawn_tiles(redrawn_tiles(tiles, grid, first), grid, second)[k]).texture_index
                == redrawn_tiles(tiles, grid, first)[k].texture_index,
{
    let once = redrawn_tiles(tiles, grid, first);
    assert(redrawn_tiles(once, grid, first) =~= once);
}

/// Redrawing the content layer again from the same grid assigns the same
/// slots: at the same time it changes nothing at all, and at any other
/// time every tile that the first redraw drew keeps its slot.
pub proof fn lemma_contents_redraw_again(
    tiles: Seq<ContentMap>,
    grid: Seq<Seq<Option<Tile>>>,
    first: u64,
    second: u64,
)
    ensures
        redrawn_contents(redrawn_contents(tiles, grid, first), grid, first) == redrawn_contents(
            tiles,
            grid,
            first,
        ),
        forall|k: int|
            0 <= k < tiles.len() && redraw_due(tiles[k].last_update, first) ==> (
            #[trigger] redrawn_contents(
                redrawn_contents(tiles, grid, first),
                grid,
                second,
            )[k]).texture_index == redrawn_contents(tiles, grid, first)[k].texture_index,
{
    let once = redrawn_contents(tiles, grid, first);
    assert(redrawn_contents(once, grid, first) =~= once);
}

/// Centres the cameras on the marker.
///
/// Nothing happens unless the position consumer asked for it. Then both
/// cameras are centred on the marker, and the main camera takes its
/// following scale; the overview keeps its scale.
pub fn follow_robot_camera(
    camera: &mut BigBrother,
    minimap: &mut MiniCamera,
    robot: &VisualizerRobot,
    events: &Vec<CameraEvent>,
)
    ensures
        if events@.len() > 0 {
            &&& *final(camera) == (BigBrother {
                x: robot.x,
                y: robot.y,
                scale_tenths: FOLLOW_SCALE_TENTHS,
            })
            &&& *final(minimap) == (MiniCamera { x: robot.x, y: robot.y, ..*old(minimap) })
        } else {
            &&& *final(camera) == *old(camera)
            &&& *final(minimap) == *old(minimap)
        },
{
    if events.len() > 0 {
        camera.x = robot.x;
        camera.y = robot.y;
        camera.scale_tenths = FOLLOW_SCALE_TENTHS;
        minimap.x = robot.x;
        minimap.y = robot.y;
    }
}

/// The notification for a step that ran: completed where it succeeded,
/// failed where it did not.
pub open spec fn notification_of<E>(outcome: Result<(), E>) -> TickEvent {
    if outcome is Ok {
        TickEvent::Completed
    } else {
        TickEvent::Failed
    }
}

/// The notification to send for the outcome of a step.
pub fn notify<E>(outcome: &Result<(), E>) -> (event: TickEvent)
    ensures
        event == notification_of(*outcome),
{
    match outcome {
        Ok(_) => TickEvent::Completed,
        Err(_) => TickEvent::Failed,
    }
}

/// Runs one frame of the host loop: advances the timer by `delta`
/// nanoseconds and, where it admits a step, steps the agent once.
///
/// One notification is returned for each step that ran, and none
/// otherwise. A frame without a step leaves the store as it was, and so
/// does a step that failed.
pub fn run_tick<T: Runnable>(delta: u64, runner: &mut RunnerTag<T>, timer: &mut GameTimer) -> (event:
    Option<TickEvent>)
    ensures
        event is Some <==> old(timer)@.fires(delta as nat),
        final(timer)@ == old(timer)@.ticked(delta as nat),
        old(timer)@.counted(),
        final(timer)@.counted(),
        event is None ==> final(runner).agent() == old(runner).agent() && final(runner).world()
            == old(runner).world(),
        event is Some ==> exists|agent: &mut T, acted_on: &mut T::World, outcome: Result<(), T::Failure>|
            {
                &&& mut_ref_current(agent) == old(runner).agent()
                &&& mut_ref_future(agent) == final(runner).agent()
                &&& mut_ref_current(acted_on) == old(runner).world()
                &&& mut_ref_future(acted_on) == final(runner).world()
                &&& #[trigger] call_ensures(T::process_tick, (agent, acted_on), outcome)
                &&& event == Some(notification_of(outcome))
            },
        event != Some(TickEvent::Completed) ==> final(runner).published() == old(
            runner,
        ).published(),
        event == Some(TickEvent::Completed) ==> step_published(
            old(runner).published(),
            final(runner).agent(),
            final(runner).world(),
            final(runner).published(),
        ),
        final(runner).published().consistent(),
{
    if timer.tick(delta) {
        let outcome = runner.game_tick();
        Some(notify(&outcome))
    } else {
        // Looking at the store tells that it is in order though no step ran.
        let _ = runner.store();
        None
    }
}

/// The launch arguments as runs of characters.
pub open spec fn texts(args: Seq<String>) -> Seq<Seq<char>> {
    Seq::new(args.len(), |i: int| args[i]@)
}

/// The agent that the launch arguments choose. The arguments are, after
/// the program's name: the coins for the saving agent, the path of the
/// world, and the choice, `0` for the saving agent and `1` for the
/// exploring one. The coins are read only where the saving agent is
/// chosen.
pub open spec fn chosen_bot(args: Seq<Seq<char>>) -> Result<BotChoice, SetupError> {
    if args.len() < 4 {
        Err(SetupError::MissingArgument)
    } else if args[3] == seq!['0'] {
        match parsed_unsigned(args[1], usize::MAX as nat) {
            Some(coins) => Ok(BotChoice::SaverBot(coins as usize)),
            None => Err(SetupError::InvalidCoinAmount),
        }
    } else if args[3] == seq!['1'] {
        Ok(BotChoice::MyRobot)
    } else {
        Err(SetupError::UnknownBot)
    }
}

/// Tells whether the text is the one given character.
fn is_single(text: &str, c: char) -> (same: bool)
    ensures
        same == (text@ == seq![c]),
{
    if text.unicode_len() == 1 {
        let first = text.get_char(0);
        assert(first == c ==> text@ =~= seq![c]);
        first == c
    } else {
        false
    }
}

/// Opens the setup window: stops the timer, so that no step can run
/// before the agent and its world exist, and reads from the launch
/// arguments which agent to build and on which world.
///
/// The timer stays stopped until [`finish_prestartup`] is called.
pub fn game_prestartup(timer: &mut GameTimer, args: &Vec<String>) -> (plan: Result<
    LaunchPlan,
    SetupError,
>)
    ensures
        final(timer)@ == (TimerState { paused: true, ..old(timer)@ }),
        old(timer)@.counted(),
        final(timer)@.counted(),
        match plan {
            Ok(plan) => chosen_bot(texts(args@)) == Ok::<BotChoice, SetupError>(plan.bot)
                && plan.world_path == args@[2],
            Err(error) => chosen_bot(texts(args@)) == Err::<BotChoice, SetupError>(error),
        },
{
    timer.pause();
    if args.len() < 4 {
        return Err(SetupError::MissingArgument);
    }
    let ghost given = texts(args@);
    assert(given[1] == args@[1]@ && given[3] == args@[3]@);
    let choice = args[3].as_str();
    let bot = if is_single(choice, '0') {
        match parse_unsigned(args[1].as_str(), usize::MAX as u64) {
            Some(coins) => BotChoice::SaverBot(coins as usize),
            None => {
                return Err(SetupError::InvalidCoinAmount);
            },
        }
    } else if is_single(choice, '1') {
        BotChoice::MyRobot
    } else {
        return Err(SetupError::UnknownBot);
    };
    Ok(LaunchPlan { bot, world_path: args[2].clone() })
}

/// Closes the setup window: runs the first step, so that the scene can
/// be laid out from what it publishes, and starts the timer.
pub fn finish_prestartup<T: Runnable>(runner: &mut RunnerTag<T>, timer: &mut GameTimer) -> (event:
    TickEvent)
    ensures
        final(timer)@ == (TimerState { paused: false, ..old(timer)@ }),
        old(timer)@.counted(),
        final(timer)@.counted(),
        exists|agent: &mut T, acted_on: &mut T::World, outcome: Result<(), T::Failure>|
            {
                &&& mut_ref_current(agent) == old(runner).agent()
                &&& mut_ref_future(agent) == final(runner).agent()
                &&& mut_ref_current(acted_on) == old(runner).world()
                &&& mut_ref_future(acted_on) == final(runner).world()
                &&& #[trigger] call_ensures(T::process_tick, (agent, acted_on), outcome)
                &&& event == notification_of(outcome)
            },
        event == TickEvent::Failed ==> final(runner).published() == old(runner).published(),
        event == TickEvent::Completed ==> step_published(
            old(runner).published(),
            final(runner).agent(),
            final(runner).world(),
            final(runner).published(),
        ),
        final(runner).published().consistent(),
{
    let outcome = runner.game_tick();
    timer.unpause();
    notify(&outcome)
}

/// The direction along one axis: one step forward, one back, or none
/// where both keys or neither are pressed.
pub open spec fn axis(back: bool, forward: bool) -> int {
    (if forward {
        1int
    } else {
        0int
    }) - (if back {
        1int
    } else {
        0int
    })
}

/// The direction along one axis for the two keys that steer it.
fn steer(back: bool, forward: bool) -> (step: i8)
    ensures
        step == axis(back, forward),
{
    if forward && !back {
        1
    } else if back && !forward {
        -1
    } else {
        0
    }
}

/// Reads from the keys how the camera is to move in this frame: `a` and
/// `d` steer left and right, `s` and `w` down and up, and `z` and `x`
/// widen and narrow the view by a tenth.
pub fn camera_movement(keys: &KeyboardInput) -> (motion: CameraMotion)
    ensures
        motion.dx == axis(keys.a, keys.d),
        motion.dy == axis(keys.s, keys.w),
        motion.zoom_tenths == axis(keys.x, keys.z),
{
    CameraMotion {
        dx: steer(keys.a, keys.d),
        dy: steer(keys.s, keys.w),
        zoom_tenths: steer(keys.x, keys.z),
    }
}

} // verus!
