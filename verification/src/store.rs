//! The snapshot store: the latest grid, position, environmental reading
//! and energy level that a completed step has published.
//!
//! Each of the four is published and read on its own. A field that was
//! never published reads as absent.

use vstd::prelude::*;
use crate::tile::Tile;

verus! {

/// The cell the agent stands on.
#[derive(Clone, Copy, Debug, PartialEq, Eq, Structural)]
pub struct PositionSnapshot {
    pub row: usize,
    pub col: usize,
}

/// The weather the world reports.
#[derive(Clone, Copy, Debug, PartialEq, Eq, Structural)]
pub enum WeatherType {
    Sunny,
    Rainy,
    Foggy,
    TropicalMonsoon,
    TrentinoSnow,
}

/// What the world reports of the sky: the time of day, written as hours
/// and minutes with a colon between them, and the weather.
#[derive(Debug)]
pub struct EnvironmentalSnapshot {
    pub time_of_day: String,
    pub weather: WeatherType,
}

impl Clone for EnvironmentalSnapshot {
    fn clone(&self) -> (copy: EnvironmentalSnapshot)
        ensures
            copy == *self,
    {
        EnvironmentalSnapshot { time_of_day: self.time_of_day.clone(), weather: self.weather }
    }
}

/// Why a publish was turned down. The store is then left as it was.
#[derive(Clone, Copy, Debug, PartialEq, Eq, Structural)]
pub enum PublishError {
    /// The grid has other dimensions than the one published first.
    DimensionsChanged,
    /// The position does not lie on the grid.
    PositionOutsideGrid,
}

/// Whether all rows have the same length.
pub open spec fn rectangular<T>(rows: Seq<Seq<T>>) -> bool {
    forall|i: int, j: int|
        0 <= i < rows.len() && 0 <= j < rows.len() ==> (#[trigger] rows[i]).len()
            == (#[trigger] rows[j]).len()
}

/// The length of the rows of a rectangular grid; 0 where it has no row.
pub open spec fn row_length<T>(rows: Seq<Seq<T>>) -> nat {
    if rows.len() == 0 {
        0
    } else {
        rows[0].len()
    }
}

/// Whether the grid has at least one cell.
pub open spec fn has_cells<T>(rows: Seq<Seq<T>>) -> bool {
    rows.len() > 0 && row_length(rows) > 0
}

/// Whether two grids have as many rows and as long rows as each other.
pub open spec fn same_dimensions<T>(a: Seq<Seq<T>>, b: Seq<Seq<T>>) -> bool {
    a.len() == b.len() && row_length(a) == row_length(b)
}

/// Whether the position names a cell of the grid.
pub open spec fn within<T>(rows: Seq<Seq<T>>, position: PositionSnapshot) -> bool {
    position.row < rows.len() && position.col < row_length(rows)
}

/// The rows of a grid laid end to end, first row first.
pub open spec fn row_major<T>(rows: Seq<Seq<T>>) -> Seq<T>
    decreases rows.len(),
{
    if rows.len() == 0 {
        Seq::empty()
    } else {
        row_major(rows.drop_last()) + rows.last()
    }
}

/// In row-major order a rectangular grid has as many cells as its height
/// times its row length, and the cell of a row and a column stands at the
/// row times the row length plus the column.
pub proof fn lemma_row_major_index<T>(rows: Seq<Seq<T>>, row: int, col: int)
    requires
        rectangular(rows),
        0 <= row < rows.len(),
        0 <= col < row_length(rows),
    ensures
        row_major(rows).len() == rows.len() * row_length(rows),
        0 <= row * row_length(rows) + col < row_major(rows).len(),
        row_major(rows)[row * row_length(rows) + col] == rows[row][col],
    decreases rows.len(),
{
    let width = row_length(rows) as int;
    let above = rows.drop_last();
    let height = rows.len() as int;
    lemma_row_major_len(rows);
    lemma_row_major_len(above);
    assert(rows.last().len() == width);
    assert(rectangular(above));
    if height > 1 {
        assert(above[0] == rows[0]);
    }
    assert(row_major(above).len() == (height - 1) * width) by (nonlinear_arith)
        requires
            row_major(above).len() == above.len() * row_length(above),
            above.len() == height - 1,
            height > 1 ==> row_length(above) == width,
            height == 1 ==> above.len() == 0,
    ;
    assert(row * width + col < height * width) by (nonlinear_arith)
        requires
            0 <= row < height,
            0 <= col < width,
    ;
    assert(0 <= row * width + col) by (nonlinear_arith)
        requires
            0 <= row,
            0 <= col,
            0 <= width,
    ;
    if row == height - 1 {
        assert(row_major(rows)[row * width + col] == rows.last()[col]);
    } else {
        lemma_row_major_index(above, row, col);
        assert(row * width + col < (height - 1) * width) by (nonlinear_arith)
            requires
                0 <= row < height - 1,
                0 <= col < width,
        ;
        assert(above[row] == rows[row]);
    }
}

/// In row-major order a rectangular grid has as many cells as its height
/// times its row length.
pub proof fn lemma_row_major_len<T>(rows: Seq<Seq<T>>)
    requires
        rectangular(rows),
    ensures
        row_major(rows).len() == rows.len() * row_length(rows),
    decreases rows.len(),
{
    if rows.len() > 0 {
        let above = rows.drop_last();
        let width = row_length(rows) as int;
        let height = rows.len() as int;
        assert(rectangular(above));
        lemma_row_major_len(above);
        assert(rows.last().len() == width);
        if height > 1 {
            assert(above[0] == rows[0]);
        }
        assert(above.len() * row_length(above) + width == height * width) by (nonlinear_arith)
            requires
                above.len() == height - 1,
                height > 1 ==> row_length(above) == width,
                height == 1 ==> above.len() == 0,
        ;
    } else {
        assert(rows.len() * row_length(rows) == 0) by (nonlinear_arith)
            requires
                rows.len() == 0,
        ;
    }
}

/// The rows held by a vector of vectors.
pub open spec fn rows_of<T>(rows: Seq<Vec<T>>) -> Seq<Seq<T>> {
    Seq::new(rows.len(), |i: int| rows[i]@)
}

/// A rectangular grid of cells, each of which may be unknown.
#[derive(Debug)]
pub struct GridSnapshot {
    rows: Vec<Vec<Option<Tile>>>,
}

impl View for GridSnapshot {
    type V = Seq<Seq<Option<Tile>>>;

    closed spec fn view(&self) -> Seq<Seq<Option<Tile>>> {
        rows_of(self.rows@)
    }
}

impl GridSnapshot {
    #[verifier::type_invariant]
    spec fn well_formed(&self) -> bool {
        rectangular(self@)
    }

    /// Takes the rows as a grid where they all have one length; a ragged
    /// set of rows is no grid.
    pub fn new(rows: Vec<Vec<Option<Tile>>>) -> (grid: Option<GridSnapshot>)
        ensures
            grid is Some <==> rectangular(rows_of(rows@)),
            grid matches Some(g) ==> g@ == rows_of(rows@),
    {
        let ghost cells = rows_of(rows@);
        let mut i: usize = 1;
        while i < rows.len()
            invariant
                1 <= i,
                cells == rows_of(rows@),
                forall|k: int| 0 <= k < i && k < rows.len() ==> (#[trigger] cells[k]).len()
                    == cells[0].len(),
            decreases rows.len() - i,
        {
            if rows[i].len() != rows[0].len() {
                assert(cells[i as int].len() != cells[0].len());
                return None;
            }
            i += 1;
        }
        Some(GridSnapshot { rows })
    }

    /// The number of rows.
    pub fn height(&self) -> (height: usize)
        ensures
            height == self@.len(),
    {
        self.rows.len()
    }

    /// The length of each row; 0 where there is no row.
    pub fn width(&self) -> (width: usize)
        ensures
            width == row_length(self@),
    {
        if self.rows.len() == 0 {
            0
        } else {
            self.rows[0].len()
        }
    }

    /// The cell at the given row and column, where the grid has one there.
    pub fn cell(&self, row: usize, col: usize) -> (cell: Option<Option<Tile>>)
        ensures
            rectangular(self@),
            cell == if row < self@.len() && col < row_length(self@) {
                Some(self@[row as int][col as int])
            } else {
                None
            },
    {
        proof {
            use_type_invariant(self);
        }
        if row < self.rows.len() && col < self.rows[0].len() {
            assert(self@[row as int].len() == self@[0].len());
            Some(self.rows[row][col])
        } else {
            None
        }
    }

    /// The cells in row-major order.
    pub fn flatten(&self) -> (cells: Vec<Option<Tile>>)
        ensures
            rectangular(self@),
            cells@ == row_major(self@),
    {
        proof {
            use_type_invariant(self);
        }
        let mut cells: Vec<Option<Tile>> = Vec::new();
        let mut r: usize = 0;
        while r < self.rows.len()
            invariant
                r <= self.rows.len(),
                cells@ == row_major(self@.take(r as int)),
            decreases self.rows.len() - r,
        {
            let row = &self.rows[r];
            let ghost before = cells@;
            let mut c: usize = 0;
            while c < row.len()
                invariant
                    c <= row.len(),
                    cells@ == before + row@.take(c as int),
                decreases row.len() - c,
            {
                cells.push(row[c]);
                proof {
                    assert(row@.take(c + 1) == row@.take(c as int).push(row@[c as int]));
                }
                c += 1;
            }
            proof {
                assert(row@.take(row.len() as int) == row@);
                let next = self@.take(r + 1);
                assert(next.drop_last() == self@.take(r as int));
                assert(next.last() == row@);
            }
            r += 1;
        }
        proof {
            assert(self@.take(self.rows.len() as int) == self@);
        }
        cells
    }
}

impl Clone for GridSnapshot {
    fn clone(&self) -> (copy: GridSnapshot)
        ensures
            copy@ == self@,
    {
        proof {
            use_type_invariant(self);
        }
        let mut rows: Vec<Vec<Option<Tile>>> = Vec::new();
        let mut r: usize = 0;
        while r < self.rows.len()
            invariant
                r <= self.rows.len(),
                rows@.len() == r,
                forall|k: int| 0 <= k < r ==> (#[trigger] rows@[k])@ == self.rows@[k]@,
            decreases self.rows.len() - r,
        {
            let source = &self.rows[r];
            let mut row: Vec<Option<Tile>> = Vec::new();
            let mut c: usize = 0;
            while c < source.len()
                invariant
                    c <= source.len(),
                    row@ == source@.take(c as int),
                decreases source.len() - c,
            {
                row.push(source[c]);
                proof {
                    assert(source@.take(c + 1) == source@.take(c as int).push(source@[c as int]));
                }
                c += 1;
            }
            proof {
                assert(source@.take(source.len() as int) == source@);
            }
            rows.push(row);
            r += 1;
        }
        proof {
            assert(rows_of(rows@) =~= self@);
        }
        GridSnapshot { rows }
    }
}

/// The abstract state of a [`SnapshotStore`]: each field as it was last
/// published, or absent.
pub struct StoreState {
    pub grid: Option<Seq<Seq<Option<Tile>>>>,
    pub position: Option<PositionSnapshot>,
    pub environment: Option<EnvironmentalSnapshot>,
    pub energy: Option<usize>,
}

impl StoreState {
    /// What holds of the store at all times: its grid is rectangular, and
    /// once the grid has cells the position names one of them.
    pub open spec fn consistent(self) -> bool {
        &&& self.grid is Some ==> rectangular(self.grid->0)
        &&& self.grid is Some && has_cells(self.grid->0) && self.position is Some ==> within(
            self.grid->0,
            self.position->0,
        )
    }

    /// Whether a grid may replace the one held: it keeps the dimensions
    /// of the grid published first.
    pub open spec fn keeps_dimensions(self, rows: Seq<Seq<Option<Tile>>>) -> bool {
        self.grid is Some ==> same_dimensions(self.grid->0, rows)
    }

    /// Whether a position fits the grid held: where the grid has cells,
    /// the position names one.
    pub open spec fn admits_position(self, position: PositionSnapshot) -> bool {
        self.grid is Some && has_cells(self.grid->0) ==> within(self.grid->0, position)
    }

    /// Whether a grid fits the position held: where the grid has cells
    /// and a position was published, the position names one of them.
    pub open spec fn admits_grid(self, rows: Seq<Seq<Option<Tile>>>) -> bool {
        has_cells(rows) && self.position is Some ==> within(rows, self.position->0)
    }

    /// What publishing a grid answers.
    pub open spec fn grid_verdict(self, rows: Seq<Seq<Option<Tile>>>) -> Result<
        (),
        PublishError,
    > {
        if !self.keeps_dimensions(rows) {
            Err(PublishError::DimensionsChanged)
        } else if !self.admits_grid(rows) {
            Err(PublishError::PositionOutsideGrid)
        } else {
            Ok(())
        }
    }

    /// The store after a grid was offered to it.
    pub open spec fn with_grid(self, rows: Seq<Seq<Option<Tile>>>) -> StoreState {
        if self.grid_verdict(rows) is Ok {
            StoreState { grid: Some(rows), ..self }
        } else {
            self
        }
    }

    /// What publishing a position answers.
    pub open spec fn position_verdict(self, position: PositionSnapshot) -> Result<
        (),
        PublishError,
    > {
        if self.admits_position(position) {
            Ok(())
        } else {
            Err(PublishError::PositionOutsideGrid)
        }
    }

    /// The store after a position was offered to it.
    pub open spec fn with_position(self, position: PositionSnapshot) -> StoreState {
        if self.admits_position(position) {
            StoreState { position: Some(position), ..self }
        } else {
            self
        }
    }

    /// The store after an environmental reading was published.
    pub open spec fn with_environment(self, reading: EnvironmentalSnapshot) -> StoreState {
        StoreState { environment: Some(reading), ..self }
    }

    /// The store after an energy level was published.
    pub open spec fn with_energy(self, level: usize) -> StoreState {
        StoreState { energy: Some(level), ..self }
    }
}

/// Holds the most recent value of each published field.
#[derive(Debug)]
pub struct SnapshotStore {
    grid: Option<GridSnapshot>,
    position: Option<PositionSnapshot>,
    environment: Option<EnvironmentalSnapshot>,
    energy: Option<usize>,
}

impl View for SnapshotStore {
    type V = StoreState;

    closed spec fn view(&self) -> StoreState {
        StoreState {
            grid: match self.grid {
                Some(grid) => Some(grid@),
                None => None,
            },
            position: self.position,
            environment: self.environment,
            energy: self.energy,
        }
    }
}

impl Clone for SnapshotStore {
    fn clone(&self) -> (copy: SnapshotStore)
        ensures
            copy@ == self@,
    {
        proof {
            use_type_invariant(self);
        }
        let grid = match &self.grid {
            Some(grid) => Some(grid.clone()),
            None => None,
        };
        let environment = match &self.environment {
            Some(reading) => Some(reading.clone()),
            None => None,
        };
        SnapshotStore { grid, position: self.position, environment, energy: self.energy }
    }
}

impl SnapshotStore {
    /// Holds of every store: what it holds is consistent.
    #[verifier::type_invariant]
    pub open spec fn well_formed(&self) -> bool {
        self@.consistent()
    }

    /// A store to which nothing has been published.
    pub fn new() -> (store: SnapshotStore)
        ensures
            store@ == (StoreState { grid: None, position: None, environment: None, energy: None }),
    {
        SnapshotStore { grid: None, position: None, environment: None, energy: None }
    }

    /// Replaces the grid, unless it has other dimensions than the grid
    /// published first or leaves the published position outside.
    pub fn publish_grid(&mut self, grid: GridSnapshot) -> (verdict: Result<(), PublishError>)
        ensures
            verdict == old(self)@.grid_verdict(grid@),
            final(self)@ == old(self)@.with_grid(grid@),
            final(self)@.consistent(),
    {
        proof {
            use_type_invariant(&*self);
            use_type_invariant(&grid);
        }
        let height = grid.height();
        let width = grid.width();
        if let Some(held) = &self.grid {
            if held.height() != height || held.width() != width {
                return Err(PublishError::DimensionsChanged);
            }
        }
        if let Some(position) = self.position {
            if height > 0 && width > 0 && !(position.row < height && position.col < width) {
                return Err(PublishError::PositionOutsideGrid);
            }
        }
        self.grid = Some(grid);
        Ok(())
    }

    /// Replaces the position, unless the grid has cells and the position
    /// names none of them.
    pub fn publish_position(&mut self, position: PositionSnapshot) -> (verdict: Result<
        (),
        PublishError,
    >)
        ensures
            verdict == old(self)@.position_verdict(position),
            final(self)@ == old(self)@.with_position(position),
            final(self)@.consistent(),
    {
        proof {
            use_type_invariant(&*self);
        }
        if let Some(grid) = &self.grid {
            let height = grid.height();
            let width = grid.width();
            if height > 0 && width > 0 && !(position.row < height && position.col < width) {
                return Err(PublishError::PositionOutsideGrid);
            }
        }
        self.position = Some(position);
        Ok(())
    }

    /// Replaces the environmental reading.
    pub fn publish_environment(&mut self, reading: EnvironmentalSnapshot)
        ensures
            final(self)@ == old(self)@.with_environment(reading),
            final(self)@.consistent(),
    {
        proof {
            use_type_invariant(&*self);
        }
        self.environment = Some(reading);
    }

    /// Replaces the energy level.
    pub fn publish_energy(&mut self, level: usize)
        ensures
            final(self)@ == old(self)@.with_energy(level),
            final(self)@.consistent(),
    {
        proof {
            use_type_invariant(&*self);
        }
        self.energy = Some(level);
    }

    /// The grid last published, if any. It is rectangular.
    pub fn read_grid(&self) -> (grid: Option<&GridSnapshot>)
        ensures
            self@.consistent(),
            match grid {
                Some(g) => self@.grid == Some(g@) && rectangular(g@),
                None => self@.grid is None,
            },
    {
        proof {
            use_type_invariant(self);
        }
        self.grid.as_ref()
    }

    /// The position last published, if any. Where the grid has cells it
    /// names one of them.
    pub fn read_position(&self) -> (position: Option<PositionSnapshot>)
        ensures
            self@.consistent(),
            position == self@.position,
    {
        proof {
            use_type_invariant(self);
        }
        self.position
    }

    /// The environmental reading last published, if any.
    pub fn read_environment(&self) -> (reading: Option<&EnvironmentalSnapshot>)
        ensures
            self@.consistent(),
            match reading {
                Some(r) => self@.environment == Some(*r),
                None => self@.environment is None,
            },
    {
        proof {
            use_type_invariant(self);
        }
        self.environment.as_ref()
    }

    /// The energy level last published, if any.
    pub fn read_energy(&self) -> (level: Option<usize>)
        ensures
            self@.consistent(),
            level == self@.energy,
    {
        proof {
            use_type_invariant(self);
        }
        self.energy
    }
}

} // verus!
