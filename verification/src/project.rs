use vstd::prelude::*;
use crate::atlas::SpriteAtlas;
use crate::error::MapError;

verus! {

/// One tile layer as the external map parser hands it over: rows of gids,
/// row 0 the visually topmost row as authored in the map editor. A gid of 0
/// marks an empty cell; a gid `g >= 1` selects atlas sprite index `g - 1`.
pub struct TileGrid {
    /// The rows of the layer, each a row of gids, left to right.
    pub cells: Vec<Vec<u32>>,
}

impl View for TileGrid {
    type V = Seq<Seq<u32>>;

    open spec fn view(&self) -> Seq<Seq<u32>> {
        self.cells@.map_values(|row: Vec<u32>| row@)
    }
}

/// All rows of the grid have equal length.
pub open spec fn rectangular(g: Seq<Seq<u32>>) -> bool {
    forall|i: int| 0 <= i < g.len() ==> #[trigger] g[i].len() == g[0].len()
}

/// Common row length of the grid; 0 when the grid has no rows.
pub open spec fn grid_width(g: Seq<Seq<u32>>) -> int {
    if g.len() == 0 {
        0
    } else {
        g[0].len() as int
    }
}

/// Every gid of the grid refers to a sprite the atlas holds: a gid `g >= 1`
/// selects index `g - 1`, so each gid must be at most the sprite count, and
/// gid 0 (an empty cell) is always in range.
pub open spec fn gids_in_range(g: Seq<Seq<u32>>, sprite_count: int) -> bool {
    forall|i: int, j: int|
        0 <= i < g.len() && 0 <= j < g[i].len() ==> #[trigger] g[i][j] <= sprite_count
}

impl TileGrid {
    /// Whether all rows have equal length.
    pub fn is_rectangular(&self) -> (b: bool)
        ensures
            b == rectangular(self@),
    {
        if self.cells.len() == 0 {
            return true;
        }
        let width = self.cells[0].len();
        let mut i: usize = 1;
        while i < self.cells.len()
            invariant
                self@.len() == self.cells@.len(),
                1 <= i <= self@.len(),
                width == self@[0].len(),
                forall|j: int| 0 <= j < i ==> #[trigger] self@[j].len() == self@[0].len(),
            decreases self@.len() - i,
        {
            if self.cells[i].len() != width {
                proof {
                    assert(self@[i as int].len() != self@[0].len());
                }
                return false;
            }
            i = i + 1;
        }
        true
    }

    /// Whether every gid of the grid is at most `sprite_count`, so that every
    /// occupied cell refers to a sprite the atlas holds.
    pub fn gids_within(&self, sprite_count: usize) -> (b: bool)
        ensures
            b == gids_in_range(self@, sprite_count as int),
    {
        let n = self.cells.len();
        let mut i: usize = 0;
        while i < n
            invariant
                n == self@.len(),
                i <= n,
                forall|r: int, c: int|
                    0 <= r < i && 0 <= c < self@[r].len() ==> #[trigger] self@[r][c]
                        <= sprite_count,
            decreases n - i,
        {
            let row = &self.cells[i];
            let width = row.len();
            let mut j: usize = 0;
            while j < width
                invariant
                    n == self@.len(),
                    i < n,
                    width == self@[i as int].len(),
                    row@ == self@[i as int],
                    j <= width,
                    forall|r: int, c: int|
                        0 <= r < i && 0 <= c < self@[r].len() ==> #[trigger] self@[r][c]
                            <= sprite_count,
                    forall|c: int|
                        0 <= c < j ==> #[trigger] self@[i as int][c] <= sprite_count,
                decreases width - j,
            {
                if (row[j] as u64) > (sprite_count as u64) {
                    return false;
                }
                j = j + 1;
            }
            i = i + 1;
        }
        true
    }
}

/// The vertical convention of the target renderer, selected once for a whole
/// projection run and never mixed within one.
#[derive(Clone, Copy, Debug, PartialEq, Eq, Structural)]
pub enum YConvention {
    /// Bottom-left origin, y growing upward: grid rows are inverted against
    /// the viewport height, so higher row indices sit lower on screen.
    UpwardY,
    /// Top-left origin, y growing downward: rows map straight through, with
    /// no inversion and no dependency on the viewport size.
    DownwardY,
}

/// Everything the projector needs besides the grid and the atlas: the tile
/// pixel size, the vertical convention with the viewport height it may need,
/// a pivot offset added to every position, and the constant depth layer.
#[derive(Clone, Copy, Debug, PartialEq, Eq, Structural)]
pub struct ProjectionConfig {
    /// Vertical convention of the target renderer.
    pub convention: YConvention,
    /// Pixel width of one tile.
    pub tile_width: u32,
    /// Pixel height of one tile.
    pub tile_height: u32,
    /// Current height of the render target; read only under `UpwardY`.
    pub viewport_height: u32,
    /// Horizontal pivot offset added to every world position.
    pub pivot_x: i64,
    /// Vertical pivot offset added to every world position.
    pub pivot_y: i64,
    /// Constant depth of every record, used for draw-order layering only.
    pub depth: i64,
}

/// One entity-creation request: which sprite to draw and where. Transient
/// output, one per occupied cell, in row-major grid order.
#[derive(Clone, Copy, Debug, PartialEq, Eq, Structural)]
pub struct PlacementRecord {
    /// Index into the atlas's sprite sequence.
    pub sprite_index: usize,
    /// World x position.
    pub x: i64,
    /// World y position.
    pub y: i64,
    /// World depth.
    pub z: i64,
}

/// World x position of a cell in column `col`.
pub open spec fn cell_x(cfg: ProjectionConfig, col: int) -> int {
    cfg.pivot_x + col * cfg.tile_width
}

/// World y position of a cell in row `row`: under the upward-y convention the
/// row is inverted against the viewport height, so that row 0, the topmost
/// authored row, lands highest on screen; under the downward-y convention
/// rows increase downward unchanged.
pub open spec fn cell_y(cfg: ProjectionConfig, row: int) -> int {
    match cfg.convention {
        YConvention::UpwardY => cfg.pivot_y + cfg.viewport_height - row * cfg.tile_height,
        YConvention::DownwardY => cfg.pivot_y + row * cfg.tile_height,
    }
}

/// The placement record of the occupied cell at `(row, col)` holding `gid`.
pub open spec fn record_at(cfg: ProjectionConfig, row: int, col: int, gid: u32) -> PlacementRecord {
    PlacementRecord {
        sprite_index: (gid - 1) as usize,
        x: cell_x(cfg, col) as i64,
        y: cell_y(cfg, row) as i64,
        z: cfg.depth,
    }
}

/// Records of the first `upto` cells of one row: empty cells contribute
/// nothing, every occupied cell exactly one record, columns ascending.
pub open spec fn row_records(
    cfg: ProjectionConfig,
    row: int,
    cells: Seq<u32>,
    upto: int,
) -> Seq<PlacementRecord>
    decreases upto,
{
    if upto <= 0 {
        Seq::empty()
    } else {
        let prev = row_records(cfg, row, cells, upto - 1);
        if cells[upto - 1] == 0 {
            prev
        } else {
            prev.push(record_at(cfg, row, upto - 1, cells[upto - 1]))
        }
    }
}

/// Records of the first `upto` rows of the grid, rows in order.
pub open spec fn grid_records(
    cfg: ProjectionConfig,
    g: Seq<Seq<u32>>,
    upto: int,
) -> Seq<PlacementRecord>
    decreases upto,
{
    if upto <= 0 {
        Seq::empty()
    } else {
        grid_records(cfg, g, upto - 1) + row_records(
            cfg,
            upto - 1,
            g[upto - 1],
            g[upto - 1].len() as int,
        )
    }
}

/// All placement records of a layer: one per occupied cell, none for empty
/// cells, in row-major order of the grid.
pub open spec fn projected_records(cfg: ProjectionConfig, g: Seq<Seq<u32>>) -> Seq<PlacementRecord> {
    grid_records(cfg, g, g.len() as int)
}

/// Projects one tile layer into placement records under the given convention.
///
/// The grid is rejected whole before any record is produced: a ragged grid
/// fails with `RaggedGrid`, and a gid referring past the atlas's sprites with
/// `SpriteIndexOutOfRange` — each exactly when its condition holds, raggedness
/// checked first, so a bad layer is never partially projected. The
/// preconditions only demand that every cell's world position fits the result
/// type.
pub fn project_layer(grid: &TileGrid, atlas: &SpriteAtlas, cfg: &ProjectionConfig) -> (r: Result<
    Vec<PlacementRecord>,
    MapError,
>)
    requires
        forall|c: int|
            0 <= c < grid_width(grid@) ==> i64::MIN <= #[trigger] cell_x(*cfg, c) <= i64::MAX,
        forall|rw: int|
            0 <= rw < grid@.len() ==> i64::MIN <= #[trigger] cell_y(*cfg, rw) <= i64::MAX,
    ensures
        r is Ok <==> (rectangular(grid@) && gids_in_range(grid@, atlas.sprites@.len() as int)),
        (r == Err::<Vec<PlacementRecord>, MapError>(MapError::RaggedGrid)) <==> !rectangular(
            grid@,
        ),
        (r == Err::<Vec<PlacementRecord>, MapError>(MapError::SpriteIndexOutOfRange)) <==> (
        rectangular(grid@) && !gids_in_range(grid@, atlas.sprites@.len() as int)),
        r is Ok ==> (r->Ok_0)@ == projected_records(*cfg, grid@),
{
    if !grid.is_rectangular() {
        return Err(MapError::RaggedGrid);
    }
    if !grid.gids_within(atlas.sprite_count()) {
        return Err(MapError::SpriteIndexOutOfRange);
    }
    let n = grid.cells.len();
    let mut out: Vec<PlacementRecord> = Vec::new();
    let mut r: usize = 0;
    while r < n
        invariant
            rectangular(grid@),
            n == grid@.len(),
            r <= n,
            forall|c: int|
                0 <= c < grid_width(grid@) ==> i64::MIN <= #[trigger] cell_x(*cfg, c) <= i64::MAX,
            forall|rw: int|
                0 <= rw < grid@.len() ==> i64::MIN <= #[trigger] cell_y(*cfg, rw) <= i64::MAX,
            out@ == grid_records(*cfg, grid@, r as int),
        decreases n - r,
    {
        let row_cells = &grid.cells[r];
        let width = row_cells.len();
        let mut c: usize = 0;
        while c < width
            invariant
                rectangular(grid@),
                n == grid@.len(),
                r < n,
                row_cells@ == grid@[r as int],
                width == grid@[r as int].len(),
                c <= width,
                forall|ci: int|
                    0 <= ci < grid_width(grid@) ==> i64::MIN <= #[trigger] cell_x(*cfg, ci)
                        <= i64::MAX,
                forall|rw: int|
                    0 <= rw < grid@.len() ==> i64::MIN <= #[trigger] cell_y(*cfg, rw) <= i64::MAX,
                out@ == grid_records(*cfg, grid@, r as int) + row_records(
                    *cfg,
                    r as int,
                    grid@[r as int],
                    c as int,
                ),
            decreases width - c,
        {
            let gid = row_cells[c];
            if gid != 0 {
                proof {
                    assert(grid@[r as int].len() == grid@[0].len());
                    assert(0 <= c < grid_width(grid@));
                    assert((c as int) * (cfg.tile_width as int) <= 0xffff_ffff_ffff_ffff
                        * 0xffff_ffff) by (nonlinear_arith)
                        requires
                            0 <= c <= 0xffff_ffff_ffff_ffff,
                            0 <= cfg.tile_width <= 0xffff_ffff,
                    ;
                    assert((r as int) * (cfg.tile_height as int) <= 0xffff_ffff_ffff_ffff
                        * 0xffff_ffff) by (nonlinear_arith)
                        requires
                            0 <= r <= 0xffff_ffff_ffff_ffff,
                            0 <= cfg.tile_height <= 0xffff_ffff,
                    ;
                }
                let xi: i128 = (cfg.pivot_x as i128) + (c as i128) * (cfg.tile_width as i128);
                let yi: i128 = match cfg.convention {
                    YConvention::UpwardY => (cfg.pivot_y as i128) + (cfg.viewport_height as i128)
                        - (r as i128) * (cfg.tile_height as i128),
                    YConvention::DownwardY => (cfg.pivot_y as i128) + (r as i128) * (
                    cfg.tile_height as i128),
                };
                proof {
                    assert(xi == cell_x(*cfg, c as int));
                    assert(yi == cell_y(*cfg, r as int));
                }
                let rec = PlacementRecord {
                    sprite_index: (gid - 1) as usize,
                    x: xi as i64,
                    y: yi as i64,
                    z: cfg.depth,
                };
                proof {
                    assert(rec == record_at(*cfg, r as int, c as int, gid));
                }
                out.push(rec);
            }
            c = c + 1;
        }
        r = r + 1;
    }
    Ok(out)
}

/// Projection is deterministic: for a fixed grid and a fixed configuration,
/// the record sequence is fully determined — the same gid at the same cell
/// always yields the same sprite index and world position.
pub proof fn lemma_projection_deterministic(
    cfg: ProjectionConfig,
    g: Seq<Seq<u32>>,
    first: Seq<PlacementRecord>,
    second: Seq<PlacementRecord>,
)
    requires
        first == projected_records(cfg, g),
        second == projected_records(cfg, g),
    ensures
        first == second,
{
}

/// Number of occupied cells among the first `upto` cells of one row.
pub open spec fn occupied_in_row(cells: Seq<u32>, upto: int) -> int
    decreases upto,
{
    if upto <= 0 {
        0
    } else {
        occupied_in_row(cells, upto - 1) + if cells[upto - 1] == 0 {
            0int
        } else {
            1int
        }
    }
}

/// Number of occupied cells among the first `upto` rows of the grid.
pub open spec fn occupied_in_grid(g: Seq<Seq<u32>>, upto: int) -> int
    decreases upto,
{
    if upto <= 0 {
        0
    } else {
        occupied_in_grid(g, upto - 1) + occupied_in_row(g[upto - 1], g[upto - 1].len() as int)
    }
}

proof fn lemma_row_records_len(cfg: ProjectionConfig, row: int, cells: Seq<u32>, upto: int)
    ensures
        row_records(cfg, row, cells, upto).len() == occupied_in_row(cells, upto),
    decreases upto,
{
    if upto > 0 {
        lemma_row_records_len(cfg, row, cells, upto - 1);
    }
}

/// Empty cells are skipped and nothing else is: a layer produces exactly one
/// placement record per occupied cell.
pub proof fn lemma_one_record_per_occupied_cell(cfg: ProjectionConfig, g: Seq<Seq<u32>>)
    ensures
        projected_records(cfg, g).len() == occupied_in_grid(g, g.len() as int),
{
    lemma_grid_records_len(cfg, g, g.len() as int);
}

proof fn lemma_grid_records_len(cfg: ProjectionConfig, g: Seq<Seq<u32>>, upto: int)
    ensures
        grid_records(cfg, g, upto).len() == occupied_in_grid(g, upto),
    decreases upto,
{
    if upto > 0 {
        lemma_grid_records_len(cfg, g, upto - 1);
        lemma_row_records_len(cfg, upto - 1, g[upto - 1], g[upto - 1].len() as int);
    }
}

} // verus!
