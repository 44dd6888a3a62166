use vstd::prelude::*;
use vstd::arithmetic::div_mod::{
    lemma_fundamental_div_mod, lemma_mod_division_less_than_divisor, lemma_multiply_divide_lt,
};
use crate::error::MapError;
use crate::geometry::{rect_in_image, PixelRect};

verus! {

/// Pixel metadata of one tileset, read once from the parsed map document.
#[derive(Clone, Copy, Debug, PartialEq, Eq, Structural)]
pub struct TilesetDescriptor {
    /// Pixel width of one tile.
    pub tile_width: u32,
    /// Pixel height of one tile.
    pub tile_height: u32,
    /// Pixel width of the full tileset image.
    pub image_width: u32,
    /// Pixel height of the full tileset image.
    pub image_height: u32,
}

impl TilesetDescriptor {
    /// The image packs a whole number of tile columns and rows: tile sizes are
    /// positive and divide the image dimensions exactly.
    pub open spec fn spec_valid(self) -> bool {
        &&& self.tile_width > 0
        &&& self.tile_height > 0
        &&& self.image_width > 0
        &&& self.image_height > 0
        &&& self.image_width as int % self.tile_width as int == 0
        &&& self.image_height as int % self.tile_height as int == 0
    }

    /// Number of tile columns the image packs.
    pub open spec fn spec_columns(self) -> int {
        self.image_width as int / self.tile_width as int
    }

    /// Number of tile rows the image packs.
    pub open spec fn spec_rows(self) -> int {
        self.image_height as int / self.tile_height as int
    }

    /// Number of tile positions in the image, which is the number of sprites
    /// the atlas built from it holds.
    pub open spec fn sprite_count(self) -> int {
        self.spec_rows() * self.spec_columns()
    }

    /// Whether the descriptor satisfies the tileset invariant.
    pub fn valid(&self) -> (b: bool)
        ensures
            b == self.spec_valid(),
    {
        self.tile_width > 0 && self.tile_height > 0 && self.image_width > 0
            && self.image_height > 0 && self.image_width % self.tile_width == 0
            && self.image_height % self.tile_height == 0
    }

    /// Number of tile columns.
    pub fn columns(&self) -> (c: u32)
        requires
            self.spec_valid(),
        ensures
            c as int == self.spec_columns(),
    {
        self.image_width / self.tile_width
    }

    /// Number of tile rows.
    pub fn rows(&self) -> (r: u32)
        requires
            self.spec_valid(),
        ensures
            r as int == self.spec_rows(),
    {
        self.image_height / self.tile_height
    }
}

/// The order in which tile positions of the image are scanned into the atlas.
/// Both orders are row-major with columns ascending; they differ in which row
/// comes first. The choice must match the vertical axis of the renderer the
/// atlas is built for: a top-to-bottom axis reads the image in storage order,
/// while a bottom-to-top normalized texture axis needs the rows reversed, or
/// the atlas comes out vertically mirrored and row-shuffled.
#[derive(Clone, Copy, Debug, PartialEq, Eq, Structural)]
pub enum ScanOrder {
    /// Image rows are scanned top to bottom, matching image storage order.
    TopRowFirst,
    /// Image rows are scanned bottom to top, inverting image storage order.
    BottomRowFirst,
}

/// One sliced sprite: its pixel rectangle within the tileset image and the
/// pivot offset applied when it is drawn. Its identity is its index in the
/// atlas's sprite sequence.
#[derive(Clone, Copy, Debug, PartialEq, Eq, Structural)]
pub struct SpriteDefinition {
    /// Sub-rectangle of the tileset image that the sprite shows.
    pub rect: PixelRect,
    /// Horizontal pivot offset in pixels, applied at draw time.
    pub pivot_x: i32,
    /// Vertical pivot offset in pixels, applied at draw time.
    pub pivot_y: i32,
}

/// The sliced sprite atlas: an opaque handle for the shared source texture,
/// as the external asset loader issued it, and the ordered sprite sequence.
/// Never mutated after construction.
pub struct SpriteAtlas {
    /// Opaque texture handle issued by the external asset loader.
    pub texture: u64,
    /// Sprite definitions in scan order; a gid `g >= 1` selects index `g - 1`.
    pub sprites: Vec<SpriteDefinition>,
}

impl SpriteAtlas {
    /// Number of sprites the atlas holds.
    pub fn sprite_count(&self) -> (n: usize)
        ensures
            n == self.sprites@.len(),
    {
        self.sprites.len()
    }
}

/// The image row that the scan visits in grid step `grid_row`: the row itself
/// under the top-row-first order, its mirror under bottom-row-first.
pub open spec fn image_row(ts: TilesetDescriptor, order: ScanOrder, grid_row: int) -> int {
    match order {
        ScanOrder::TopRowFirst => grid_row,
        ScanOrder::BottomRowFirst => ts.spec_rows() - 1 - grid_row,
    }
}

/// The sprite that atlas index `i` holds: the scan is row-major with columns
/// ascending, so index `i` covers column `i % columns` of the image row that
/// the scan visits in step `i / columns`, and its pixel offsets are that
/// position times the tile size.
pub open spec fn sprite_at(
    ts: TilesetDescriptor,
    order: ScanOrder,
    pivot_x: i32,
    pivot_y: i32,
    i: int,
) -> SpriteDefinition {
    let col = i % ts.spec_columns();
    let row = image_row(ts, order, i / ts.spec_columns());
    SpriteDefinition {
        rect: PixelRect {
            offset_x: (col * ts.tile_width) as u32,
            offset_y: (row * ts.tile_height) as u32,
            width: ts.tile_width,
            height: ts.tile_height,
        },
        pivot_x,
        pivot_y,
    }
}

/// The full sprite sequence of an atlas built from `ts` under `order`.
pub open spec fn atlas_sprites(
    ts: TilesetDescriptor,
    order: ScanOrder,
    pivot_x: i32,
    pivot_y: i32,
) -> Seq<SpriteDefinition> {
    Seq::new(ts.sprite_count() as nat, |i: int| sprite_at(ts, order, pivot_x, pivot_y, i))
}

/// A tile cell at a column and image row inside the tileset stays within the
/// image: its far edges are at most the image dimensions.
proof fn lemma_tile_cell_bounds(ts: TilesetDescriptor, col: int, row: int)
    requires
        ts.spec_valid(),
        0 <= col < ts.spec_columns(),
        0 <= row < ts.spec_rows(),
    ensures
        0 <= col * ts.tile_width,
        col * ts.tile_width + ts.tile_width <= ts.image_width,
        0 <= row * ts.tile_height,
        row * ts.tile_height + ts.tile_height <= ts.image_height,
{
    let tw = ts.tile_width as int;
    let th = ts.tile_height as int;
    let iw = ts.image_width as int;
    let ih = ts.image_height as int;
    lemma_fundamental_div_mod(iw, tw);
    lemma_fundamental_div_mod(ih, th);
    assert(0 <= col * tw && col * tw + tw <= iw) by (nonlinear_arith)
        requires
            0 <= col,
            col < iw / tw,
            tw > 0,
            iw == tw * (iw / tw),
    ;
    assert(0 <= row * th && row * th + th <= ih) by (nonlinear_arith)
        requires
            0 <= row,
            row < ih / th,
            th > 0,
            ih == th * (ih / th),
    ;
}

/// Builds the sprite atlas for one tileset: one sprite per tile position of
/// the image, in the chosen scan order, each carrying the same pivot offset,
/// around the texture handle the external asset loader issued for the image.
///
/// Fails with `MalformedTileset`, and only then, when the image dimensions are
/// not exact positive multiples of the tile size: partial or clipped sprites
/// are never produced.
pub fn build_atlas(
    ts: &TilesetDescriptor,
    order: ScanOrder,
    pivot_x: i32,
    pivot_y: i32,
    texture: u64,
) -> (r: Result<SpriteAtlas, MapError>)
    requires
        ts.spec_valid() ==> ts.sprite_count() <= usize::MAX,
    ensures
        r is Ok <==> ts.spec_valid(),
        !ts.spec_valid() ==> r == Err::<SpriteAtlas, MapError>(MapError::MalformedTileset),
        r is Ok ==> (r->Ok_0).texture == texture,
        r is Ok ==> (r->Ok_0).sprites@ == atlas_sprites(*ts, order, pivot_x, pivot_y),
{
    if !ts.valid() {
        return Err(MapError::MalformedTileset);
    }
    let cols: u32 = ts.columns();
    let rows: u32 = ts.rows();
    proof {
        assert((rows as int) * (cols as int) <= u32::MAX * u32::MAX) by (nonlinear_arith)
            requires
                0 <= rows <= u32::MAX,
                0 <= cols <= u32::MAX,
        ;
    }
    let total: u64 = (rows as u64) * (cols as u64);
    let mut sprites: Vec<SpriteDefinition> = Vec::new();
    let mut idx: u64 = 0;
    while idx < total
        invariant
            ts.spec_valid(),
            cols as int == ts.spec_columns(),
            rows as int == ts.spec_rows(),
            total == ts.sprite_count(),
            total <= usize::MAX,
            idx <= total,
            sprites@.len() == idx,
            forall|j: int|
                0 <= j < idx ==> sprites@[j] == sprite_at(*ts, order, pivot_x, pivot_y, j),
        decreases total - idx,
    {
        let c64: u64 = idx % (cols as u64);
        let g64: u64 = idx / (cols as u64);
        proof {
            lemma_mod_division_less_than_divisor(idx as int, cols as int);
            assert(idx < (cols as int) * (rows as int)) by (nonlinear_arith)
                requires
                    idx < total,
                    total == (rows as int) * (cols as int),
            ;
            lemma_multiply_divide_lt(idx as int, cols as int, rows as int);
        }
        let col: u32 = c64 as u32;
        let grid_row: u32 = g64 as u32;
        let row: u32 = match order {
            ScanOrder::TopRowFirst => grid_row,
            ScanOrder::BottomRowFirst => rows - 1 - grid_row,
        };
        proof {
            lemma_tile_cell_bounds(*ts, col as int, row as int);
        }
        let sprite = SpriteDefinition {
            rect: PixelRect {
                offset_x: col * ts.tile_width,
                offset_y: row * ts.tile_height,
                width: ts.tile_width,
                height: ts.tile_height,
            },
            pivot_x,
            pivot_y,
        };
        sprites.push(sprite);
        idx = idx + 1;
    }
    proof {
        assert(sprites@ =~= atlas_sprites(*ts, order, pivot_x, pivot_y));
    }
    Ok(SpriteAtlas { texture, sprites })
}

/// Atlas construction is deterministic: two sprite sequences built from the
/// same descriptor, scan order and pivot offset are identical, with the same
/// geometry at the same indices.
pub proof fn lemma_atlas_deterministic(
    ts: TilesetDescriptor,
    order: ScanOrder,
    pivot_x: i32,
    pivot_y: i32,
    first: Seq<SpriteDefinition>,
    second: Seq<SpriteDefinition>,
)
    requires
        first == atlas_sprites(ts, order, pivot_x, pivot_y),
        second == atlas_sprites(ts, order, pivot_x, pivot_y),
    ensures
        first == second,
        first.len() == second.len(),
        forall|i: int| 0 <= i < first.len() ==> first[i] == second[i],
{
}

/// Every sprite of an atlas built from a well-formed tileset lies wholly
/// inside the tileset image, whichever scan order was chosen, so each sprite's
/// normalized texture coordinates are well defined.
pub proof fn lemma_atlas_sprites_in_image(
    ts: TilesetDescriptor,
    order: ScanOrder,
    pivot_x: i32,
    pivot_y: i32,
)
    requires
        ts.spec_valid(),
    ensures
        forall|i: int|
            0 <= i < atlas_sprites(ts, order, pivot_x, pivot_y).len() ==> rect_in_image(
                #[trigger] atlas_sprites(ts, order, pivot_x, pivot_y)[i].rect,
                ts.image_width,
                ts.image_height,
            ),
{
    let cols = ts.spec_columns();
    let rows = ts.spec_rows();
    assert forall|i: int|
        0 <= i < atlas_sprites(ts, order, pivot_x, pivot_y).len() implies rect_in_image(
        atlas_sprites(ts, order, pivot_x, pivot_y)[i].rect,
        ts.image_width,
        ts.image_height,
    ) by {
        lemma_mod_division_less_than_divisor(i, cols);
        assert(i < cols * rows) by (nonlinear_arith)
            requires
                i < rows * cols,
        ;
        lemma_multiply_divide_lt(i, cols, rows);
        lemma_tile_cell_bounds(ts, i % cols, image_row(ts, order, i / cols));
    }
}

/// The `covers` relation of a gid over a sequence of tileset starting gids:
/// the tileset at index `i` can hold the gid when its first gid is not above
/// the gid itself.
pub open spec fn covers(first_gids: Seq<u32>, gid: u32, i: int) -> bool {
    0 <= i < first_gids.len() && first_gids[i] <= gid
}

/// Picks, among the tilesets whose first gid does not exceed `gid`, the one
/// with the largest first gid, taking the earliest on a tie; this is the
/// tileset that owns the gid. Fails with `MissingTileset`, and only then,
/// when no tileset covers the gid.
pub fn tileset_for_gid(first_gids: &Vec<u32>, gid: u32) -> (r: Result<usize, MapError>)
    ensures
        (r is Ok) <==> exists|i: int| covers(first_gids@, gid, i),
        (r is Err) ==> r == Err::<usize, MapError>(MapError::MissingTileset),
        r is Ok ==> covers(first_gids@, gid, (r->Ok_0) as int),
        r is Ok ==> forall|j: int|
            #[trigger] covers(first_gids@, gid, j) ==> first_gids@[j] <= first_gids@[(r->Ok_0) as int],
        r is Ok ==> forall|j: int|
            #[trigger] covers(first_gids@, gid, j) && j < (r->Ok_0) as int
                ==> first_gids@[j] < first_gids@[(r->Ok_0) as int],
{
    let mut best: usize = 0;
    let mut found: bool = false;
    let mut k: usize = 0;
    while k < first_gids.len()
        invariant
            k <= first_gids@.len(),
            !found ==> forall|j: int| 0 <= j < k ==> !covers(first_gids@, gid, j),
            found ==> best < k && covers(first_gids@, gid, best as int),
            found ==> forall|j: int|
                #[trigger] covers(first_gids@, gid, j) && j < k
                    ==> first_gids@[j] <= first_gids@[best as int],
            found ==> forall|j: int|
                #[trigger] covers(first_gids@, gid, j) && j < best
                    ==> first_gids@[j] < first_gids@[best as int],
        decreases first_gids@.len() - k,
    {
        let fg = first_gids[k];
        if fg <= gid && (!found || fg > first_gids[best]) {
            best = k;
            found = true;
        }
        k = k + 1;
    }
    if found {
        Ok(best)
    } else {
        Err(MapError::MissingTileset)
    }
}

} // verus!
