use vstd::prelude::*;

verus! {

/// The failures that atlas construction and scene projection can surface.
///
/// All of them are detected synchronously and reported before any partial
/// output is handed to the caller: a malformed map is a hard stop for the
/// scene, never a partial render.
#[derive(Clone, Copy, Debug, PartialEq, Eq, Structural)]
pub enum MapError {
    /// The tileset image dimensions are not exact multiples of the tile size,
    /// so the image does not pack a whole number of tile columns and rows.
    MalformedTileset,
    /// The tile layer's rows have unequal lengths.
    RaggedGrid,
    /// A gid resolves to a sprite index at or beyond the atlas's sprite count.
    SpriteIndexOutOfRange,
    /// No tileset covers the gid in question.
    MissingTileset,
}

} // verus!
