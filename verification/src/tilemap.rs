//! The tile map: a grid written as text, one character per tile.
//!
//! `#` is a solid tile, `~` an encounter zone, every other character a
//! tile that can be walked on. A line ends with a line feed, which a
//! carriage return may precede; neither is a tile.

use vstd::prelude::*;
use crate::encounter::{Position, TileGrid};

verus! {

/// What a tile does to the player.
#[derive(Clone, Copy, Debug, PartialEq, Eq, Structural)]
pub enum TileKind {
    /// Cannot be entered.
    Solid,
    /// May start a battle.
    Encounter,
    /// Neither.
    Open,
}

/// One tile of the map.
#[derive(Clone, Copy, Debug, PartialEq, Eq, Structural)]
pub struct Tile {
    /// The character the tile was written as.
    pub glyph: char,
    /// Position in its line, from 0.
    pub column: usize,
    /// Number of its line, from 0.
    pub row: usize,
    pub kind: TileKind,
}

/// The kind a character stands for.
pub open spec fn kind_of(glyph: char) -> TileKind {
    if glyph == '#' {
        TileKind::Solid
    } else if glyph == '~' {
        TileKind::Encounter
    } else {
        TileKind::Open
    }
}

/// Whether the character at `i` ends a line rather than being a tile.
pub open spec fn is_break(text: Seq<char>, i: int) -> bool {
    text[i] == '\n' || (text[i] == '\r' && i + 1 < text.len() && text[i + 1] == '\n')
}

/// Number of the line that the character at `i` is on: the number of line
/// feeds before it.
pub open spec fn row_at(text: Seq<char>, i: int) -> int
    decreases i,
{
    if i <= 0 {
        0
    } else {
        row_at(text, i - 1) + if text[i - 1] == '\n' {
            1int
        } else {
            0int
        }
    }
}

/// Position in its line of the character at `i`: the number of characters
/// between it and the line feed before it.
pub open spec fn column_at(text: Seq<char>, i: int) -> int
    decreases i,
{
    if i <= 0 || text[i - 1] == '\n' {
        0
    } else {
        column_at(text, i - 1) + 1
    }
}

/// The tile that the character at `i` stands for.
pub open spec fn tile_at(text: Seq<char>, i: int) -> Tile {
    Tile {
        glyph: text[i],
        column: column_at(text, i) as usize,
        row: row_at(text, i) as usize,
        kind: kind_of(text[i]),
    }
}

/// The tiles of the first `n` characters of a map, in the order written.
pub open spec fn tiles_upto(text: Seq<char>, n: int) -> Seq<Tile>
    decreases n,
{
    if n <= 0 {
        Seq::empty()
    } else if is_break(text, n - 1) {
        tiles_upto(text, n - 1)
    } else {
        tiles_upto(text, n - 1).push(tile_at(text, n - 1))
    }
}

/// The tiles of a map, in the order written.
pub open spec fn tiles_of(text: Seq<char>) -> Seq<Tile> {
    tiles_upto(text, text.len() as int)
}

/// The world position of a tile: columns run right, rows run down.
pub open spec fn position_of(tile: Tile, grid: TileGrid) -> (int, int) {
    (tile.column * grid.tile_size, -(tile.row * grid.tile_size))
}

/// The positions of the tiles of one kind, in the order of the tiles.
pub open spec fn positions_of(tiles: Seq<Tile>, kind: TileKind, grid: TileGrid) -> Seq<Position>
    decreases tiles.len(),
{
    if tiles.len() == 0 {
        Seq::empty()
    } else if tiles.last().kind == kind {
        positions_of(tiles.drop_last(), kind, grid).push(
            Position {
                x: position_of(tiles.last(), grid).0 as i64,
                y: position_of(tiles.last(), grid).1 as i64,
            },
        )
    } else {
        positions_of(tiles.drop_last(), kind, grid)
    }
}

/// Whether the world position of a tile is representable.
pub open spec fn position_fits(tile: Tile, grid: TileGrid) -> bool {
    tile.column * grid.tile_size <= i64::MAX && tile.row * grid.tile_size <= i64::MAX
}

/// Whether the world positions of all the tiles of one kind are
/// representable.
pub open spec fn positions_fit(tiles: Seq<Tile>, kind: TileKind, grid: TileGrid) -> bool {
    forall|i: int|
        0 <= i < tiles.len() && (#[trigger] tiles[i]).kind == kind ==> position_fits(tiles[i], grid)
}

/// The kind a character stands for.
pub fn classify(glyph: char) -> (kind: TileKind)
    ensures
        kind == kind_of(glyph),
{
    if glyph == '#' {
        TileKind::Solid
    } else if glyph == '~' {
        TileKind::Encounter
    } else {
        TileKind::Open
    }
}

/// Reads a map: one tile for every character that does not end a line,
/// with its place in the grid and its kind.
pub fn parse_map(text: &Vec<char>) -> (tiles: Vec<Tile>)
    ensures
        tiles@ == tiles_of(text@),
        tiles@.len() <= text@.len(),
{
    let mut tiles: Vec<Tile> = Vec::new();
    let mut row: usize = 0;
    let mut column: usize = 0;
    let mut i: usize = 0;
    while i < text.len()
        invariant
            i <= text.len(),
            row == row_at(text@, i as int),
            column == column_at(text@, i as int),
            row <= i,
            column <= i,
            tiles@ == tiles_upto(text@, i as int),
            tiles@.len() <= i,
        decreases text.len() - i,
    {
        let glyph = text[i];
        let ends_line = glyph == '\n' || (glyph == '\r' && i + 1 < text.len() && text[i + 1]
            == '\n');
        if !ends_line {
            tiles.push(Tile { glyph, column, row, kind: classify(glyph) });
        }
        if glyph == '\n' {
            row += 1;
            column = 0;
        } else {
            column += 1;
        }
        i += 1;
    }
    tiles
}

/// A tile index times a tile size stays far below the 128-bit range.
proof fn lemma_product_bound(index: int, size: int)
    requires
        0 <= index <= 0xffff_ffff_ffff_ffff,
        0 <= size <= 0xffff_ffff,
    ensures
        0 <= index * size <= 0xffff_ffff_ffff_ffff * 0xffff_ffff,
{
    assert(0 <= index * size <= 0xffff_ffff_ffff_ffff * 0xffff_ffff) by (nonlinear_arith)
        requires
            0 <= index <= 0xffff_ffff_ffff_ffff,
            0 <= size <= 0xffff_ffff,
    ;
}

/// The world position of a tile, where it is representable.
pub fn tile_position(tile: &Tile, grid: &TileGrid) -> (position: Option<Position>)
    ensures
        position is Some <==> position_fits(*tile, *grid),
        position matches Some(p) ==> (p.x as int, p.y as int) == position_of(*tile, *grid),
{
    proof {
        lemma_product_bound(tile.column as int, grid.tile_size as int);
        lemma_product_bound(tile.row as int, grid.tile_size as int);
    }
    let x: u128 = tile.column as u128 * grid.tile_size as u128;
    let y: u128 = tile.row as u128 * grid.tile_size as u128;
    if x <= i64::MAX as u128 && y <= i64::MAX as u128 {
        Some(Position { x: x as i64, y: -(y as i64) })
    } else {
        None
    }
}

/// The world positions of the tiles of one kind, in the order of the
/// tiles: the solid tiles to walk against, or the encounter zones to
/// dwell in. `None` exactly when one of them is not representable.
pub fn tile_positions(tiles: &Vec<Tile>, kind: TileKind, grid: &TileGrid) -> (positions: Option<
    Vec<Position>,
>)
    ensures
        positions is Some <==> positions_fit(tiles@, kind, *grid),
        positions matches Some(found) ==> found@ == positions_of(tiles@, kind, *grid),
{
    let mut positions: Vec<Position> = Vec::new();
    let mut i: usize = 0;
    while i < tiles.len()
        invariant
            i <= tiles.len(),
            positions_fit(tiles@.take(i as int), kind, *grid),
            positions@ == positions_of(tiles@.take(i as int), kind, *grid),
        decreases tiles.len() - i,
    {
        proof {
            assert(tiles@.take(i + 1).drop_last() =~= tiles@.take(i as int));
            assert(tiles@.take(i + 1).last() == tiles@[i as int]);
        }
        if tiles[i].kind == kind {
            match tile_position(&tiles[i], grid) {
                Some(position) => {
                    positions.push(position);
                },
                None => {
                    return None;
                },
            }
        }
        proof {
            assert forall|j: int|
                0 <= j < i + 1 && (#[trigger] tiles@.take(i + 1)[j]).kind == kind implies position_fits(
                tiles@.take(i + 1)[j],
                *grid,
            ) by {
                if j < i {
                    assert(tiles@.take(i as int)[j] == tiles@.take(i + 1)[j]);
                }
            }
        }
        i += 1;
    }
    proof {
        assert(tiles@.take(tiles.len() as int) =~= tiles@);
    }
    Some(positions)
}

/// Every tile of a map stands for a character that does not end a line,
/// carries that character's kind, and sits at that character's place.
pub proof fn lemma_tiles_are_characters(text: Seq<char>, n: int, k: int)
    requires
        0 <= n <= text.len(),
        0 <= k < tiles_upto(text, n).len(),
    ensures
        exists|i: int|
            0 <= i < n && !is_break(text, i) && tiles_upto(text, n)[k] == tile_at(text, i),
        tiles_upto(text, n)[k].kind == kind_of(tiles_upto(text, n)[k].glyph),
        tiles_upto(text, n).len() <= n,
    decreases n,
{
    if n > 0 {
        lemma_tiles_len(text, n - 1);
        if is_break(text, n - 1) {
            lemma_tiles_are_characters(text, n - 1, k);
        } else if k < tiles_upto(text, n - 1).len() {
            lemma_tiles_are_characters(text, n - 1, k);
        } else {
            assert(tiles_upto(text, n)[k] == tile_at(text, n - 1));
        }
    }
}

/// Every character that does not end a line has its tile, and the tiles
/// keep the order of the characters.
pub proof fn lemma_characters_have_tiles(text: Seq<char>, n: int, i: int, j: int)
    requires
        0 <= i < j < n <= text.len(),
        !is_break(text, i),
        !is_break(text, j),
    ensures
        exists|k: int, l: int|
            0 <= k < l < tiles_upto(text, n).len() && #[trigger] tiles_upto(text, n)[k] == tile_at(
                text,
                i,
            ) && #[trigger] tiles_upto(text, n)[l] == tile_at(text, j),
    decreases n,
{
    let before = tiles_upto(text, n - 1);
    let all = tiles_upto(text, n);
    if j == n - 1 {
        lemma_character_has_tile(text, n - 1, i);
        let k = choose|k: int| 0 <= k < before.len() && #[trigger] before[k] == tile_at(text, i);
        let l = before.len() as int;
        assert(all[k] == tile_at(text, i));
        assert(all[l] == tile_at(text, j));
    } else {
        lemma_characters_have_tiles(text, n - 1, i, j);
        let (k, l) = choose|k: int, l: int|
            0 <= k < l < before.len() && #[trigger] before[k] == tile_at(text, i)
                && #[trigger] before[l] == tile_at(text, j);
        assert(all[k] == tile_at(text, i));
        assert(all[l] == tile_at(text, j));
    }
}

/// A character that does not end a line has its tile.
pub proof fn lemma_character_has_tile(text: Seq<char>, n: int, i: int)
    requires
        0 <= i < n <= text.len(),
        !is_break(text, i),
    ensures
        exists|k: int|
            0 <= k < tiles_upto(text, n).len() && #[trigger] tiles_upto(text, n)[k] == tile_at(
                text,
                i,
            ),
    decreases n,
{
    let before = tiles_upto(text, n - 1);
    let all = tiles_upto(text, n);
    if i == n - 1 {
        let k = before.len() as int;
        assert(all[k] == tile_at(text, i));
    } else {
        lemma_character_has_tile(text, n - 1, i);
        let k = choose|k: int| 0 <= k < before.len() && #[trigger] before[k] == tile_at(text, i);
        assert(all[k] == tile_at(text, i));
    }
}

/// A map has at most as many tiles as characters.
pub proof fn lemma_tiles_len(text: Seq<char>, n: int)
    requires
        0 <= n,
    ensures
        tiles_upto(text, n).len() <= n,
    decreases n,
{
    if n > 0 {
        lemma_tiles_len(text, n - 1);
    }
}

} // verus!
