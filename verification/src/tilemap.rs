use vstd::prelude::*;

verus! {

/// Columns of glyphs in the ASCII sprite sheet.
pub const ASCII_SHEET_COLUMNS: usize = 16;

/// Rows of glyphs in the ASCII sprite sheet.
pub const ASCII_SHEET_ROWS: usize = 16;

/// The glyph that marks a wall in a map file.
pub const WALL_GLYPH: char = '#';

/// Whether `index` names a glyph of the ASCII sprite sheet, which holds the
/// 256 glyphs of a 16 by 16 grid.
pub fn is_ascii_sheet_index(index: usize) -> (valid: bool)
    ensures
        valid == (index < ASCII_SHEET_COLUMNS * ASCII_SHEET_ROWS),
        valid == (index < 256),
{
    index < ASCII_SHEET_COLUMNS * ASCII_SHEET_ROWS
}

/// One tile of a map: where it stands in the map's grid, the glyph of the
/// ASCII sheet it shows, and whether it stops the hero.
#[derive(Clone, Copy, Debug, PartialEq, Eq, Structural)]
pub struct MapTile {
    pub column: usize,
    pub row: usize,
    pub sprite_index: usize,
    pub collider: bool,
}

/// The tile for `glyph` in column `column` of row `row`: it shows the glyph
/// whose sheet index is the glyph's code point, and it is a wall exactly
/// when the glyph is `#`.
pub open spec fn tile_at(column: int, row: int, glyph: char) -> MapTile {
    MapTile {
        column: column as usize,
        row: row as usize,
        sprite_index: glyph as usize,
        collider: glyph == WALL_GLYPH,
    }
}

/// The tiles of one line of a map file, from left to right.
pub open spec fn row_tiles(row: int, line: Seq<char>) -> Seq<MapTile> {
    Seq::new(line.len(), |column: int| tile_at(column, row, line[column]))
}

/// The tiles of a map file, line by line from the top, each line from left
/// to right.
pub open spec fn map_tiles(lines: Seq<Seq<char>>) -> Seq<MapTile>
    decreases lines.len(),
{
    if lines.len() == 0 {
        Seq::empty()
    } else {
        map_tiles(lines.drop_last()) + row_tiles(lines.len() - 1, lines.last())
    }
}

/// The tile for one glyph of a map file.
pub fn glyph_tile(column: usize, row: usize, glyph: char) -> (tile: MapTile)
    ensures
        tile == tile_at(column as int, row as int, glyph),
        tile.column == column,
        tile.row == row,
        tile.sprite_index == glyph as usize,
        tile.collider == (glyph == '#'),
{
    MapTile { column, row, sprite_index: glyph as usize, collider: glyph == WALL_GLYPH }
}

/// Lays out the tiles of a map file given by its lines: one tile for every
/// character, in reading order, walls where the character is `#`.
pub fn layout_ascii_map(lines: &Vec<Vec<char>>) -> (tiles: Vec<MapTile>)
    ensures
        tiles@ == map_tiles(lines.deep_view()),
        ({
            let text = lines.deep_view();
            &&& tiles@.len() == total_chars(text)
            &&& forall|i: int|
                0 <= i < tiles@.len() ==> {
                    let t = #[trigger] tiles@[i];
                    &&& t.row < text.len()
                    &&& t.column < text[t.row as int].len()
                    &&& t.sprite_index == text[t.row as int][t.column as int] as usize
                    &&& t.collider == (text[t.row as int][t.column as int] == '#')
                }
        }),
{
    let mut tiles: Vec<MapTile> = Vec::new();
    let n = lines.len();
    let ghost text = lines.deep_view();
    let mut y: usize = 0;
    while y < n
        invariant
            n == lines.len(),
            text == lines.deep_view(),
            y <= n,
            tiles@ == map_tiles(text.take(y as int)),
        decreases n - y,
    {
        let line = &lines[y];
        let m = line.len();
        let ghost before = tiles@;
        let mut x: usize = 0;
        while x < m
            invariant
                m == line.len(),
                line@ == text[y as int],
                x <= m,
                tiles@ == before + row_tiles(y as int, line@.take(x as int)),
            decreases m - x,
        {
            tiles.push(glyph_tile(x, y, line[x]));
            x = x + 1;
            assert(row_tiles(y as int, line@.take(x as int)) =~= row_tiles(
                y as int,
                line@.take((x - 1) as int),
            ).push(tile_at((x - 1) as int, y as int, line@[(x - 1) as int])));
        }
        assert(line@.take(m as int) =~= line@);
        assert(text.take((y + 1) as int).drop_last() =~= text.take(y as int));
        y = y + 1;
    }
    assert(text.take(n as int) =~= text);
    proof {
        assert forall|r: int| 0 <= r < text.len() implies #[trigger] text[r].len() <= usize::MAX by {
            assert(text[r].len() == lines@[r]@.len());
            assert(lines@[r].len() == lines@[r]@.len());
        }
        lemma_tiles_follow_the_text(text);
    }
    tiles
}


/// The number of characters in a map file.
pub open spec fn total_chars(lines: Seq<Seq<char>>) -> nat
    decreases lines.len(),
{
    if lines.len() == 0 {
        0
    } else {
        total_chars(lines.drop_last()) + lines.last().len()
    }
}

proof fn lemma_total_chars_prefix(lines: Seq<Seq<char>>, r: int)
    requires
        0 <= r < lines.len(),
    ensures
        total_chars(lines.take(r)) + lines[r].len() <= total_chars(lines),
        total_chars(lines.take(r + 1)) == total_chars(lines.take(r)) + lines[r].len(),
    decreases lines.len(),
{
    assert(lines.take(r + 1).drop_last() =~= lines.take(r));
    if r < lines.len() - 1 {
        let init = lines.drop_last();
        lemma_total_chars_prefix(init, r);
        assert(init.take(r) =~= lines.take(r));
        assert(init.take(r + 1) =~= lines.take(r + 1));
    } else {
        assert(lines.take(r) =~= lines.drop_last());
    }
}

/// A laid-out map has one tile for every character of its file, in reading
/// order: the tile for the character in column `c` of line `r` comes after
/// the tiles of all earlier lines, shows that character and is a wall
/// exactly when it is `#`; and every tile stands within the map and shows
/// the character at its place. (The lengths are those a `Vec` can have.)
pub proof fn lemma_tiles_follow_the_text(lines: Seq<Seq<char>>)
    requires
        lines.len() <= usize::MAX,
        forall|r: int| 0 <= r < lines.len() ==> #[trigger] lines[r].len() <= usize::MAX,
    ensures
        map_tiles(lines).len() == total_chars(lines),
        forall|r: int, c: int|
            0 <= r < lines.len() && 0 <= c < lines[r].len() ==> #[trigger] map_tiles(lines)[total_chars(
                lines.take(r),
            ) + c] == tile_at(c, r, #[trigger] lines[r][c]),
        forall|i: int|
            0 <= i < map_tiles(lines).len() ==> {
                let t = #[trigger] map_tiles(lines)[i];
                &&& t.row < lines.len()
                &&& t.column < lines[t.row as int].len()
                &&& t == tile_at(t.column as int, t.row as int, lines[t.row as int][t.column as int])
                &&& t.sprite_index == lines[t.row as int][t.column as int] as usize
                &&& t.collider == (lines[t.row as int][t.column as int] == '#')
            },
        forall|r: int, c: int|
            0 <= r < lines.len() && 0 <= c < lines[r].len() ==> {
                let t = #[trigger] map_tiles(lines)[total_chars(lines.take(r)) + c];
                &&& t.row == r
                &&& t.column == c
                &&& t.sprite_index == lines[r][c] as usize
                &&& t.collider == (lines[r][c] == '#')
            },
    decreases lines.len(),
{
    if lines.len() > 0 {
        let init = lines.drop_last();
        let last = lines.last();
        let k = lines.len() - 1;
        let tiles = map_tiles(lines);
        assert forall|r: int| 0 <= r < init.len() implies #[trigger] init[r].len() <= usize::MAX by {
            assert(init[r] == lines[r]);
        }
        lemma_tiles_follow_the_text(init);
        assert(tiles == map_tiles(init) + row_tiles(k, last));
        assert forall|r: int, c: int|
            0 <= r < lines.len() && 0 <= c < lines[r].len() implies #[trigger] tiles[total_chars(
                lines.take(r),
            ) + c] == tile_at(c, r, #[trigger] lines[r][c]) by {
            if r < k {
                assert(init.take(r) =~= lines.take(r));
                assert(init[r] == lines[r]);
                lemma_total_chars_prefix(init, r);
                assert(map_tiles(init)[total_chars(init.take(r)) + c] == tile_at(
                    c,
                    r,
                    init[r][c],
                ));
            } else {
                assert(lines.take(r) =~= init);
            }
        }
        assert forall|i: int| 0 <= i < tiles.len() implies {
            let t = #[trigger] tiles[i];
            &&& t.row < lines.len()
            &&& t.column < lines[t.row as int].len()
            &&& t == tile_at(t.column as int, t.row as int, lines[t.row as int][t.column as int])
            &&& t.sprite_index == lines[t.row as int][t.column as int] as usize
            &&& t.collider == (lines[t.row as int][t.column as int] == '#')
        } by {
            if i < map_tiles(init).len() {
                let t = map_tiles(init)[i];
                assert(init[t.row as int] == lines[t.row as int]);
            } else {
                let c = i - map_tiles(init).len();
                assert(tiles[i] == tile_at(c, k, last[c]));
                assert(lines[k] == last);
            }
        }
    }
    assert forall|r: int, c: int|
        0 <= r < lines.len() && 0 <= c < lines[r].len() implies {
        let t = #[trigger] map_tiles(lines)[total_chars(lines.take(r)) + c];
        &&& t.row == r
        &&& t.column == c
        &&& t.sprite_index == lines[r][c] as usize
        &&& t.collider == (lines[r][c] == '#')
    } by {
        assert(map_tiles(lines)[total_chars(lines.take(r)) + c] == tile_at(c, r, lines[r][c]));
    }
}

} // verus!
