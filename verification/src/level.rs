//! The level file's format: one character per tile, row after row.
//!
//! `0` is free floor, `1` a wall and `2` the goal. Every other character,
//! line breaks included, stands for nothing and is passed over.

use vstd::prelude::*;
use crate::tile::{Tile, TileType};

verus! {

/// Whether the character stands for a tile.
pub open spec fn is_tile_char(c: char) -> bool {
    c == '0' || c == '1' || c == '2'
}

/// The tile that a tile character stands for.
pub open spec fn tile_of_char(c: char) -> Tile {
    if c == '1' {
        Tile { tile_type: TileType::Blocked }
    } else if c == '2' {
        Tile { tile_type: TileType::Active }
    } else {
        Tile { tile_type: TileType::NonBlocked }
    }
}

/// The tiles that a level text stands for: one for each tile character, in
/// the order of the text.
pub open spec fn tiles_of(text: Seq<char>) -> Seq<Tile> {
    text.filter(|c: char| is_tile_char(c)).map_values(|c: char| tile_of_char(c))
}

/// A text read in two parts gives the tiles of the first part followed by
/// those of the second. So it makes no difference whether a level is read
/// line by line or in one piece.
pub proof fn lemma_tiles_of_concat(a: Seq<char>, b: Seq<char>)
    ensures
        tiles_of(a + b) == tiles_of(a) + tiles_of(b),
{
    Seq::filter_distributes_over_add(a, b, |c: char| is_tile_char(c));
    assert(tiles_of(a + b) =~= tiles_of(a) + tiles_of(b));
}

/// What one more character adds to the tiles of a text.
pub proof fn lemma_tiles_of_push(text: Seq<char>, c: char)
    ensures
        tiles_of(text.push(c)) == if is_tile_char(c) {
            tiles_of(text).push(tile_of_char(c))
        } else {
            tiles_of(text)
        },
        tiles_of(Seq::empty()) == Seq::<Tile>::empty(),
{
    let one = seq![c];
    assert(text.push(c) =~= text + one);
    lemma_tiles_of_concat(text, one);
    reveal(Seq::filter);
    assert(one.drop_last() =~= Seq::<char>::empty());
    assert(Seq::<char>::empty().filter(|c: char| is_tile_char(c)) =~= Seq::<char>::empty());
    if is_tile_char(c) {
        assert(one.filter(|c: char| is_tile_char(c)) =~= seq![c]);
        assert(tiles_of(one) =~= seq![tile_of_char(c)]);
        assert(tiles_of(text) + tiles_of(one) =~= tiles_of(text).push(tile_of_char(c)));
    } else {
        assert(one.filter(|c: char| is_tile_char(c)) =~= Seq::<char>::empty());
        assert(tiles_of(one) =~= Seq::<Tile>::empty());
        assert(tiles_of(text) + tiles_of(one) =~= tiles_of(text));
    }
    assert(tiles_of(Seq::empty()) =~= Seq::<Tile>::empty());
}

/// Reads the tiles of a level from its text.
pub fn load_from_str(text: &str) -> (tiles: Vec<Tile>)
    ensures
        tiles@ == tiles_of(text@),
{
    let mut tiles: Vec<Tile> = Vec::new();
    proof {
        lemma_tiles_of_push(Seq::empty(), '0');
        assert(text@.take(0) =~= Seq::<char>::empty());
    }
    for x in it: text.chars()
        invariant
            it.seq() == text@,
            tiles@ == tiles_of(text@.take(it.index())),
    {
        proof {
            assert(text@.take(it.index() + 1) =~= text@.take(it.index()).push(x));
            lemma_tiles_of_push(text@.take(it.index()), x);
        }
        match x {
            '0' => {
                tiles.push(Tile::new(TileType::NonBlocked));
            },
            '1' => {
                tiles.push(Tile::new(TileType::Blocked));
            },
            '2' => {
                tiles.push(Tile::new(TileType::Active));
            },
            _ => {},
        }
    }
    assert(text@.take(text@.len() as int) =~= text@);
    tiles
}

} // verus!
