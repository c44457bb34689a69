//! Tiles of the game map, keyed by grid coordinate.
use vstd::prelude::*;

verus! {

/// The layout of the map, drawn with `#` for walls and `.` for floor.
/// Nothing is built from it.
pub fn read_map_string() {
    let _map: &str = "
    #########
    #.......#
    #.......#
    #.......#
    #########
    ";
}

/// A cell of the map grid.
#[derive(Clone, Copy, Debug, PartialEq, Eq, Structural, Hash)]
pub struct Coordinate {
    pub x: i32,
    pub y: i32,
}

#[derive(Clone, Copy, Debug, PartialEq, Eq, Structural)]
pub enum TileType {
    Floor,
    Wall,
}

#[derive(Clone, Copy, Debug, PartialEq, Eq, Structural)]
pub struct Tile {
    pub position: Coordinate,
    pub tile_type: TileType,
}

/// Whether no two entries of `s` share a coordinate.
pub open spec fn keys_unique(s: Seq<(Coordinate, Tile)>) -> bool {
    forall|i: int, j: int| 0 <= i < j < s.len() ==> s[i].0 != s[j].0
}

/// Whether some entry of `s` is at `c`.
pub open spec fn has_entry(s: Seq<(Coordinate, Tile)>, c: Coordinate) -> bool {
    exists|i: int| 0 <= i < s.len() && s[i].0 == c
}

/// The entries of `s` as a map from coordinate to tile.
pub open spec fn entries_map(s: Seq<(Coordinate, Tile)>) -> Map<Coordinate, Tile> {
    Map::new(
        |c: Coordinate| has_entry(s, c),
        |c: Coordinate| s[choose|i: int| 0 <= i < s.len() && s[i].0 == c].1,
    )
}

/// With unique keys, each entry is what the map holds at its coordinate.
proof fn lemma_entry(s: Seq<(Coordinate, Tile)>, k: int)
    requires
        keys_unique(s),
        0 <= k < s.len(),
    ensures
        entries_map(s).contains_key(s[k].0),
        entries_map(s)[s[k].0] == s[k].1,
{
    let c = s[k].0;
    assert(has_entry(s, c));
    let j = choose|i: int| 0 <= i < s.len() && s[i].0 == c;
    assert(j == k);
}

/// The map's tiles, at most one per coordinate.
pub struct TileMap {
    tiles: Vec<(Coordinate, Tile)>,
}

impl View for TileMap {
    type V = Map<Coordinate, Tile>;

    closed spec fn view(&self) -> Map<Coordinate, Tile> {
        entries_map(self.tiles@)
    }
}

impl TileMap {
    #[verifier::type_invariant]
    spec fn well_formed(self) -> bool {
        keys_unique(self.tiles@)
    }

    /// Places `tile` at `coordinate`, replacing the tile that was there.
    pub fn add_tile(&mut self, coordinate: Coordinate, tile: Tile)
        ensures
            final(self)@ == old(self)@.insert(coordinate, tile),
    {
        proof {
            use_type_invariant(&*self);
        }
        let mut tiles: Vec<(Coordinate, Tile)> = Vec::new();
        std::mem::swap(&mut tiles, &mut self.tiles);
        let ghost before = tiles@;
        let mut i: usize = 0;
        while i < tiles.len()
            invariant
                i <= tiles.len(),
                tiles@ == before,
                forall|k: int| 0 <= k < i ==> before[k].0 != coordinate,
            ensures
                i <= tiles.len(),
                tiles@ == before,
                forall|k: int| 0 <= k < i ==> before[k].0 != coordinate,
                i < tiles.len() ==> before[i as int].0 == coordinate,
            decreases tiles.len() - i,
        {
            if tiles[i].0 == coordinate {
                break;
            }
            i = i + 1;
        }
        if i < tiles.len() {
            tiles.set(i, (coordinate, tile));
        } else {
            tiles.push((coordinate, tile));
        }
        proof {
            let after = tiles@;
            assert(keys_unique(after));
            assert forall|c: Coordinate| has_entry(after, c) == (has_entry(before, c) || c
                == coordinate) by {
                if has_entry(before, c) {
                    let k = choose|k: int| 0 <= k < before.len() && before[k].0 == c;
                    assert(after[k].0 == c);
                }
                if has_entry(after, c) {
                    let k = choose|k: int| 0 <= k < after.len() && after[k].0 == c;
                    if k < before.len() {
                        assert(before[k].0 == c);
                    }
                }
                if c == coordinate {
                    assert(after[i as int].0 == c);
                }
            }
            assert forall|c: Coordinate| #[trigger]
                entries_map(after).contains_key(c) implies entries_map(after)[c] == entries_map(
                before,
            ).insert(coordinate, tile)[c] by {
                let k = choose|k: int| 0 <= k < after.len() && after[k].0 == c;
                lemma_entry(after, k);
                if c != coordinate {
                    assert(before[k].0 == c);
                    lemma_entry(before, k);
                }
            }
            assert(entries_map(after) =~= entries_map(before).insert(coordinate, tile));
        }
        self.tiles = tiles;
    }

    /// The tile at `coordinate`, if there is one.
    pub fn get(&self, coordinate: Coordinate) -> (r: Option<Tile>)
        ensures
            r == if self@.contains_key(coordinate) {
                Some(self@[coordinate])
            } else {
                None
            },
    {
        proof {
            use_type_invariant(self);
        }
        let mut i: usize = 0;
        while i < self.tiles.len()
            invariant
                i <= self.tiles.len(),
                keys_unique(self.tiles@),
                forall|k: int| 0 <= k < i ==> self.tiles@[k].0 != coordinate,
            decreases self.tiles.len() - i,
        {
            if self.tiles[i].0 == coordinate {
                proof {
                    lemma_entry(self.tiles@, i as int);
                }
                return Some(self.tiles[i].1);
            }
            i = i + 1;
        }
        None
    }

    /// A map for `template`. The template is not read: the map starts with
    /// no tiles.
    pub fn create_map(_template: &str) -> (r: TileMap)
        ensures
            r@ == Map::<Coordinate, Tile>::empty(),
    {
        let r = TileMap { tiles: Vec::new() };
        proof {
            assert(entries_map(r.tiles@) =~= Map::<Coordinate, Tile>::empty());
        }
        r
    }
}

} // verus!
