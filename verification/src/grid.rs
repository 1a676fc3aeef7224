//! The rectangle of tiles a city stands on.

use vstd::prelude::*;
use crate::city::City;
use crate::classify::{lemma_default_tile_is_known, tile_at};
use crate::layout::{buildable, default_length, CityError, CityType};
use crate::tile::Tile;

verus! {

/// A rectangle of tiles, stored row by row in one block of memory. Its size
/// is fixed when it is made.
#[derive(Debug)]
pub struct Grid {
    rows: usize,
    cols: usize,
    cells: Vec<Tile>,
}

/// Where the cell on row `i`, column `j` lies in the storage of a grid with
/// `cols` columns.
pub open spec fn cell_index(cols: int, i: int, j: int) -> int {
    i * cols + j
}

/// The cells of a grid with `cols` columns lie one after another: a cell of
/// a grid with `rows` rows lies within the first `rows * cols` places.
pub proof fn lemma_cell_index_in_range(rows: int, cols: int, i: int, j: int)
    requires
        0 <= i < rows,
        0 <= j < cols,
    ensures
        0 <= cell_index(cols, i, j) < rows * cols,
        0 <= i * cols,
{
    assert(0 <= i * cols) by (nonlinear_arith)
        requires
            0 <= i,
            0 <= cols,
    ;
    assert((i + 1) * cols <= rows * cols) by (nonlinear_arith)
        requires
            i + 1 <= rows,
            0 <= cols,
    ;
    assert((i + 1) * cols == i * cols + cols) by (nonlinear_arith);
}

impl View for Grid {
    type V = Seq<Seq<Tile>>;

    /// The rows of the grid from first to last, each from its first column
    /// to its last.
    closed spec fn view(&self) -> Seq<Seq<Tile>> {
        Seq::new(
            self.rows as nat,
            |i: int| Seq::new(self.cols as nat, |j: int| self.cells@[cell_index(self.cols as int, i, j)]),
        )
    }
}

impl Grid {
    #[verifier::type_invariant]
    spec fn well_formed(self) -> bool {
        self.cells@.len() == self.rows * self.cols
    }

    /// The number of rows.
    pub closed spec fn height(&self) -> nat {
        self.rows as nat
    }

    /// The number of columns, which a grid has even where it has no row.
    pub closed spec fn width(&self) -> nat {
        self.cols as nat
    }

    /// The view has one sequence for each row, as long as the grid is wide.
    pub proof fn lemma_shape(&self)
        ensures
            self@.len() == self.height(),
            forall|i: int| 0 <= i < self.height() ==> (#[trigger] self@[i]).len() == self.width(),
    {
    }

    /// The number of rows.
    pub fn rows(&self) -> (n: usize)
        ensures
            n == self.height(),
            n == self@.len(),
    {
        self.rows
    }

    /// The number of columns.
    pub fn cols(&self) -> (n: usize)
        ensures
            n == self.width(),
            forall|i: int| 0 <= i < self@.len() ==> (#[trigger] self@[i]).len() == n,
    {
        self.cols
    }

    /// The tile on row `row`, column `col`, or `None` outside the grid.
    pub fn get(&self, row: usize, col: usize) -> (t: Option<Tile>)
        ensures
            t == if row < self.height() && col < self.width() {
                Some(self@[row as int][col as int])
            } else {
                None
            },
    {
        if row < self.rows && col < self.cols {
            proof {
                use_type_invariant(self);
                lemma_cell_index_in_range(
                    self.rows as int,
                    self.cols as int,
                    row as int,
                    col as int,
                );
                assert(self.cells@.len() == self.cells.len());
            }
            Some(self.cells[row * self.cols + col])
        } else {
            None
        }
    }
}

/// The tiles of a `Default` city with blocks of side `b_size`, on `rows` rows
/// and `cols` columns.
pub open spec fn default_tiles(b_size: int, rows: int, cols: int) -> Seq<Seq<Tile>> {
    Seq::new(rows as nat, |i: int| Seq::new(cols as nat, |j: int| tile_at(b_size, i, j)))
}

impl City {
    /// The grid of a city with `b_num_x` by `b_num_y` blocks of side
    /// `b_size`: one row for each unit of length along the x axis, one
    /// column for each along the y axis, and on every cell the tile that
    /// belongs there.
    ///
    /// Only a `Default` city has a grid.
    pub fn generate_city_grid(
        city_type: CityType,
        b_num_x: u32,
        b_num_y: u32,
        b_size: u32,
    ) -> (res: Result<Grid, CityError>)
        requires
            buildable(city_type, b_num_x as int, b_num_y as int, b_size as int),
        ensures
            match city_type {
                CityType::Default => {
                    &&& res is Ok
                    &&& res->Ok_0.height() == default_length(b_size as int, b_num_x as int)
                    &&& res->Ok_0.width() == default_length(b_size as int, b_num_y as int)
                    &&& res->Ok_0@ == default_tiles(
                        b_size as int,
                        default_length(b_size as int, b_num_x as int),
                        default_length(b_size as int, b_num_y as int),
                    )
                    &&& all_known(res->Ok_0@)
                },
                _ => res is Err && res->Err_0 == CityError::UnsupportedVariant,
            },
    {
        match city_type {
            CityType::Default => {},
            _ => {
                return Err(CityError::UnsupportedVariant);
            },
        }
        let len_x: u32 = match City::city_length_x(city_type, b_num_x, b_size) {
            Ok(len) => len,
            Err(e) => {
                return Err(e);
            },
        };
        let len_y: u32 = match City::city_length_y(city_type, b_num_y, b_size) {
            Ok(len) => len,
            Err(e) => {
                return Err(e);
            },
        };
        let rows: usize = len_x as usize;
        let cols: usize = len_y as usize;
        let mut cells: Vec<Tile> = Vec::new();
        let mut i: u32 = 0;
        while i < len_x
            invariant
                city_type is Default,
                rows == len_x,
                cols == len_y,
                i <= len_x,
                cells@.len() == i * cols,
                forall|r: int, c: int|
                    0 <= r < i && 0 <= c < cols ==> #[trigger] cells@[cell_index(cols as int, r, c)]
                        == tile_at(b_size as int, r, c),
            decreases len_x - i,
        {
            let mut j: u32 = 0;
            while j < len_y
                invariant
                    city_type is Default,
                    rows == len_x,
                    cols == len_y,
                    i < len_x,
                    j <= len_y,
                    cells@.len() == cell_index(cols as int, i as int, j as int),
                    forall|r: int, c: int|
                        0 <= r < i && 0 <= c < cols ==> #[trigger] cells@[cell_index(
                            cols as int,
                            r,
                            c,
                        )] == tile_at(b_size as int, r, c),
                    forall|c: int|
                        0 <= c < j ==> #[trigger] cells@[cell_index(cols as int, i as int, c)]
                            == tile_at(b_size as int, i as int, c),
                decreases len_y - j,
            {
                let tile: Tile = match City::calculate_tile_type(city_type, b_size, i, j) {
                    Ok(tile) => tile,
                    Err(e) => {
                        return Err(e);
                    },
                };
                proof {
                    assert forall|r: int, c: int| 0 <= r < i && 0 <= c < cols implies cell_index(
                        cols as int,
                        r,
                        c,
                    ) < cells@.len() by {
                        lemma_cell_index_in_range(i as int, cols as int, r, c);
                        lemma_cell_index_in_range(len_x as int, cols as int, i as int, j as int);
                    }
                }
                cells.push(tile);
                j += 1;
            }
            proof {
                assert((i + 1) * cols == i * cols + cols) by (nonlinear_arith);
                assert forall|r: int, c: int| 0 <= r < i + 1 && 0 <= c < cols implies #[trigger] cells@[cell_index(
                    cols as int,
                    r,
                    c,
                )] == tile_at(b_size as int, r, c) by {
                    if r == i {
                    }
                }
            }
            i += 1;
        }
        let grid = Grid { rows, cols, cells };
        proof {
            assert(grid@ =~~= default_tiles(b_size as int, len_x as int, len_y as int));
            lemma_default_tiles_are_known(b_size as int, len_x as int, len_y as int);
        }
        Ok(grid)
    }
}

/// Whether no tile of `tiles` is `Unknown`.
pub open spec fn all_known(tiles: Seq<Seq<Tile>>) -> bool {
    forall|i: int, j: int|
        0 <= i < tiles.len() && 0 <= j < tiles[i].len() ==> #[trigger] tiles[i][j] != Tile::Unknown
}

/// The grid of a `Default` city is as long on each axis as the blocks, the
/// park strips and the roads along that axis take together, and holds the
/// tile of every cell.
pub proof fn lemma_default_tiles_shape(b_size: int, b_num_x: int, b_num_y: int)
    requires
        0 <= default_length(b_size, b_num_x),
        0 <= default_length(b_size, b_num_y),
    ensures
        ({
            let rows = (b_size + 4) * b_num_x - 4;
            let cols = (b_size + 4) * b_num_y - 4;
            let tiles = default_tiles(
                b_size,
                default_length(b_size, b_num_x),
                default_length(b_size, b_num_y),
            );
            &&& tiles.len() == rows
            &&& forall|i: int| 0 <= i < rows ==> (#[trigger] tiles[i]).len() == cols
            &&& forall|i: int, j: int|
                0 <= i < rows && 0 <= j < cols ==> #[trigger] tiles[i][j] == tile_at(b_size, i, j)
        }),
{
}

/// No cell of a `Default` city is `Unknown`, whatever its size and the size
/// of its blocks.
pub proof fn lemma_default_tiles_are_known(b_size: int, rows: int, cols: int)
    ensures
        all_known(default_tiles(b_size, rows, cols)),
{
    let tiles = default_tiles(b_size, rows, cols);
    assert forall|i: int, j: int| 0 <= i < tiles.len() && 0 <= j < tiles[i].len() implies #[trigger] tiles[i][j]
        != Tile::Unknown by {
        lemma_default_tile_is_known(b_size, i, j);
    }
}

} // verus!
