//! Text for a terminal: what a tile, a position, a car or a whole city looks
//! like when it is printed.

use vstd::prelude::*;
use crate::paint::{is_plain_text, paint, painted, Tint};
use crate::car::{Car, CarState, ParkingType};
use crate::city::City;
use crate::grid::Grid;
use crate::position::Position;
use crate::target::TargetType;
use crate::tile::{LightCond, OneWayRoadType, ParkType, RoadType, Tile};

verus! {

/// The character for the digit `d`.
pub open spec fn digit_char(d: int) -> char {
    if d == 0 {
        '0'
    } else if d == 1 {
        '1'
    } else if d == 2 {
        '2'
    } else if d == 3 {
        '3'
    } else if d == 4 {
        '4'
    } else if d == 5 {
        '5'
    } else if d == 6 {
        '6'
    } else if d == 7 {
        '7'
    } else if d == 8 {
        '8'
    } else {
        '9'
    }
}

/// The number `n` in decimal digits, without leading zeros.
pub open spec fn decimal(n: nat) -> Seq<char>
    decreases n,
{
    if n < 10 {
        seq![digit_char(n as int)]
    } else {
        decimal(n / 10) + seq![digit_char((n % 10) as int)]
    }
}

/// A number in decimal digits holds no escape character.
pub proof fn lemma_decimal_is_plain_text(n: nat)
    ensures
        is_plain_text(decimal(n)),
        decimal(n).len() >= 1,
    decreases n,
{
    if n >= 10 {
        lemma_decimal_is_plain_text(n / 10);
    }
}

/// The digit `d` as text.
fn digit_text(d: u32) -> (text: &'static str)
    requires
        d < 10,
    ensures
        text@ == seq![digit_char(d as int)],
{
    proof {
        reveal_strlit("0");
        reveal_strlit("1");
        reveal_strlit("2");
        reveal_strlit("3");
        reveal_strlit("4");
        reveal_strlit("5");
        reveal_strlit("6");
        reveal_strlit("7");
        reveal_strlit("8");
        reveal_strlit("9");
    }
    let text = if d == 0 {
        "0"
    } else if d == 1 {
        "1"
    } else if d == 2 {
        "2"
    } else if d == 3 {
        "3"
    } else if d == 4 {
        "4"
    } else if d == 5 {
        "5"
    } else if d == 6 {
        "6"
    } else if d == 7 {
        "7"
    } else if d == 8 {
        "8"
    } else {
        "9"
    };
    assert(text@ =~= seq![digit_char(d as int)]);
    text
}

/// The number `n` in decimal digits.
pub fn decimal_text(n: u32) -> (out: String)
    ensures
        out@ == decimal(n as nat),
    decreases n,
{
    if n < 10 {
        String::from_str(digit_text(n))
    } else {
        let mut out = decimal_text(n / 10);
        out.append(digit_text(n % 10));
        out
    }
}

/// A position as text: both coordinates in round brackets.
pub open spec fn position_text(p: Position) -> Seq<char> {
    seq!['('] + decimal(p.x as nat) + seq![','] + decimal(p.y as nat) + seq![')']
}

impl Position {
    /// The position as text, such as `(6,0)`.
    pub fn render(&self) -> (out: String)
        ensures
            out@ == position_text(*self),
    {
        proof {
            reveal_strlit("(");
            reveal_strlit(",");
            reveal_strlit(")");
        }
        let mut out = String::from_str("(");
        let x = decimal_text(self.x);
        out.append(x.as_str());
        out.append(",");
        let y = decimal_text(self.y);
        out.append(y.as_str());
        out.append(")");
        assert(out@ =~= position_text(*self));
        out
    }
}

impl Tile {
    /// The character that stands for the tile.
    pub open spec fn glyph_text(self) -> Seq<char> {
        match self {
            Tile::Building => seq!['#'],
            Tile::Park(_) => seq!['p'],
            Tile::Light(LightCond::Green) => seq!['!'],
            Tile::Light(LightCond::Red) => seq!['#'],
            Tile::Road(RoadType::OneWay(OneWayRoadType::Bottom)) => seq!['v'],
            Tile::Road(RoadType::OneWay(OneWayRoadType::Up)) => seq!['^'],
            Tile::Road(RoadType::OneWay(OneWayRoadType::Left)) => seq!['<'],
            Tile::Road(RoadType::OneWay(OneWayRoadType::Right)) => seq!['>'],
            Tile::Road(RoadType::TwoWay(_)) => seq!['x'],
            Tile::Unknown => seq!['?'],
        }
    }

    /// The colour in which the tile is shown: a free park yellow, a green
    /// light green, a full park and a red light red, everything else plain.
    pub open spec fn colour(self) -> Tint {
        match self {
            Tile::Park(ParkType::Free) => Tint::Yellow,
            Tile::Park(ParkType::Full) => Tint::Red,
            Tile::Light(LightCond::Green) => Tint::Green,
            Tile::Light(LightCond::Red) => Tint::Red,
            _ => Tint::Plain,
        }
    }

    /// The character that stands for the tile.
    pub fn glyph(&self) -> (glyph: &'static str)
        ensures
            glyph@ == self.glyph_text(),
            is_plain_text(glyph@),
    {
        proof {
            reveal_strlit("#");
            reveal_strlit("p");
            reveal_strlit("!");
            reveal_strlit("v");
            reveal_strlit("^");
            reveal_strlit("<");
            reveal_strlit(">");
            reveal_strlit("x");
            reveal_strlit("?");
        }
        let glyph = match self {
            Tile::Building => "#",
            Tile::Park(_) => "p",
            Tile::Light(LightCond::Green) => "!",
            Tile::Light(LightCond::Red) => "#",
            Tile::Road(RoadType::OneWay(OneWayRoadType::Bottom)) => "v",
            Tile::Road(RoadType::OneWay(OneWayRoadType::Up)) => "^",
            Tile::Road(RoadType::OneWay(OneWayRoadType::Left)) => "<",
            Tile::Road(RoadType::OneWay(OneWayRoadType::Right)) => ">",
            Tile::Road(RoadType::TwoWay(_)) => "x",
            Tile::Unknown => "?",
        };
        assert(glyph@ =~= self.glyph_text());
        glyph
    }

    /// The colour in which the tile is shown.
    pub fn tint(&self) -> (tint: Tint)
        ensures
            tint == self.colour(),
    {
        match self {
            Tile::Park(ParkType::Free) => Tint::Yellow,
            Tile::Park(ParkType::Full) => Tint::Red,
            Tile::Light(LightCond::Green) => Tint::Green,
            Tile::Light(LightCond::Red) => Tint::Red,
            _ => Tint::Plain,
        }
    }

    /// The tile as text for a terminal: its character in its colour.
    pub fn render(&self) -> (out: String)
        ensures
            painted(self.glyph_text(), self.colour(), out@),
    {
        paint(self.glyph(), self.tint())
    }
}

impl TargetType {
    /// The position that the target names.
    pub open spec fn position(self) -> Position {
        match self {
            TargetType::Building(p) => p,
            TargetType::Exit(p) => p,
            TargetType::JustPosition(p) => p,
        }
    }

    /// The word for the kind of target.
    pub open spec fn label(self) -> Seq<char> {
        match self {
            TargetType::Building(_) => "Building"@,
            TargetType::Exit(_) => "Exit"@,
            TargetType::JustPosition(_) => "Road"@,
        }
    }

    /// The colour of that word.
    pub open spec fn colour(self) -> Tint {
        match self {
            TargetType::Building(_) => Tint::Blue,
            TargetType::Exit(_) => Tint::Red,
            TargetType::JustPosition(_) => Tint::Yellow,
        }
    }

    /// Whether `out` shows the target: the coloured word for its kind, a
    /// comma between two spaces, and its position.
    pub open spec fn is_text(self, out: Seq<char>) -> bool {
        exists|label: Seq<char>|
            painted(self.label(), self.colour(), label) && out == label + " , "@ + position_text(
                self.position(),
            )
    }

    /// The target as text for a terminal, such as `Exit , (6,0)`.
    pub fn render(&self) -> (out: String)
        ensures
            self.is_text(out@),
    {
        proof {
            reveal_strlit("Building");
            reveal_strlit("Exit");
            reveal_strlit("Road");
        }
        let (label, position) = match self {
            TargetType::Building(p) => (paint("Building", Tint::Blue), p),
            TargetType::Exit(p) => (paint("Exit", Tint::Red), p),
            TargetType::JustPosition(p) => (paint("Road", Tint::Yellow), p),
        };
        let mut out = String::from_str(label.as_str());
        out.append(" , ");
        out.append(position.render().as_str());
        assert(painted(self.label(), self.colour(), label@));
        out
    }
}

impl ParkingType {
    /// Whether `out` shows the state of the search: the word `Searching` in
    /// red, or the position together with the number of rounds in blue, or
    /// the position of the spot alone.
    pub open spec fn is_text(self, out: Seq<char>) -> bool {
        match self {
            ParkingType::Searching => painted("Searching"@, Tint::Red, out),
            ParkingType::Circling(pos, rounds) => exists|count: Seq<char>|
                painted(decimal(rounds as nat), Tint::Blue, count) && out == position_text(pos)
                    + " "@ + count,
            ParkingType::Found(pos) => out == position_text(pos),
        }
    }

    /// The state of the search as text for a terminal.
    pub fn render(&self) -> (out: String)
        ensures
            self.is_text(out@),
    {
        match self {
            ParkingType::Searching => {
                proof {
                    reveal_strlit("Searching");
                }
                paint("Searching", Tint::Red)
            },
            ParkingType::Circling(pos, rounds) => {
                let digits = decimal_text(*rounds);
                proof {
                    lemma_decimal_is_plain_text(*rounds as nat);
                }
                let count = paint(digits.as_str(), Tint::Blue);
                let mut out = pos.render();
                out.append(" ");
                out.append(count.as_str());
                assert(painted(decimal(*rounds as nat), Tint::Blue, count@));
                out
            },
            ParkingType::Found(pos) => pos.render(),
        }
    }
}

impl CarState {
    /// Whether `out` shows what a car is doing: one coloured word, or for a
    /// car that is parking the state of its search, a space and the word
    /// `Parking` in red.
    pub open spec fn is_text(self, out: Seq<char>) -> bool {
        match self {
            CarState::Idle => painted("Idle"@, Tint::BrightGreen, out),
            CarState::Moving => painted("Moving"@, Tint::BrightBlue, out),
            CarState::Parking(search) => exists|found: Seq<char>, label: Seq<char>|
                search.is_text(found) && painted("Parking"@, Tint::Red, label) && out == found
                    + " "@ + label,
            CarState::Parked => painted("Parked"@, Tint::Black, out),
        }
    }

    /// What a car is doing, as text for a terminal.
    pub fn render(&self) -> (out: String)
        ensures
            self.is_text(out@),
    {
        proof {
            reveal_strlit("Idle");
            reveal_strlit("Moving");
            reveal_strlit("Parking");
            reveal_strlit("Parked");
        }
        match self {
            CarState::Idle => paint("Idle", Tint::BrightGreen),
            CarState::Moving => paint("Moving", Tint::BrightBlue),
            CarState::Parking(search) => {
                let found = search.render();
                let label = paint("Parking", Tint::Red);
                let mut out = String::from_str(found.as_str());
                out.append(" ");
                out.append(label.as_str());
                assert(search.is_text(found@) && painted("Parking"@, Tint::Red, label@));
                out
            },
            CarState::Parked => paint("Parked", Tint::Black),
        }
    }
}

impl Car {
    /// Whether `out` describes the car: its number in yellow, its target,
    /// its position, its direction and what it is doing, each on a line of
    /// its own after an empty first line.
    pub open spec fn is_text(self, out: Seq<char>) -> bool {
        exists|id: Seq<char>, target: Seq<char>, state: Seq<char>|
            painted(decimal(self.id as nat), Tint::Yellow, id) && self.target.is_text(target)
                && self.state.is_text(state) && out == "\nDisplaying the car of "@ + id
                + " id Targeting "@ + target + "\nCar's position: "@ + position_text(self.p)
                + "\nIt directs to: "@ + position_text(self.dir) + "\nIt's state: "@ + state
    }

    /// The car as text for a terminal.
    pub fn render(&self) -> (out: String)
        ensures
            self.is_text(out@),
    {
        let digits = decimal_text(self.id);
        proof {
            lemma_decimal_is_plain_text(self.id as nat);
        }
        let id = paint(digits.as_str(), Tint::Yellow);
        let target = self.target.render();
        let state = self.state.render();
        let mut out = String::from_str("\nDisplaying the car of ");
        out.append(id.as_str());
        out.append(" id Targeting ");
        out.append(target.as_str());
        out.append("\nCar's position: ");
        out.append(self.p.render().as_str());
        out.append("\nIt directs to: ");
        out.append(self.dir.render().as_str());
        out.append("\nIt's state: ");
        out.append(state.as_str());
        assert(painted(decimal(self.id as nat), Tint::Yellow, id@) && self.target.is_text(target@)
            && self.state.is_text(state@));
        out
    }
}

/// One row of cells as text: each cell followed by a space.
pub open spec fn row_text(cells: Seq<Seq<char>>) -> Seq<char>
    decreases cells.len(),
{
    if cells.len() == 0 {
        Seq::empty()
    } else {
        row_text(cells.drop_last()) + cells.last() + seq![' ']
    }
}

/// Rows of cells as text: each row followed by a line break.
pub open spec fn rows_text(rows: Seq<Seq<Seq<char>>>) -> Seq<char>
    decreases rows.len(),
{
    if rows.len() == 0 {
        Seq::empty()
    } else {
        rows_text(rows.drop_last()) + row_text(rows.last()) + seq!['\n']
    }
}

/// Whether `cells` holds, for every tile of `tiles`, its character in its
/// colour.
pub open spec fn cells_show(tiles: Seq<Seq<Tile>>, cells: Seq<Seq<Seq<char>>>) -> bool {
    &&& cells.len() == tiles.len()
    &&& forall|i: int| 0 <= i < tiles.len() ==> (#[trigger] cells[i]).len() == tiles[i].len()
    &&& forall|i: int, j: int|
        0 <= i < tiles.len() && 0 <= j < tiles[i].len() ==> painted(
            tiles[i][j].glyph_text(),
            tiles[i][j].colour(),
            #[trigger] cells[i][j],
        )
}

/// Whether `out` shows `tiles`: row after row, each tile as its character in
/// its colour with a space behind it, each row with a line break behind it.
pub open spec fn is_grid_text(tiles: Seq<Seq<Tile>>, out: Seq<char>) -> bool {
    exists|cells: Seq<Seq<Seq<char>>>| #[trigger] cells_show(tiles, cells) && out == rows_text(cells)
}

impl Grid {
    /// The grid as text for a terminal.
    pub fn render(&self) -> (out: String)
        ensures
            is_grid_text(self@, out@),
    {
        proof {
            self.lemma_shape();
            reveal_strlit(" ");
            reveal_strlit("\n");
        }
        let rows: usize = self.rows();
        let cols: usize = self.cols();
        let mut out = String::new();
        let ghost mut shown: Seq<Seq<Seq<char>>> = Seq::empty();
        let mut i: usize = 0;
        while i < rows
            invariant
                rows == self.height(),
                cols == self.width(),
                self@.len() == rows,
                forall|r: int| 0 <= r < rows ==> (#[trigger] self@[r]).len() == cols,
                i <= rows,
                " "@ == seq![' '],
                "\n"@ == seq!['\n'],
                cells_show(self@.take(i as int), shown),
                out@ == rows_text(shown),
            decreases rows - i,
        {
            let ghost above = out@;
            let ghost mut line: Seq<Seq<char>> = Seq::empty();
            let mut j: usize = 0;
            while j < cols
                invariant
                    rows == self.height(),
                    cols == self.width(),
                    self@.len() == rows,
                    self@[i as int].len() == cols,
                    i < rows,
                    j <= cols,
                    " "@ == seq![' '],
                    line.len() == j,
                    forall|c: int|
                        0 <= c < j ==> painted(
                            self@[i as int][c].glyph_text(),
                            self@[i as int][c].colour(),
                            #[trigger] line[c],
                        ),
                    out@ == above + row_text(line),
                decreases cols - j,
            {
                if let Some(tile) = self.get(i, j) {
                    let cell = tile.render();
                    out.append(cell.as_str());
                    out.append(" ");
                    proof {
                        let longer = line.push(cell@);
                        assert(longer.drop_last() =~= line);
                        assert(out@ =~= above + row_text(longer));
                        line = longer;
                    }
                }
                j += 1;
            }
            out.append("\n");
            proof {
                let longer = shown.push(line);
                assert(longer.drop_last() =~= shown);
                assert(out@ =~= rows_text(longer));
                assert(self@.take(i + 1).len() == i + 1);
                assert forall|r: int, c: int|
                    0 <= r < self@.take(i + 1).len() && 0 <= c < self@.take(i + 1)[r].len() implies painted(
                    self@.take(i + 1)[r][c].glyph_text(),
                    self@.take(i + 1)[r][c].colour(),
                    #[trigger] longer[r][c],
                ) by {
                    if r < i {
                        assert(self@.take(i as int)[r] == self@[r]);
                        assert(longer[r] == shown[r]);
                    }
                }
                assert forall|r: int| 0 <= r < self@.take(i + 1).len() implies (#[trigger] longer[r]).len()
                    == self@.take(i + 1)[r].len() by {
                    if r < i {
                        assert(self@.take(i as int)[r] == self@[r]);
                        assert(longer[r] == shown[r]);
                    }
                }
                shown = longer;
            }
            i += 1;
        }
        proof {
            assert(self@.take(rows as int) =~= self@);
            assert(cells_show(self@, shown));
        }
        out
    }
}

impl City {
    /// The tiles of the city as text for a terminal.
    pub fn render(&self) -> (out: String)
        ensures
            is_grid_text(self@.tiles, out@),
    {
        self.tiles().render()
    }
}

} // verus!
