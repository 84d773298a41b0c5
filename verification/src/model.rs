//! The mathematical model of a game: the grid, the player to move and the
//! pending entry, and the rule by which an entry becomes a move.

use vstd::prelude::*;

verus! {

/// The player to move.
#[derive(Copy, Clone, Debug, PartialEq, Eq, Structural)]
pub enum Turn {
    Red,
    Blue,
}

/// One cell of the grid.
#[derive(Copy, Clone, Debug, PartialEq, Eq, Structural)]
pub enum Field {
    Empty,
    Red,
    Blue,
}

impl Turn {
    /// The token that this player places.
    pub open spec fn token(self) -> Field {
        match self {
            Turn::Red => Field::Red,
            Turn::Blue => Field::Blue,
        }
    }

    /// The player who moves after this one.
    pub open spec fn next(self) -> Turn {
        match self {
            Turn::Red => Turn::Blue,
            Turn::Blue => Turn::Red,
        }
    }

    /// The player who moves after this one.
    pub fn other(self) -> (t: Turn)
        ensures
            t == self.next(),
    {
        match self {
            Turn::Red => Turn::Blue,
            Turn::Blue => Turn::Red,
        }
    }
}

impl From<Turn> for Field {
    /// The token of a player.
    fn from(turn: Turn) -> (f: Field)
        ensures
            f == turn.token(),
    {
        match turn {
            Turn::Red => Field::Red,
            Turn::Blue => Field::Blue,
        }
    }
}

impl vstd::std_specs::convert::FromSpecImpl<Turn> for Field {
    open spec fn obeys_from_spec() -> bool {
        true
    }

    open spec fn from_spec(turn: Turn) -> Field {
        turn.token()
    }
}

impl Field {
    /// Whether no token lies in the cell.
    pub fn is_empty(self) -> (b: bool)
        ensures
            b == (self is Empty),
    {
        match self {
            Field::Empty => true,
            _ => false,
        }
    }
}

/// A grid as a sequence of rows, the bottom row first.
pub type Grid = Seq<Seq<Field>>;

/// Every row has the width of the bottom row, and there is at least one row
/// and one column.
pub open spec fn rectangular(g: Grid) -> bool {
    &&& g.len() > 0
    &&& g[0].len() > 0
    &&& forall|r: int| 0 <= r < g.len() ==> (#[trigger] g[r]).len() == g[0].len()
}

/// The number of columns of a grid.
pub open spec fn width(g: Grid) -> nat {
    if g.len() > 0 {
        g[0].len()
    } else {
        0
    }
}

/// No empty cell lies below a token of its column.
pub open spec fn settled(g: Grid) -> bool {
    forall|lo: int, hi: int, c: int|
        0 <= lo <= hi < g.len() && 0 <= c < width(g) && (#[trigger] g[lo][c]) is Empty ==> (
        #[trigger] g[hi][c]) is Empty
}

/// The lowest row at or above `from` whose cell in column `c` is empty, or the
/// number of rows if there is none.
pub open spec fn first_empty_from(g: Grid, c: int, from: int) -> int
    decreases g.len() - from,
{
    if from < 0 || from >= g.len() {
        g.len() as int
    } else if g[from][c] is Empty {
        from
    } else {
        first_empty_from(g, c, from + 1)
    }
}

/// The row in which a token dropped into column `c` comes to rest, if any.
pub open spec fn landing_row(g: Grid, c: int) -> Option<int> {
    let r = first_empty_from(g, c, 0);
    if r < g.len() {
        Some(r)
    } else {
        None
    }
}

/// Column `c` holds no empty cell.
pub open spec fn column_full(g: Grid, c: int) -> bool {
    forall|r: int| 0 <= r < g.len() ==> !((#[trigger] g[r])[c] is Empty)
}

/// Row `r` holds the lowest empty cell of column `c`.
pub open spec fn lowest_empty(g: Grid, c: int, r: int) -> bool {
    &&& 0 <= r < g.len()
    &&& g[r][c] is Empty
    &&& forall|below: int| 0 <= below < r ==> !((#[trigger] g[below])[c] is Empty)
}

/// The grid with the cell at row `r`, column `c` replaced by `f`.
pub open spec fn with_cell(g: Grid, r: int, c: int, f: Field) -> Grid {
    g.update(r, g[r].update(c, f))
}

/// A decimal digit.
pub open spec fn is_digit(c: char) -> bool {
    '0' <= c <= '9'
}

/// Every character is a decimal digit.
pub open spec fn all_digits(s: Seq<char>) -> bool {
    forall|i: int| 0 <= i < s.len() ==> is_digit(#[trigger] s[i])
}

/// The number that a digit stands for.
pub open spec fn digit_value(c: char) -> nat {
    (c as u32 - '0' as u32) as nat
}

/// The number that a sequence of digits denotes in base ten; the empty
/// sequence denotes zero.
pub open spec fn decimal_value(s: Seq<char>) -> nat
    decreases s.len(),
{
    if s.len() == 0 {
        0
    } else {
        decimal_value(s.drop_last()) * 10 + digit_value(s.last())
    }
}

/// The column, counted from zero, that an entry selects on a grid of `cols`
/// columns: the entry is a nonempty sequence of digits that denotes a number
/// from 1 to `cols`, and the column is that number less one.
pub open spec fn chosen_column(input: Seq<char>, cols: nat) -> Option<int> {
    if input.len() > 0 && all_digits(input) && 1 <= decimal_value(input) <= cols {
        Some(decimal_value(input) - 1)
    } else {
        None
    }
}

/// A game: the grid, the player to move, and the entry typed so far.
pub struct State {
    pub grid: Grid,
    pub turn: Turn,
    pub input: Seq<char>,
}

impl State {
    /// The game before the first move on a grid of `rows` by `cols` cells.
    pub open spec fn initial(rows: nat, cols: nat) -> State {
        State {
            grid: Seq::new(rows, |r: int| Seq::new(cols, |c: int| Field::Empty)),
            turn: Turn::Red,
            input: Seq::empty(),
        }
    }

    /// The grid is rectangular and settled, and the entry holds digits only.
    pub open spec fn wf(self) -> bool {
        &&& rectangular(self.grid)
        &&& settled(self.grid)
        &&& all_digits(self.input)
    }

    /// The cell that committing the entry would fill: the entry selects a
    /// column, and that column has an empty cell.
    pub open spec fn target(self) -> Option<(int, int)> {
        match chosen_column(self.input, width(self.grid)) {
            None => None,
            Some(c) => match landing_row(self.grid, c) {
                None => None,
                Some(r) => Some((r, c)),
            },
        }
    }

    /// The game after a digit was typed.
    pub open spec fn typed(self, d: char) -> State {
        State { grid: self.grid, turn: self.turn, input: self.input.push(d) }
    }

    /// The game after the last character of the entry was taken back.
    pub open spec fn erased(self) -> State {
        if self.input.len() > 0 {
            State { grid: self.grid, turn: self.turn, input: self.input.drop_last() }
        } else {
            self
        }
    }

    /// The game after the entry was committed: where it has a target, the
    /// mover's token lies there, the entry is empty and the other player
    /// moves; where it has none, nothing has changed.
    pub open spec fn committed(self) -> State {
        match self.target() {
            None => self,
            Some((r, c)) => State {
                grid: with_cell(self.grid, r, c, self.turn.token()),
                turn: self.turn.next(),
                input: Seq::empty(),
            },
        }
    }
}

/// What `first_empty_from` finds: it lies between `from` and the number of
/// rows, no cell of the column from `from` up to it is empty, and the cell at
/// it is empty if it is a row.
pub proof fn lemma_first_empty(g: Grid, c: int, from: int)
    requires
        0 <= from <= g.len(),
    ensures
        from <= first_empty_from(g, c, from) <= g.len(),
        forall|r: int| from <= r < first_empty_from(g, c, from) ==> !((#[trigger] g[r])[c] is Empty),
        first_empty_from(g, c, from) < g.len() ==> g[first_empty_from(g, c, from)][c] is Empty,
    decreases g.len() - from,
{
    if from < g.len() && !(g[from][c] is Empty) {
        lemma_first_empty(g, c, from + 1);
    }
}

} // verus!
