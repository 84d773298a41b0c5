//! The game itself: the grid, the player to move and the pending entry, with
//! the operations that the keyboard drives.

use vstd::prelude::*;
use crate::model::{
    first_empty_from, is_digit, lemma_first_empty, width, with_cell, Field, Grid, State, Turn,
};
use crate::number::{is_decimal_digit, parse_number};

verus! {

/// A key as the game distinguishes them.
#[derive(Copy, Clone, Debug, PartialEq, Eq)]
pub enum Key {
    Char(char),
    Backspace,
    Enter,
    Other,
}

/// What the caller does after a key was handled.
#[derive(Copy, Clone, Debug, PartialEq, Eq, Structural)]
pub enum Outcome {
    Continue,
    Quit,
}

/// The key that ends the game.
pub open spec fn is_quit(key: Key) -> bool {
    key == Key::Char('q')
}

/// The game after a key was pressed: a digit joins the entry, backspace takes
/// the last character back, enter commits the entry, and every other key
/// changes nothing.
pub open spec fn after_key(s: State, key: Key) -> State {
    match key {
        Key::Char(c) => if is_digit(c) {
            s.typed(c)
        } else {
            s
        },
        Key::Backspace => s.erased(),
        Key::Enter => s.committed(),
        Key::Other => s,
    }
}

/// A game in progress.
#[derive(Debug, PartialEq, Eq)]
pub struct App {
    pub(crate) board: Vec<Vec<Field>>,
    pub(crate) turn: Turn,
    pub(crate) input: Vec<char>,
}

/// The grid that rows of cells stand for.
pub open spec fn grid_of(board: Seq<Vec<Field>>) -> Grid {
    Seq::new(board.len(), |r: int| board[r]@)
}

impl View for App {
    type V = State;

    closed spec fn view(&self) -> State {
        State { grid: grid_of(self.board@), turn: self.turn, input: self.input@ }
    }
}

/// A vector with the same items in the same order.
pub fn copy_of<T: Copy>(items: &Vec<T>) -> (copy: Vec<T>)
    ensures
        copy@ == items@,
{
    let mut copy: Vec<T> = Vec::new();
    let mut i: usize = 0;
    while i < items.len()
        invariant
            i <= items.len(),
            copy@ == items@.take(i as int),
        decreases items.len() - i,
    {
        copy.push(items[i]);
        proof {
            assert(items@.take(i + 1) =~= items@.take(i as int).push(items@[i as int]));
        }
        i += 1;
    }
    proof {
        assert(items@.take(items@.len() as int) =~= items@);
    }
    copy
}

impl Clone for App {
    /// A second game in the same state.
    fn clone(&self) -> (copy: App)
        ensures
            copy@ == self@,
    {
        let mut board: Vec<Vec<Field>> = Vec::new();
        let mut r: usize = 0;
        while r < self.board.len()
            invariant
                r <= self.board.len(),
                board@.len() == r,
                forall|k: int| 0 <= k < r ==> (#[trigger] board@[k])@ == self.board@[k]@,
            decreases self.board.len() - r,
        {
            board.push(copy_of(&self.board[r]));
            r += 1;
        }
        let copy = App { board, turn: self.turn, input: copy_of(&self.input) };
        proof {
            assert(copy@.grid =~= self@.grid);
        }
        copy
    }
}

impl App {
    /// The game is well formed.
    pub open spec fn wf(&self) -> bool {
        self@.wf()
    }

    /// A new game on the standard grid of six rows and seven columns.
    pub fn new() -> (app: App)
        ensures
            app.wf(),
            app@ == State::initial(6, 7),
    {
        App::with_size(6, 7)
    }

    /// A new game on a grid of `rows` by `cols` cells, all empty, with the
    /// red player to move and nothing typed.
    pub fn with_size(rows: usize, cols: usize) -> (app: App)
        requires
            rows > 0,
            cols > 0,
        ensures
            app.wf(),
            app@ == State::initial(rows as nat, cols as nat),
    {
        let mut board: Vec<Vec<Field>> = Vec::new();
        let mut r: usize = 0;
        while r < rows
            invariant
                r <= rows,
                board@.len() == r,
                forall|k: int| 0 <= k < r ==> (#[trigger] board@[k])@ =~= Seq::new(cols as nat, |c: int| Field::Empty),
            decreases rows - r,
        {
            let mut row: Vec<Field> = Vec::new();
            let mut c: usize = 0;
            while c < cols
                invariant
                    c <= cols,
                    row@.len() == c,
                    forall|k: int| 0 <= k < c ==> (#[trigger] row@[k]) == Field::Empty,
                decreases cols - c,
            {
                row.push(Field::Empty);
                c += 1;
            }
            board.push(row);
            r += 1;
        }
        let app = App { board, turn: Turn::Red, input: Vec::new() };
        proof {
            assert(app@.grid =~= State::initial(rows as nat, cols as nat).grid);
        }
        app
    }

    /// The number of rows.
    pub fn rows(&self) -> (n: usize)
        ensures
            n == self@.grid.len(),
    {
        self.board.len()
    }

    /// The number of columns.
    pub fn columns(&self) -> (n: usize)
        requires
            self.wf(),
        ensures
            n == width(self@.grid),
    {
        self.board[0].len()
    }

    /// The cell at row `row`, counted from the bottom, and column `column`.
    pub fn field(&self, row: usize, column: usize) -> (f: Field)
        requires
            self.wf(),
            row < self@.grid.len(),
            column < width(self@.grid),
        ensures
            f == self@.grid[row as int][column as int],
    {
        self.board[row][column]
    }

    /// The player to move.
    pub fn player(&self) -> (t: Turn)
        ensures
            t == self@.turn,
    {
        self.turn
    }

    /// The entry typed so far.
    pub fn input(&self) -> (s: &Vec<char>)
        ensures
            s@ == self@.input,
    {
        &self.input
    }

    /// Appends a digit to the entry. The grid and the player to move stay.
    pub fn push_digit(&mut self, d: char)
        requires
            old(self).wf(),
            is_digit(d),
        ensures
            final(self).wf(),
            final(self)@ == old(self)@.typed(d),
    {
        self.input.push(d);
    }

    /// Removes the last character of the entry, if there is one. The grid and
    /// the player to move stay.
    pub fn pop_digit(&mut self)
        requires
            old(self).wf(),
        ensures
            final(self).wf(),
            final(self)@ == old(self)@.erased(),
    {
        let _ = self.input.pop();
    }

    /// Commits the entry as a move. Where the entry selects a column that has
    /// an empty cell, the mover's token comes to rest in the lowest such cell,
    /// the entry is cleared and the other player moves. In every other case
    /// nothing changes, the entry included.
    pub fn turn(&mut self)
        requires
            old(self).wf(),
        ensures
            final(self).wf(),
            final(self)@ == old(self)@.committed(),
    {
        let columns: usize = self.board[0].len();
        let column: usize = match parse_number(&self.input) {
            Some(c) => c,
            None => {
                return;
            },
        };
        if column == 0 || column > columns {
            return;
        }
        let column: usize = column - 1;
        let ghost g = self@.grid;
        let mut i: usize = 0;
        while i < self.board.len() && !self.board[i][column].is_empty()
            invariant
                *self == *old(self),
                self.wf(),
                g == self@.grid,
                0 <= column < width(g),
                0 <= i <= g.len(),
                first_empty_from(g, column as int, 0) == first_empty_from(g, column as int, i as int),
            decreases g.len() - i,
        {
            i += 1;
        }
        if i >= self.board.len() {
            return;
        }
        proof {
            lemma_first_empty(g, column as int, 0);
        }
        let token: Field = self.turn.into();
        self.board[i][column] = token;
        self.input = Vec::new();
        self.turn = self.turn.other();
        proof {
            assert(self@.grid =~= with_cell(g, i as int, column as int, token));
        }
    }

    /// Handles one key: `q` asks the caller to stop and changes nothing, a
    /// digit joins the entry, backspace takes the last character back, enter
    /// commits the entry, and any other key is ignored.
    pub fn key(&mut self, key: Key) -> (outcome: Outcome)
        requires
            old(self).wf(),
        ensures
            final(self).wf(),
            is_quit(key) ==> outcome == Outcome::Quit && *final(self) == *old(self),
            !is_quit(key) ==> outcome == Outcome::Continue && final(self)@ == after_key(
                old(self)@,
                key,
            ),
    {
        match key {
            Key::Char(c) => {
                if c == 'q' {
                    return Outcome::Quit;
                }
                if is_decimal_digit(c) {
                    self.push_digit(c);
                }
            },
            Key::Backspace => {
                self.pop_digit();
            },
            Key::Enter => {
                self.turn();
            },
            Key::Other => {},
        }
        Outcome::Continue
    }
}

} // verus!
