//! What holds of every game, proved from the rules.

use vstd::prelude::*;
use crate::game::{after_key, Key};
use crate::model::{
    all_digits, chosen_column, column_full, decimal_value, landing_row, lemma_first_empty,
    lowest_empty, rectangular, width, with_cell, Field, Grid, State, Turn,
};
use crate::screen::{canvas_of, grid_tiles, row_tiles, screen_of, tile_at, Screen, Tile};

verus! {

/// The game after the digits `ds` were typed one after the other.
pub open spec fn typed_all(s: State, ds: Seq<char>) -> State
    decreases ds.len(),
{
    if ds.len() == 0 {
        s
    } else {
        typed_all(s, ds.drop_last()).typed(ds.last())
    }
}

/// The game after the keys `keys` were pressed one after the other.
pub open spec fn after_keys(s: State, keys: Seq<Key>) -> State
    decreases keys.len(),
{
    if keys.len() == 0 {
        s
    } else {
        after_key(after_keys(s, keys.drop_last()), keys.last())
    }
}

/// How many of the keys `keys`, pressed one after the other, placed a token.
pub open spec fn placements(s: State, keys: Seq<Key>) -> nat
    decreases keys.len(),
{
    if keys.len() == 0 {
        0
    } else {
        let before = after_keys(s, keys.drop_last());
        let placed: nat = if keys.last() == Key::Enter && before.target().is_some() {
            1
        } else {
            0
        };
        placements(s, keys.drop_last()) + placed
    }
}

/// The player to move after `n` tokens were placed, where `first` moved first.
pub open spec fn mover_after(first: Turn, n: nat) -> Turn {
    if n % 2 == 0 {
        first
    } else {
        first.next()
    }
}

/// Typing digits extends the entry by them and touches neither the grid nor
/// the player to move.
pub proof fn law_typing_extends_entry(s: State, ds: Seq<char>)
    ensures
        typed_all(s, ds).grid == s.grid,
        typed_all(s, ds).turn == s.turn,
        typed_all(s, ds).input == s.input + ds,
    decreases ds.len(),
{
    if ds.len() > 0 {
        law_typing_extends_entry(s, ds.drop_last());
        assert((s.input + ds.drop_last()).push(ds.last()) =~= s.input + ds);
    }
}

/// Where digits are typed and the entry then denotes no number from 1 to the
/// number of columns, committing it changes neither the grid nor the player
/// to move, and the entry stays as typed.
pub proof fn law_number_out_of_range_is_rejected(s: State, ds: Seq<char>)
    requires
        all_digits(ds),
        !(1 <= decimal_value(typed_all(s, ds).input) <= width(s.grid)),
    ensures
        typed_all(s, ds).committed().grid == s.grid,
        typed_all(s, ds).committed().turn == s.turn,
        typed_all(s, ds).committed().input == s.input + ds,
{
    law_typing_extends_entry(s, ds);
}

/// Where the entry selects column `k` and that column has an empty cell,
/// committing puts the mover's token into the lowest empty cell of the column
/// and leaves every other cell, clears the entry, and passes the move to the
/// other player. The result is the row of that cell.
pub proof fn law_move_lands_in_lowest_empty_cell(s: State, k: int) -> (r: int)
    requires
        s.wf(),
        chosen_column(s.input, width(s.grid)) == Some(k),
        !column_full(s.grid, k),
    ensures
        lowest_empty(s.grid, k, r),
        s.committed().grid == with_cell(s.grid, r, k, s.turn.token()),
        s.committed().grid[r][k] == s.turn.token(),
        s.committed().turn == s.turn.next(),
        s.committed().input == Seq::<char>::empty(),
{
    lemma_first_empty(s.grid, k, 0);
    landing_row(s.grid, k).unwrap()
}

/// Where the entry selects a column that is full, committing changes nothing.
pub proof fn law_full_column_is_rejected(s: State, k: int)
    requires
        chosen_column(s.input, width(s.grid)) == Some(k),
        column_full(s.grid, k),
    ensures
        s.committed() == s,
{
    lemma_first_empty(s.grid, k, 0);
}

/// Once every column is full the game is over: committing changes nothing,
/// whatever the entry.
pub proof fn law_full_grid_is_final(s: State)
    requires
        forall|c: int| 0 <= c < width(s.grid) ==> column_full(s.grid, c),
    ensures
        s.committed() == s,
{
    match chosen_column(s.input, width(s.grid)) {
        Some(c) => {
            law_full_column_is_rejected(s, c);
        },
        None => {},
    }
}

/// The move passes to the other player when enter places a token, and at no
/// other key.
pub proof fn law_move_passes_only_on_placement(s: State, key: Key)
    ensures
        after_key(s, key).turn == (if key == Key::Enter && s.target().is_some() {
            s.turn.next()
        } else {
            s.turn
        }),
        s.turn.next() != s.turn,
        s.turn.next().next() == s.turn,
{
}

/// The lowest empty cell of a column is unique.
pub proof fn law_lowest_empty_is_unique(s: State, k: int, a: int, b: int)
    requires
        lowest_empty(s.grid, k, a),
        lowest_empty(s.grid, k, b),
    ensures
        a == b,
{
}

/// No key breaks a well-formed game: the grid stays rectangular, no empty
/// cell comes to lie below a token, and the entry holds digits only.
pub proof fn law_keys_keep_games_well_formed(s: State, key: Key)
    requires
        s.wf(),
    ensures
        after_key(s, key).wf(),
        after_key(s, key).grid.len() == s.grid.len(),
        width(after_key(s, key).grid) == width(s.grid),
{
    if key == Key::Enter {
        match s.target() {
            Some((r, c)) => {
                lemma_first_empty(s.grid, c, 0);
            },
            None => {},
        }
    }
}

/// No key removes or replaces a token that lies on the grid.
pub proof fn law_tokens_stay(s: State, key: Key, r: int, c: int)
    requires
        s.wf(),
        0 <= r < s.grid.len(),
        0 <= c < width(s.grid),
        !(s.grid[r][c] is Empty),
    ensures
        after_key(s, key).grid[r][c] == s.grid[r][c],
{
    if key == Key::Enter {
        match s.target() {
            Some((row, col)) => {
                lemma_first_empty(s.grid, col, 0);
            },
            None => {},
        }
    }
}

/// The players alternate: after any keys, the player to move is the one who
/// moved first if an even number of tokens was placed, and the other one if
/// an odd number was.
pub proof fn law_players_alternate(s: State, keys: Seq<Key>)
    ensures
        after_keys(s, keys).turn == mover_after(s.turn, placements(s, keys)),
    decreases keys.len(),
{
    if keys.len() > 0 {
        law_players_alternate(s, keys.drop_last());
    }
}

/// From the start of a game, red is to move after an even number of
/// placements and blue after an odd number.
pub proof fn law_red_moves_on_even(rows: nat, cols: nat, keys: Seq<Key>)
    ensures
        after_keys(State::initial(rows, cols), keys).turn == (if placements(
            State::initial(rows, cols),
            keys,
        ) % 2 == 0 {
            Turn::Red
        } else {
            Turn::Blue
        }),
{
    law_players_alternate(State::initial(rows, cols), keys);
}

/// A new game is well formed.
pub proof fn law_new_game_is_well_formed(rows: nat, cols: nat)
    requires
        rows > 0,
        cols > 0,
    ensures
        State::initial(rows, cols).wf(),
        forall|r: int, c: int|
            0 <= r < rows && 0 <= c < cols ==> (#[trigger] State::initial(rows, cols).grid[r][c])
                == Field::Empty,
{
}

/// A token among the first `n` cells of a row has its square among the
/// squares of those cells.
pub proof fn lemma_row_shows_token(row: Seq<Field>, r: int, n: int, c: int)
    requires
        0 <= c < n <= row.len(),
        !(row[c] is Empty),
    ensures
        row_tiles(row, r, n).contains(tile_at(r, c, row[c])),
    decreases n,
{
    let t = tile_at(r, c, row[c]);
    let tiles = row_tiles(row, r, n);
    if c == n - 1 {
        assert(tiles[tiles.len() - 1] == t);
    } else {
        lemma_row_shows_token(row, r, n - 1, c);
        let shorter = row_tiles(row, r, n - 1);
        let i = choose|i: int| 0 <= i < shorter.len() && shorter[i] == t;
        assert(tiles[i] == t);
    }
}

/// Each square of the first `n` cells of a row is the square of a token among
/// them. The result is that token's column.
pub proof fn lemma_row_tile_is_token(row: Seq<Field>, r: int, n: int, i: int) -> (c: int)
    requires
        0 <= n <= row.len(),
        0 <= i < row_tiles(row, r, n).len(),
    ensures
        0 <= c < n,
        !(row[c] is Empty),
        row_tiles(row, r, n)[i] == tile_at(r, c, row[c]),
    decreases n,
{
    if row[n - 1] is Empty {
        lemma_row_tile_is_token(row, r, n - 1, i)
    } else if i == row_tiles(row, r, n - 1).len() {
        n - 1
    } else {
        lemma_row_tile_is_token(row, r, n - 1, i)
    }
}

/// A token in the first `m` rows has its square among the squares of those
/// rows.
pub proof fn lemma_rows_show_token(g: Grid, m: int, r: int, c: int)
    requires
        0 <= r < m <= g.len(),
        0 <= c < g[r].len(),
        !(g[r][c] is Empty),
    ensures
        grid_tiles(g, m).contains(tile_at(r, c, g[r][c])),
    decreases m,
{
    let t = tile_at(r, c, g[r][c]);
    let below = grid_tiles(g, m - 1);
    let top = row_tiles(g[m - 1], m - 1, g[m - 1].len() as int);
    if r == m - 1 {
        lemma_row_shows_token(g[r], r, g[r].len() as int, c);
        let i = choose|i: int| 0 <= i < top.len() && top[i] == t;
        assert((below + top)[below.len() + i] == t);
    } else {
        lemma_rows_show_token(g, m - 1, r, c);
        let i = choose|i: int| 0 <= i < below.len() && below[i] == t;
        assert((below + top)[i] == t);
    }
}

/// Each square of the first `m` rows is the square of a token in them. The
/// result is that token's row and column.
pub proof fn lemma_rows_tile_is_token(g: Grid, m: int, i: int) -> (at: (int, int))
    requires
        0 <= m <= g.len(),
        0 <= i < grid_tiles(g, m).len(),
    ensures
        0 <= at.0 < m,
        0 <= at.1 < g[at.0].len(),
        !(g[at.0][at.1] is Empty),
        grid_tiles(g, m)[i] == tile_at(at.0, at.1, g[at.0][at.1]),
    decreases m,
{
    let below = grid_tiles(g, m - 1);
    if i < below.len() {
        lemma_rows_tile_is_token(g, m - 1, i)
    } else {
        let c = lemma_row_tile_is_token(g[m - 1], m - 1, g[m - 1].len() as int, i - below.len());
        (m - 1, c)
    }
}

/// Drawing is repeatable: what is shown depends on the game alone, so two
/// screens drawn of one game show the same.
pub proof fn law_drawing_is_repeatable(s: State, first: Screen, second: Screen)
    requires
        first@ == screen_of(s),
        second@ == screen_of(s),
    ensures
        first@ == second@,
        first.board.tiles@ == second.board.tiles@,
        first.red.text@ == second.red.text@,
        first.blue.text@ == second.blue.text@,
{
}

/// The canvas shows every token: the square of each cell that is not empty is
/// among its squares.
pub proof fn law_every_token_is_shown(g: Grid, r: int, c: int)
    requires
        rectangular(g),
        0 <= r < g.len(),
        0 <= c < width(g),
        !(g[r][c] is Empty),
    ensures
        canvas_of(g).tiles.contains(tile_at(r, c, g[r][c])),
{
    lemma_rows_show_token(g, g.len() as int, r, c);
}

/// The canvas shows nothing but tokens: each of its squares is the square of a
/// cell that is not empty, so an empty cell has none.
pub proof fn law_only_tokens_are_shown(g: Grid, t: Tile)
    requires
        rectangular(g),
        canvas_of(g).tiles.contains(t),
    ensures
        exists|r: int, c: int|
            0 <= r < g.len() && 0 <= c < width(g) && !(#[trigger] g[r][c] is Empty) && t
                == tile_at(r, c, g[r][c]),
{
    let tiles = canvas_of(g).tiles;
    let i = choose|i: int| 0 <= i < tiles.len() && tiles[i] == t;
    lemma_rows_tile_is_token(g, g.len() as int, i);
}

/// Every square lies on the canvas: it starts at or after the origin and ends
/// before the canvas does, with the gap between two squares to spare.
pub proof fn law_tiles_lie_on_the_canvas(g: Grid, t: Tile)
    requires
        rectangular(g),
        g.len() <= usize::MAX,
        width(g) <= usize::MAX,
        canvas_of(g).tiles.contains(t),
    ensures
        t.width == 40,
        t.height == 40,
        t.x + t.width + 10 <= canvas_of(g).x_bound,
        t.y + t.height + 10 <= canvas_of(g).y_bound,
        t.x % 50 == 0,
        t.y % 50 == 0,
{
    law_only_tokens_are_shown(g, t);
}

} // verus!
