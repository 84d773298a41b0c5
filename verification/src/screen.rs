//! What a screen shows of a game: a canvas with one square per token, and one
//! panel per player.

use vstd::prelude::*;
use crate::game::{copy_of, App};
use crate::model::{width, Field, Grid, State, Turn};

verus! {

/// The side of a token's square, in canvas units.
pub const TILE_SIZE: u128 = 40;

/// The distance between the corners of neighbouring squares, in canvas units.
pub const TILE_PITCH: u128 = 50;

/// The share of the screen's height that the canvas takes, in percent.
pub const BOARD_SHARE: u16 = 95;

/// The share of the screen's height that the two panels take, in percent.
pub const PANELS_SHARE: u16 = 5;

/// The share of the panels' width that each panel takes, in percent.
pub const PANEL_SHARE: u16 = 50;

/// The heading of the canvas.
pub const BOARD_TITLE: &'static str = "4 in a row";

/// A colour of the screen.
#[derive(Copy, Clone, Debug, PartialEq, Eq, Structural)]
pub enum Color {
    Red,
    Blue,
    White,
}

/// The square of one token on the canvas.
#[derive(Copy, Clone, Debug, PartialEq, Eq, Structural)]
pub struct Tile {
    pub x: u128,
    pub y: u128,
    pub width: u128,
    pub height: u128,
    pub color: Color,
}

/// The canvas of the grid: the squares to draw, and how far the canvas
/// reaches to the right and to the top.
#[derive(Debug, PartialEq, Eq)]
pub struct Canvas {
    pub tiles: Vec<Tile>,
    pub x_bound: u128,
    pub y_bound: u128,
}

/// The panel of one player.
#[derive(Debug, PartialEq, Eq)]
pub struct Panel {
    pub owner: Turn,
    pub color: Color,
    pub text: Vec<char>,
}

/// All that is shown of a game.
#[derive(Debug, PartialEq, Eq)]
pub struct Screen {
    pub board: Canvas,
    pub red: Panel,
    pub blue: Panel,
}

/// A canvas as a plain value.
pub struct CanvasView {
    pub tiles: Seq<Tile>,
    pub x_bound: nat,
    pub y_bound: nat,
}

/// A panel as a plain value.
pub struct PanelView {
    pub owner: Turn,
    pub color: Color,
    pub text: Seq<char>,
}

/// A screen as a plain value.
pub struct ScreenView {
    pub board: CanvasView,
    pub red: PanelView,
    pub blue: PanelView,
}

impl View for Canvas {
    type V = CanvasView;

    open spec fn view(&self) -> CanvasView {
        CanvasView {
            tiles: self.tiles@,
            x_bound: self.x_bound as nat,
            y_bound: self.y_bound as nat,
        }
    }
}

impl View for Panel {
    type V = PanelView;

    open spec fn view(&self) -> PanelView {
        PanelView { owner: self.owner, color: self.color, text: self.text@ }
    }
}

impl View for Screen {
    type V = ScreenView;

    open spec fn view(&self) -> ScreenView {
        ScreenView { board: self.board@, red: self.red@, blue: self.blue@ }
    }
}

impl Turn {
    /// The colour of this player.
    pub open spec fn tint(self) -> Color {
        match self {
            Turn::Red => Color::Red,
            Turn::Blue => Color::Blue,
        }
    }

    /// The colour of this player.
    pub fn color(self) -> (c: Color)
        ensures
            c == self.tint(),
    {
        match self {
            Turn::Red => Color::Red,
            Turn::Blue => Color::Blue,
        }
    }

    /// The heading of this player's panel.
    pub fn title(self) -> (t: &'static str)
        ensures
            t@ == (match self {
                Turn::Red => "Red player"@,
                Turn::Blue => "Blue player"@,
            }),
    {
        match self {
            Turn::Red => "Red player",
            Turn::Blue => "Blue player",
        }
    }
}

/// The square of the token `f` at row `r` and column `c`.
pub open spec fn tile_at(r: int, c: int, f: Field) -> Tile {
    Tile {
        x: (c * 50) as u128,
        y: (r * 50) as u128,
        width: 40,
        height: 40,
        color: match f {
            Field::Blue => Color::Blue,
            _ => Color::Red,
        },
    }
}

/// The squares of the tokens among the first `n` cells of row `r`, from left
/// to right.
pub open spec fn row_tiles(row: Seq<Field>, r: int, n: int) -> Seq<Tile>
    decreases n,
{
    if n <= 0 {
        Seq::empty()
    } else if row[n - 1] is Empty {
        row_tiles(row, r, n - 1)
    } else {
        row_tiles(row, r, n - 1).push(tile_at(r, n - 1, row[n - 1]))
    }
}

/// The squares of the tokens in the first `m` rows, row after row from the
/// bottom.
pub open spec fn grid_tiles(g: Grid, m: int) -> Seq<Tile>
    decreases m,
{
    if m <= 0 {
        Seq::empty()
    } else {
        grid_tiles(g, m - 1) + row_tiles(g[m - 1], m - 1, g[m - 1].len() as int)
    }
}

/// The canvas of a grid: the squares of all its tokens, on a canvas that is
/// one pitch wide for each column and one pitch high for each row.
pub open spec fn canvas_of(g: Grid) -> CanvasView {
    CanvasView {
        tiles: grid_tiles(g, g.len() as int),
        x_bound: width(g) * 50,
        y_bound: g.len() * 50,
    }
}

/// The panel of `owner`: while that player is to move it has the player's
/// colour and shows the entry; otherwise it is white and shows nothing.
pub open spec fn panel_of(s: State, owner: Turn) -> PanelView {
    if s.turn == owner {
        PanelView { owner, color: owner.tint(), text: s.input }
    } else {
        PanelView { owner, color: Color::White, text: Seq::empty() }
    }
}

/// All that is shown of a game.
pub open spec fn screen_of(s: State) -> ScreenView {
    ScreenView {
        board: canvas_of(s.grid),
        red: panel_of(s, Turn::Red),
        blue: panel_of(s, Turn::Blue),
    }
}

impl App {
    /// The panel of `owner`.
    pub fn player_canvas(&self, owner: Turn) -> (panel: Panel)
        ensures
            panel@ == panel_of(self@, owner),
    {
        if self.player() == owner {
            let text = copy_of(self.input());
            Panel { owner, color: owner.color(), text }
        } else {
            Panel { owner, color: Color::White, text: Vec::new() }
        }
    }

    /// The red player's panel.
    pub fn red_player_canvas(&self) -> (panel: Panel)
        ensures
            panel@ == panel_of(self@, Turn::Red),
    {
        self.player_canvas(Turn::Red)
    }

    /// The blue player's panel.
    pub fn blue_player_canvas(&self) -> (panel: Panel)
        ensures
            panel@ == panel_of(self@, Turn::Blue),
    {
        self.player_canvas(Turn::Blue)
    }

    /// The canvas of the grid: one square for each token, none for an empty
    /// cell, row after row from the bottom and from left to right.
    pub fn board_canvas(&self) -> (canvas: Canvas)
        requires
            self.wf(),
        ensures
            canvas@ == canvas_of(self@.grid),
    {
        let rows: usize = self.rows();
        let cols: usize = self.columns();
        let mut tiles: Vec<Tile> = Vec::new();
        let mut i: usize = 0;
        while i < rows
            invariant
                self.wf(),
                rows == self@.grid.len(),
                cols == width(self@.grid),
                i <= rows,
                tiles@ == grid_tiles(self@.grid, i as int),
            decreases rows - i,
        {
            let ghost below = tiles@;
            let ghost row = self@.grid[i as int];
            let mut j: usize = 0;
            while j < cols
                invariant
                    self.wf(),
                    rows == self@.grid.len(),
                    cols == width(self@.grid),
                    i < rows,
                    j <= cols,
                    row == self@.grid[i as int],
                    row.len() == cols,
                    tiles@ == below + row_tiles(row, i as int, j as int),
                decreases cols - j,
            {
                let color = match self.field(i, j) {
                    Field::Empty => None,
                    Field::Red => Some(Color::Red),
                    Field::Blue => Some(Color::Blue),
                };
                if let Some(color) = color {
                    let tile = Tile {
                        x: (j as u128) * TILE_PITCH,
                        y: (i as u128) * TILE_PITCH,
                        width: TILE_SIZE,
                        height: TILE_SIZE,
                        color,
                    };
                    tiles.push(tile);
                    proof {
                        assert(tiles@ =~= below + row_tiles(row, i as int, j + 1));
                    }
                }
                j += 1;
            }
            i += 1;
        }
        Canvas { tiles, x_bound: (cols as u128) * TILE_PITCH, y_bound: (rows as u128) * TILE_PITCH }
    }

    /// All that is shown of the game. The game itself stays as it is, so that
    /// drawing it again shows the same.
    pub fn ui(&self) -> (screen: Screen)
        requires
            self.wf(),
        ensures
            screen@ == screen_of(self@),
    {
        Screen {
            board: self.board_canvas(),
            red: self.red_player_canvas(),
            blue: self.blue_player_canvas(),
        }
    }
}

} // verus!
