//! The board of a game: a square grid of cells, each free or owned by one
//! player, and the player whose turn it is.
//!
//! A board is terminal when one player owns a whole row, a whole column or a
//! whole diagonal.
use crate::common::{opponent, symbol_of, Player, PLAYER_ONE_SYMBOL, PLAYER_TWO_SYMBOL};
use crate::parse::{parse_u8, parse_usize, unsigned_value};
use vstd::prelude::*;
use vstd::string::StringExecFns;

verus! {

/// The abstract content of a board: `cells[x][y]` is the owner of the cell in
/// row `x` and column `y`, or `None` when the cell is free.
pub type Cells = Seq<Seq<Option<Player>>>;

/// What a [`Game`] holds, as mathematical values.
pub struct GameView {
    pub cells: Cells,
    pub current: Player,
}

/// Every row has as many cells as there are rows.
pub open spec fn is_square(c: Cells) -> bool {
    forall|i: int| 0 <= i < c.len() ==> #[trigger] c[i].len() == c.len()
}

/// The board of `n` rows with every cell free.
pub open spec fn empty_cells(n: nat) -> Cells {
    Seq::new(n, |i: int| Seq::new(n, |j: int| None::<Player>))
}

/// `p` owns every cell of row `x`.
pub open spec fn row_owned(c: Cells, x: int, p: Player) -> bool {
    forall|y: int| 0 <= y < c.len() ==> #[trigger] c[x][y] == Some(p)
}

/// `p` owns every cell of column `y`.
pub open spec fn column_owned(c: Cells, y: int, p: Player) -> bool {
    forall|x: int| 0 <= x < c.len() ==> #[trigger] c[x][y] == Some(p)
}

/// `p` owns every cell of the diagonal from the top left corner.
pub open spec fn diagonal_owned(c: Cells, p: Player) -> bool {
    forall|i: int| 0 <= i < c.len() ==> #[trigger] c[i][i] == Some(p)
}

/// `p` owns every cell of the diagonal from the top right corner.
pub open spec fn anti_diagonal_owned(c: Cells, p: Player) -> bool {
    forall|i: int| 0 <= i < c.len() ==> #[trigger] c[i][c.len() - 1 - i] == Some(p)
}

/// `p` owns a whole row, column or diagonal.
pub open spec fn owns_a_line(c: Cells, p: Player) -> bool {
    ||| exists|x: int| 0 <= x < c.len() && #[trigger] row_owned(c, x, p)
    ||| exists|y: int| 0 <= y < c.len() && #[trigger] column_owned(c, y, p)
    ||| diagonal_owned(c, p)
    ||| anti_diagonal_owned(c, p)
}

/// The board is terminal: one of the players owns a whole line.
pub open spec fn is_terminal(c: Cells) -> bool {
    owns_a_line(c, Player::PlayerOne) || owns_a_line(c, Player::PlayerTwo)
}

/// The cell `(x, y)` lies on the board.
pub open spec fn in_range(c: Cells, x: int, y: int) -> bool {
    0 <= x < c.len() && 0 <= y < c.len()
}

/// The cell `(x, y)` lies on the board and nobody owns it yet.
pub open spec fn is_free(c: Cells, x: int, y: int) -> bool {
    in_range(c, x, y) && c[x][y] is None
}

/// The board after `p` took the free cell `(x, y)`.
pub open spec fn with_move(c: Cells, x: int, y: int, p: Player) -> Cells {
    c.update(x, c[x].update(y, Some(p)))
}

/// The cell numbered `position` on a board of `n` rows: cells are numbered row
/// by row from zero, so the cell in row `x` and column `y` is `x * n + y`.
pub open spec fn cell_of(position: int, n: int) -> (int, int) {
    (position / n, position % n)
}

/// Why a move was refused.
#[derive(Debug, Clone, Copy, PartialEq, Eq, Structural)]
pub enum CellError {
    /// The cell does not lie on the board.
    OutOfRange,
    /// The cell is owned by a player already.
    AlreadyOccupied,
}

/// What [`Game::apply_move`] returns for the cell numbered `position` of `c`.
pub open spec fn move_outcome(c: Cells, position: int) -> Result<(), CellError> {
    if c.len() == 0 || position >= c.len() * c.len() {
        Err(CellError::OutOfRange)
    } else if c[cell_of(position, c.len() as int).0][cell_of(position, c.len() as int).1] is Some {
        Err(CellError::AlreadyOccupied)
    } else {
        Ok(())
    }
}

/// The board and the player whose turn it is.
#[derive(Debug, Clone)]
pub struct Game {
    grid: Vec<Vec<Option<Player>>>,
    current_player: Player,
}

impl View for Game {
    type V = GameView;

    closed spec fn view(&self) -> GameView {
        GameView {
            cells: cells_of(self.grid),
            current: self.current_player,
        }
    }
}

/// Whether `c` is owned by `p`.
fn owned_by(c: Option<Player>, p: Player) -> (r: bool)
    ensures
        r == (c == Some(p)),
{
    match c {
        Some(q) => q == p,
        None => false,
    }
}

/// The cells of a grid, as values.
spec fn cells_of(grid: Vec<Vec<Option<Player>>>) -> Cells {
    grid@.map_values(|row: Vec<Option<Player>>| row@)
}

/// Whether one player owns the whole row `x`.
fn row_complete(grid: &Vec<Vec<Option<Player>>>, x: usize) -> (r: bool)
    requires
        is_square(cells_of(*grid)),
        x < grid.len(),
    ensures
        r == (row_owned(cells_of(*grid), x as int, Player::PlayerOne) || row_owned(
            cells_of(*grid),
            x as int,
            Player::PlayerTwo,
        )),
{
    let ghost c = cells_of(*grid);
    let n = grid.len();
    let mut all_one = true;
    let mut all_two = true;
    let mut y: usize = 0;
    assert(grid@[x as int]@ == c[x as int]);
    while y < n
        invariant
            c == cells_of(*grid),
            is_square(c),
            n == grid.len(),
            x < n,
            y <= n,
            all_one == (forall|k: int| 0 <= k < y ==> #[trigger] c[x as int][k] == Some(Player::PlayerOne)),
            all_two == (forall|k: int| 0 <= k < y ==> #[trigger] c[x as int][k] == Some(Player::PlayerTwo)),
        decreases n - y,
    {
        assert(c[x as int].len() == n);
        assert(grid@[x as int]@ == c[x as int]);
        let cell = grid[x][y];
        all_one = all_one && owned_by(cell, Player::PlayerOne);
        all_two = all_two && owned_by(cell, Player::PlayerTwo);
        y = y + 1;
    }
    all_one || all_two
}

/// Whether one player owns the whole column `y`.
fn column_complete(grid: &Vec<Vec<Option<Player>>>, y: usize) -> (r: bool)
    requires
        is_square(cells_of(*grid)),
        y < grid.len(),
    ensures
        r == (column_owned(cells_of(*grid), y as int, Player::PlayerOne) || column_owned(
            cells_of(*grid),
            y as int,
            Player::PlayerTwo,
        )),
{
    let ghost c = cells_of(*grid);
    let n = grid.len();
    let mut all_one = true;
    let mut all_two = true;
    let mut x: usize = 0;
    while x < n
        invariant
            c == cells_of(*grid),
            is_square(c),
            n == grid.len(),
            y < n,
            x <= n,
            all_one == (forall|k: int| 0 <= k < x ==> #[trigger] c[k][y as int] == Some(Player::PlayerOne)),
            all_two == (forall|k: int| 0 <= k < x ==> #[trigger] c[k][y as int] == Some(Player::PlayerTwo)),
        decreases n - x,
    {
        assert(c[x as int].len() == n);
        assert(grid@[x as int]@ == c[x as int]);
        let cell = grid[x][y];
        all_one = all_one && owned_by(cell, Player::PlayerOne);
        all_two = all_two && owned_by(cell, Player::PlayerTwo);
        x = x + 1;
    }
    all_one || all_two
}

/// Whether one player owns the whole diagonal from the top left corner.
fn diagonal_complete(grid: &Vec<Vec<Option<Player>>>) -> (r: bool)
    requires
        is_square(cells_of(*grid)),
    ensures
        r == (diagonal_owned(cells_of(*grid), Player::PlayerOne) || diagonal_owned(
            cells_of(*grid),
            Player::PlayerTwo,
        )),
{
    let ghost c = cells_of(*grid);
    let n = grid.len();
    let mut all_one = true;
    let mut all_two = true;
    let mut i: usize = 0;
    while i < n
        invariant
            c == cells_of(*grid),
            is_square(c),
            n == grid.len(),
            i <= n,
            all_one == (forall|k: int| 0 <= k < i ==> #[trigger] c[k][k] == Some(Player::PlayerOne)),
            all_two == (forall|k: int| 0 <= k < i ==> #[trigger] c[k][k] == Some(Player::PlayerTwo)),
        decreases n - i,
    {
        assert(c[i as int].len() == n);
        assert(grid@[i as int]@ == c[i as int]);
        let cell = grid[i][i];
        all_one = all_one && owned_by(cell, Player::PlayerOne);
        all_two = all_two && owned_by(cell, Player::PlayerTwo);
        i = i + 1;
    }
    all_one || all_two
}

/// Whether one player owns the whole diagonal from the top right corner.
fn anti_diagonal_complete(grid: &Vec<Vec<Option<Player>>>) -> (r: bool)
    requires
        is_square(cells_of(*grid)),
    ensures
        r == (anti_diagonal_owned(cells_of(*grid), Player::PlayerOne) || anti_diagonal_owned(
            cells_of(*grid),
            Player::PlayerTwo,
        )),
{
    let ghost c = cells_of(*grid);
    let n = grid.len();
    let mut all_one = true;
    let mut all_two = true;
    let mut i: usize = 0;
    while i < n
        invariant
            c == cells_of(*grid),
            is_square(c),
            n == grid.len(),
            n == c.len(),
            i <= n,
            all_one == (forall|k: int| 0 <= k < i ==> #[trigger] c[k][n - 1 - k] == Some(Player::PlayerOne)),
            all_two == (forall|k: int| 0 <= k < i ==> #[trigger] c[k][n - 1 - k] == Some(Player::PlayerTwo)),
        decreases n - i,
    {
        assert(c[i as int].len() == n);
        assert(grid@[i as int]@ == c[i as int]);
        let cell = grid[i][n - 1 - i];
        all_one = all_one && owned_by(cell, Player::PlayerOne);
        all_two = all_two && owned_by(cell, Player::PlayerTwo);
        i = i + 1;
    }
    all_one || all_two
}

/// Whether one player owns a whole row, column or diagonal of `p_grid`.
fn test_winner(p_grid: &Vec<Vec<Option<Player>>>) -> (r: bool)
    requires
        is_square(cells_of(*p_grid)),
    ensures
        r == is_terminal(cells_of(*p_grid)),
{
    let ghost c = cells_of(*p_grid);
    let n = p_grid.len();
    let mut i: usize = 0;
    while i < n
        invariant
            c == cells_of(*p_grid),
            is_square(c),
            n == p_grid.len(),
            i <= n,
            forall|k: int, p: Player| 0 <= k < i ==> !#[trigger] row_owned(c, k, p),
            forall|k: int, p: Player| 0 <= k < i ==> !#[trigger] column_owned(c, k, p),
        decreases n - i,
    {
        if row_complete(p_grid, i) || column_complete(p_grid, i) {
            return true;
        }
        proof {
            assert forall|k: int, p: Player| 0 <= k < i + 1 implies !#[trigger] row_owned(c, k, p) by {
                if k == i {
                    match p {
                        Player::PlayerOne => {},
                        Player::PlayerTwo => {},
                    }
                }
            }
            assert forall|k: int, p: Player| 0 <= k < i + 1 implies !#[trigger] column_owned(c, k, p) by {
                if k == i {
                    match p {
                        Player::PlayerOne => {},
                        Player::PlayerTwo => {},
                    }
                }
            }
        }
        i = i + 1;
    }
    diagonal_complete(p_grid) || anti_diagonal_complete(p_grid)
}

impl Game {
    /// The board is square.
    pub open spec fn wf(&self) -> bool {
        is_square(self@.cells)
    }

    /// Create a board of `p_size` rows and `p_size` columns, every cell free;
    /// player one plays first.
    pub fn new(p_size: usize) -> (r: Self)
        ensures
            r.wf(),
            r@.cells == empty_cells(p_size as nat),
            r@.current == Player::PlayerOne,
    {
        let mut l_grid: Vec<Vec<Option<Player>>> = Vec::new();
        let mut i: usize = 0;
        while i < p_size
            invariant
                i <= p_size,
                l_grid@.len() == i,
                forall|k: int| 0 <= k < i ==> #[trigger] l_grid@[k]@ == Seq::new(
                    p_size as nat,
                    |j: int| None::<Player>,
                ),
            decreases p_size - i,
        {
            let mut l_row: Vec<Option<Player>> = Vec::new();
            let mut j: usize = 0;
            while j < p_size
                invariant
                    j <= p_size,
                    l_row@ == Seq::new(j as nat, |k: int| None::<Player>),
                decreases p_size - j,
            {
                l_row.push(None);
                j = j + 1;
                assert(l_row@ =~= Seq::new(j as nat, |k: int| None::<Player>));
            }
            l_grid.push(l_row);
            i = i + 1;
        }
        let r = Game { grid: l_grid, current_player: Player::PlayerOne };
        assert(r@.cells =~= empty_cells(p_size as nat));
        r
    }

    /// The number of rows of the board, which is also its number of columns.
    pub fn len(&self) -> (r: usize)
        ensures
            r == self@.cells.len(),
    {
        self.grid.len()
    }

    /// Give the cell `(p_x, p_y)` to `p_value` if it lies on the board and is
    /// free. Returns whether the cell was given; the board is unchanged when
    /// it was not.
    pub fn set_cell(&mut self, p_x: usize, p_y: usize, p_value: Player) -> (r: bool)
        requires
            old(self).wf(),
        ensures
            final(self).wf(),
            r == is_free(old(self)@.cells, p_x as int, p_y as int),
            r ==> final(self)@.cells == with_move(old(self)@.cells, p_x as int, p_y as int, p_value),
            !r ==> final(self)@.cells == old(self)@.cells,
            final(self)@.current == old(self)@.current,
    {
        if p_x < self.grid.len() && p_y < self.grid.len() {
            if self.cell_is_free(p_x, p_y) {
                let ghost c = self@.cells;
                let mut l_row = self.grid[p_x].clone();
                assert(l_row@ == c[p_x as int]);
                l_row.set(p_y, Some(p_value));
                self.grid.set(p_x, l_row);
                assert(self@.cells =~= with_move(c, p_x as int, p_y as int, p_value));
                true
            } else {
                false
            }
        } else {
            false
        }
    }

    /// Give the cell numbered `p_position` (see [`cell_of`]) to `p_player`.
    /// Fails, leaving the board unchanged, when that cell does not lie on the
    /// board or is owned already.
    pub fn apply_move(&mut self, p_position: usize, p_player: Player) -> (r: Result<(), CellError>)
        requires
            old(self).wf(),
        ensures
            final(self).wf(),
            r == move_outcome(old(self)@.cells, p_position as int),
            r is Ok ==> final(self)@.cells == with_move(
                old(self)@.cells,
                cell_of(p_position as int, old(self)@.cells.len() as int).0,
                cell_of(p_position as int, old(self)@.cells.len() as int).1,
                p_player,
            ),
            r is Err ==> final(self)@.cells == old(self)@.cells,
            final(self)@.current == old(self)@.current,
    {
        let n = self.grid.len();
        if n == 0 {
            return Err(CellError::OutOfRange);
        }
        let l_x = p_position / n;
        let l_y = p_position % n;
        assert(p_position as int >= n * n <==> l_x >= n) by (nonlinear_arith)
            requires
                l_x == p_position as int / n as int,
                n > 0,
        ;
        if l_x >= n {
            return Err(CellError::OutOfRange);
        }
        if self.set_cell(l_x, l_y, p_player) {
            Ok(())
        } else {
            Err(CellError::AlreadyOccupied)
        }
    }

    /// The player whose turn it is.
    pub fn current_player(&self) -> (r: Player)
        ensures
            r == self@.current,
    {
        self.current_player
    }

    /// Hand the turn to the other player.
    pub fn toggle_player(&mut self)
        ensures
            final(self)@.current == opponent(old(self)@.current),
            final(self)@.cells == old(self)@.cells,
    {
        self.current_player =
        match self.current_player {
            Player::PlayerOne => Player::PlayerTwo,
            Player::PlayerTwo => Player::PlayerOne,
        };
    }

    /// The symbol of the player whose turn it is.
    pub fn current_symbol(&self) -> (r: &'static str)
        ensures
            r@ == (if self@.current == Player::PlayerOne {
                crate::common::PLAYER_ONE_SYMBOL@
            } else {
                crate::common::PLAYER_TWO_SYMBOL@
            }),
    {
        symbol_of(self.current_player)
    }

    /// Whether one player owns a whole row, column or diagonal.
    pub fn is_over(&self) -> (r: bool)
        requires
            self.wf(),
        ensures
            r == is_terminal(self@.cells),
    {
        test_winner(&self.grid)
    }

    /// Whether the cell `(p_x, p_y)`, which lies on the board, is free.
    fn cell_is_free(&self, p_x: usize, p_y: usize) -> (r: bool)
        requires
            self.wf(),
            in_range(self@.cells, p_x as int, p_y as int),
        ensures
            r == is_free(self@.cells, p_x as int, p_y as int),
    {
        assert(self.grid@[p_x as int]@ == self@.cells[p_x as int]);
        match self.grid[p_x][p_y] {
            Some(_) => false,
            None => true,
        }
    }
}

/// Give the cell numbered `p_cell` (see [`cell_of`]) to `p_value`, if that
/// cell lies on the board and is free. Returns whether it was given.
pub fn change_cell(p_game: &mut Game, p_cell: u8, p_value: Player) -> (r: bool)
    requires
        old(p_game).wf(),
    ensures
        final(p_game).wf(),
        r == (move_outcome(old(p_game)@.cells, p_cell as int) is Ok),
        r ==> final(p_game)@.cells == with_move(
            old(p_game)@.cells,
            cell_of(p_cell as int, old(p_game)@.cells.len() as int).0,
            cell_of(p_cell as int, old(p_game)@.cells.len() as int).1,
            p_value,
        ),
        !r ==> final(p_game)@.cells == old(p_game)@.cells,
        final(p_game)@.current == old(p_game)@.current,
{
    p_game.apply_move(p_cell as usize, p_value).is_ok()
}

/// What became of one line typed by the player whose turn it is.
#[derive(Debug, Clone, Copy, PartialEq, Eq, Structural)]
pub enum TurnEntry {
    /// The player typed `q` to leave the game.
    Quit,
    /// The player took the cell typed.
    Played,
    /// The cell typed is taken or off the board.
    CellUnavailable,
    /// The line is not a cell number.
    BadEntry,
}

/// What [`player_turn`] returns for the line `entry` on board `c`.
pub open spec fn turn_entry_outcome(c: Cells, entry: Seq<char>) -> TurnEntry {
    if entry == seq!['q'] {
        TurnEntry::Quit
    } else {
        match unsigned_value(entry, u8::MAX as nat) {
            None => TurnEntry::BadEntry,
            Some(cell) => if move_outcome(c, cell as int) is Ok {
                TurnEntry::Played
            } else {
                TurnEntry::CellUnavailable
            },
        }
    }
}

/// Play the line `p_entry` typed by the player whose turn it is: `q` leaves
/// the game, a cell number (see [`cell_of`]) takes that cell if it is on the
/// board and free. The board changes only when the player played.
pub fn player_turn(p_game: &mut Game, p_entry: &str) -> (r: TurnEntry)
    requires
        old(p_game).wf(),
    ensures
        final(p_game).wf(),
        r == turn_entry_outcome(old(p_game)@.cells, p_entry@),
        r == TurnEntry::Played ==> final(p_game)@.cells == with_move(
            old(p_game)@.cells,
            cell_of(unsigned_value(p_entry@, u8::MAX as nat)->0 as int, old(p_game)@.cells.len() as int).0,
            cell_of(unsigned_value(p_entry@, u8::MAX as nat)->0 as int, old(p_game)@.cells.len() as int).1,
            old(p_game)@.current,
        ),
        r != TurnEntry::Played ==> final(p_game)@.cells == old(p_game)@.cells,
        final(p_game)@.current == old(p_game)@.current,
{
    if p_entry.unicode_len() == 1 && p_entry.get_char(0) == 'q' {
        assert(p_entry@ =~= seq!['q']);
        return TurnEntry::Quit;
    }
    assert(p_entry@ != seq!['q']) by {
        if p_entry@ == seq!['q'] {
            assert(p_entry@[0] == 'q');
        }
    }
    match parse_u8(p_entry) {
        Some(l_cell) => {
            let l_player = p_game.current_player();
            if change_cell(p_game, l_cell, l_player) {
                TurnEntry::Played
            } else {
                TurnEntry::CellUnavailable
            }
        },
        None => TurnEntry::BadEntry,
    }
}

/// Why a typed grid size was refused.
#[derive(Debug, Clone, Copy, PartialEq, Eq, Structural)]
pub enum GridSizeError {
    /// The line is not a number.
    NotANumber,
    /// The number is not between 3 and 9.
    OutOfRange,
}

/// The smallest grid size accepted.
pub const MIN_GRID_SIZE: usize = 3;

/// The largest grid size accepted.
pub const MAX_GRID_SIZE: usize = 9;

/// What [`grid_size`] returns for the line `entry`.
pub open spec fn grid_size_outcome(entry: Seq<char>) -> Result<usize, GridSizeError> {
    match unsigned_value(entry, usize::MAX as nat) {
        None => Err(GridSizeError::NotANumber),
        Some(v) => if MIN_GRID_SIZE <= v <= MAX_GRID_SIZE {
            Ok(v as usize)
        } else {
            Err(GridSizeError::OutOfRange)
        },
    }
}

/// The grid size that the line `p_entry`, trimmed already, asks for: a number
/// from 3 to 9.
pub fn grid_size(p_entry: &str) -> (r: Result<usize, GridSizeError>)
    ensures
        r == grid_size_outcome(p_entry@),
{
    match parse_usize(p_entry) {
        Some(l_value) => if MIN_GRID_SIZE <= l_value && l_value <= MAX_GRID_SIZE {
            Ok(l_value)
        } else {
            Err(GridSizeError::OutOfRange)
        },
        None => Err(GridSizeError::NotANumber),
    }
}

/// `s` without the white space at both ends, as `str::trim` gives it.
pub uninterp spec fn trimmed(s: Seq<char>) -> Seq<char>;

/// Relies on `str::trim`: the result is the text without leading and
/// trailing white space, which depends on the text alone.
#[verifier::external_body]
fn trim_entry(s: &str) -> (r: &str)
    ensures
        r@ == trimmed(s@),
{
    s.trim()
}

/// Create the board for the line `p_entry` typed by the user, which asks
/// for its size once trimmed; see [`grid_size`].
pub fn create_game(p_entry: &str) -> (r: Result<Game, GridSizeError>)
    ensures
        match grid_size_outcome(trimmed(p_entry@)) {
            Ok(n) => r matches Ok(g) && g.wf() && g@.cells == empty_cells(n as nat) && g@.current
                == Player::PlayerOne,
            Err(e) => r == Err::<Game, GridSizeError>(e),
        },
{
    match grid_size(trim_entry(p_entry)) {
        Ok(l_size) => Ok(Game::new(l_size)),
        Err(e) => Err(e),
    }
}

/// The width that a cell takes in the drawing of a board.
pub const CELL_WIDTH: usize = 5;

/// `k` spaces.
pub open spec fn spaces(k: nat) -> Seq<char> {
    Seq::new(k, |i: int| ' ')
}

/// `s` written `k` times.
pub open spec fn repeated(s: Seq<char>, k: nat) -> Seq<char>
    decreases k,
{
    if k == 0 {
        Seq::empty()
    } else {
        repeated(s, (k - 1) as nat) + s
    }
}

/// The digit that stands for `d`, below ten.
pub open spec fn digit_char(d: nat) -> char {
    ((d + '0' as nat) as u32) as char
}

/// `v` in decimal, without leading zeros.
pub open spec fn decimal(v: nat) -> Seq<char>
    decreases v,
{
    if v < 10 {
        seq![digit_char(v)]
    } else {
        decimal(v / 10).push(digit_char(v % 10))
    }
}

/// `s` centred in a field of [`CELL_WIDTH`] characters, any odd space going
/// to the right; `s` as it is when it fills the field.
pub open spec fn centred(s: Seq<char>) -> Seq<char> {
    if s.len() >= CELL_WIDTH {
        s
    } else {
        let pad = (CELL_WIDTH - s.len()) as nat;
        spaces(pad / 2) + s + spaces((pad - pad / 2) as nat)
    }
}

/// How the cell `(x, y)` of `c` is drawn: the owner's symbol, or the cell's
/// number (see [`cell_of`]) when it is free.
pub open spec fn cell_text(c: Cells, x: int, y: int) -> Seq<char> {
    match c[x][y] {
        Some(Player::PlayerOne) => PLAYER_ONE_SYMBOL@,
        Some(Player::PlayerTwo) => PLAYER_TWO_SYMBOL@,
        None => centred(decimal((x * c.len() + y) as nat)),
    }
}

/// The line between two rows of `n` cells.
pub open spec fn border(n: nat) -> Seq<char> {
    repeated("+-----"@, n) + "+\n"@
}

/// The cells `0..k` of row `x`, each followed by a bar.
pub open spec fn row_cells(c: Cells, x: int, k: nat) -> Seq<char>
    decreases k,
{
    if k == 0 {
        Seq::empty()
    } else {
        row_cells(c, x, (k - 1) as nat) + cell_text(c, x, k - 1) + "|"@
    }
}

/// Row `x` of `c` as drawn, with the border below it.
pub open spec fn row_text(c: Cells, x: int) -> Seq<char> {
    "|"@ + row_cells(c, x, c.len()) + "\n"@ + border(c.len())
}

/// The rows `0..k` of `c` as drawn.
pub open spec fn rows_text(c: Cells, k: nat) -> Seq<char>
    decreases k,
{
    if k == 0 {
        Seq::empty()
    } else {
        rows_text(c, (k - 1) as nat) + row_text(c, k - 1)
    }
}

/// The drawing of board `c`: a boxed grid, one line per row and a border
/// between rows.
pub open spec fn rendered(c: Cells) -> Seq<char> {
    border(c.len()) + rows_text(c, c.len())
}

/// The digit for `d`, below ten.
fn digit_str(d: usize) -> (r: &'static str)
    requires
        d < 10,
    ensures
        r@ == seq![digit_char(d as nat)],
{
    proof {
        reveal_strlit("0");
        reveal_strlit("1");
        reveal_strlit("2");
        reveal_strlit("3");
        reveal_strlit("4");
        reveal_strlit("5");
        reveal_strlit("6");
        reveal_strlit("7");
        reveal_strlit("8");
        reveal_strlit("9");
    }
    if d == 0 {
        "0"
    } else if d == 1 {
        "1"
    } else if d == 2 {
        "2"
    } else if d == 3 {
        "3"
    } else if d == 4 {
        "4"
    } else if d == 5 {
        "5"
    } else if d == 6 {
        "6"
    } else if d == 7 {
        "7"
    } else if d == 8 {
        "8"
    } else {
        "9"
    }
}

/// Append `v` in decimal to `out`.
fn push_decimal(out: &mut String, v: usize)
    ensures
        final(out)@ == old(out)@ + decimal(v as nat),
    decreases v,
{
    if v >= 10 {
        push_decimal(out, v / 10);
    }
    out.append(digit_str(v % 10));
    assert(final(out)@ =~= old(out)@ + decimal(v as nat));
}

/// Append `k` spaces to `out`.
fn push_spaces(out: &mut String, k: usize)
    ensures
        final(out)@ == old(out)@ + spaces(k as nat),
{
    let mut i: usize = 0;
    while i < k
        invariant
            i <= k,
            out@ == old(out)@ + spaces(i as nat),
        decreases k - i,
    {
        proof {
            reveal_strlit(" ");
        }
        out.append(" ");
        i = i + 1;
        assert(out@ =~= old(out)@ + spaces(i as nat));
    }
}

/// Append the border line for `n` cells to `out`.
fn push_border(out: &mut String, n: usize)
    ensures
        final(out)@ == old(out)@ + border(n as nat),
{
    let mut i: usize = 0;
    while i < n
        invariant
            i <= n,
            out@ == old(out)@ + repeated("+-----"@, i as nat),
        decreases n - i,
    {
        out.append("+-----");
        i = i + 1;
        assert(out@ =~= old(out)@ + repeated("+-----"@, i as nat));
    }
    out.append("+\n");
    assert(out@ =~= old(out)@ + border(n as nat));
}

impl Game {
    /// The board drawn as text: see [`rendered`].
    pub fn render(&self) -> (r: String)
        requires
            self.wf(),
            self@.cells.len() * self@.cells.len() <= usize::MAX,
        ensures
            r@ == rendered(self@.cells),
    {
        let ghost c = self@.cells;
        let n = self.grid.len();
        let mut out = String::new();
        push_border(&mut out, n);
        let mut x: usize = 0;
        while x < n
            invariant
                c == self@.cells,
                is_square(c),
                n == c.len(),
                n * n <= usize::MAX,
                x <= n,
                out@ == border(n as nat) + rows_text(c, x as nat),
            decreases n - x,
        {
            let ghost before = out@;
            out.append("|");
            assert(self.grid@[x as int]@ == c[x as int]);
            let mut y: usize = 0;
            while y < n
                invariant
                    c == self@.cells,
                    is_square(c),
                    n == c.len(),
                    n * n <= usize::MAX,
                    x < n,
                    y <= n,
                    self.grid@[x as int]@ == c[x as int],
                    out@ == before + "|"@ + row_cells(c, x as int, y as nat),
                decreases n - y,
            {
                let ghost mid = out@;
                match self.grid[x][y] {
                    Some(p) => {
                        out.append(symbol_of(p));
                    },
                    None => {
                        assert(x * n + y < n * n) by (nonlinear_arith)
                            requires
                                x < n,
                                y < n,
                        ;
                        let label = x * n + y;
                        let mut text = String::new();
                        push_decimal(&mut text, label);
                        let len = text.as_str().unicode_len();
                        if len >= CELL_WIDTH {
                            out.append(text.as_str());
                        } else {
                            let pad = CELL_WIDTH - len;
                            push_spaces(&mut out, pad / 2);
                            out.append(text.as_str());
                            push_spaces(&mut out, pad - pad / 2);
                        }
                    },
                }
                out.append("|");
                y = y + 1;
                assert(out@ =~= before + "|"@ + row_cells(c, x as int, y as nat));
            }
            out.append("\n");
            push_border(&mut out, n);
            x = x + 1;
            assert(out@ =~= border(n as nat) + rows_text(c, x as nat));
        }
        out
    }
}

} // verus!
