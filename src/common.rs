//! Items shared by the board and the state machines.
use vstd::prelude::*;

verus! {

/// The two players of a game.
#[derive(Debug, Clone, Copy, PartialEq, Eq, Structural)]
pub enum Player {
    /// The first player, who places the green X.
    PlayerOne,
    /// The second player, who places the red O.
    PlayerTwo,
}

/// The symbol drawn for player one: a green X.
pub const PLAYER_ONE_SYMBOL: &'static str = "  \x1B[32mX\x1B[0m  ";

/// The symbol drawn for player two: a red O.
pub const PLAYER_TWO_SYMBOL: &'static str = "  \x1B[31mO\x1B[0m  ";

/// The player who is not `p`.
pub open spec fn opponent(p: Player) -> Player {
    match p {
        Player::PlayerOne => Player::PlayerTwo,
        Player::PlayerTwo => Player::PlayerOne,
    }
}

/// The symbol drawn for `p`.
pub fn symbol_of(p: Player) -> (s: &'static str)
    ensures
        p == Player::PlayerOne ==> s@ == PLAYER_ONE_SYMBOL@,
        p == Player::PlayerTwo ==> s@ == PLAYER_TWO_SYMBOL@,
{
    match p {
        Player::PlayerOne => PLAYER_ONE_SYMBOL,
        Player::PlayerTwo => PLAYER_TWO_SYMBOL,
    }
}

/// The messages that the game shows to the players.
#[derive(Debug, Clone, Copy, PartialEq, Eq, Structural)]
pub enum Notice {
    /// Ask for the size of the grid.
    GridSizePrompt,
    /// The size typed is a number out of the accepted range.
    GridSizeOutOfRange,
    /// The size typed is not a number.
    GridSizeBadEntry,
    /// Tell player one to play.
    PlayerOnePrompt,
    /// Tell player two to play.
    PlayerTwoPrompt,
    /// The cell typed is taken or off the board.
    CellUnavailable,
    /// The cell typed is not a number.
    BadEntry,
    /// The turn passes to the other player.
    NextTurn,
    /// Player one won.
    PlayerOneWins,
    /// Player two won.
    PlayerTwoWins,
}

/// The text shown for message `n`.
pub open spec fn notice_text(n: Notice) -> Seq<char> {
    match n {
        Notice::GridSizePrompt => "\x1B[34mEnter the size of the grid you want (between 3 and 9):\x1B[0m "@,
        Notice::GridSizeOutOfRange => "\x1B[41mBad entry, please enter en number greater than 2 and lower than 9. Please retry :\x1B[0m  "@,
        Notice::GridSizeBadEntry => "\x1B[41mBad entry, please retry :\x1B[0m  "@,
        Notice::PlayerOnePrompt => "\x1B[32mPlayer one it is your turn. Enter the cell you want to fill.\x1B[0m \x1B[41mq to quit the game\x1B[0m"@,
        Notice::PlayerTwoPrompt => "\x1B[31mPlayer two it is your turn. Enter the cell you want to fill.\x1B[0m \x1B[41mq to quit the game\x1B[0m"@,
        Notice::CellUnavailable => "\x1B[41mBad entry, the cell is already taken or out of range\x1B[0m"@,
        Notice::BadEntry => "\x1B[41mBad entry, please retry\x1B[0m"@,
        Notice::NextTurn => "Next Turn"@,
        Notice::PlayerOneWins => "Player one WIN !"@,
        Notice::PlayerTwoWins => "Player two WIN !"@,
    }
}

impl Notice {
    /// The text shown for the message.
    pub fn text(&self) -> (r: &'static str)
        ensures
            r@ == notice_text(*self),
    {
        match self {
            Notice::GridSizePrompt => "\x1B[34mEnter the size of the grid you want (between 3 and 9):\x1B[0m ",
            Notice::GridSizeOutOfRange => "\x1B[41mBad entry, please enter en number greater than 2 and lower than 9. Please retry :\x1B[0m  ",
            Notice::GridSizeBadEntry => "\x1B[41mBad entry, please retry :\x1B[0m  ",
            Notice::PlayerOnePrompt => "\x1B[32mPlayer one it is your turn. Enter the cell you want to fill.\x1B[0m \x1B[41mq to quit the game\x1B[0m",
            Notice::PlayerTwoPrompt => "\x1B[31mPlayer two it is your turn. Enter the cell you want to fill.\x1B[0m \x1B[41mq to quit the game\x1B[0m",
            Notice::CellUnavailable => "\x1B[41mBad entry, the cell is already taken or out of range\x1B[0m",
            Notice::BadEntry => "\x1B[41mBad entry, please retry\x1B[0m",
            Notice::NextTurn => "Next Turn",
            Notice::PlayerOneWins => "Player one WIN !",
            Notice::PlayerTwoWins => "Player two WIN !",
        }
    }
}

/// The message that tells `p` to play.
pub fn turn_prompt(p: Player) -> (r: Notice)
    ensures
        r == (if p == Player::PlayerOne {
            Notice::PlayerOnePrompt
        } else {
            Notice::PlayerTwoPrompt
        }),
{
    match p {
        Player::PlayerOne => Notice::PlayerOnePrompt,
        Player::PlayerTwo => Notice::PlayerTwoPrompt,
    }
}

/// The message that announces that `p` won.
pub fn win_notice(p: Player) -> (r: Notice)
    ensures
        r == (if p == Player::PlayerOne {
            Notice::PlayerOneWins
        } else {
            Notice::PlayerTwoWins
        }),
{
    match p {
        Player::PlayerOne => Notice::PlayerOneWins,
        Player::PlayerTwo => Notice::PlayerTwoWins,
    }
}

} // verus!
