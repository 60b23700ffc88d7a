//! The hot-seat turn machine: two players share one keyboard and one screen.
//!
//! The machine alternates between asking a player for a move and testing the
//! board; it stops when a player wins or leaves. Each transition names an
//! action, which works on the board and tells what to show and which event to
//! queue next.
use crate::common::{opponent, turn_prompt, win_notice, Notice, Player};
use crate::game::{is_terminal, Game, GameView, TurnEntry};
use vstd::prelude::*;

verus! {

/// The inputs of the hot-seat machine.
#[derive(Debug, Clone, Copy, PartialEq, Eq, Structural)]
pub enum Event {
    /// The player whose turn it was has played.
    EndTurn,
    /// Nobody won: hand the turn over.
    NextTurn,
    /// A player won.
    EndGame,
    /// Player one is to play.
    PlayerOneTurn,
    /// Player two is to play.
    PlayerTwoTurn,
    /// Leave the game.
    Quit,
}

/// The control position of the hot-seat machine.
#[derive(Debug, Clone, Copy, PartialEq, Eq, Structural)]
pub enum GameWrapper {
    /// Player one is playing.
    PlayerOneTurn,
    /// Player two is playing.
    PlayerTwoTurn,
    /// The board is being tested for a winner.
    TestGameStatus,
    /// The next player is being chosen.
    TestPlayerTurn,
    /// The game is over.
    Quit,
}

/// The action run for a transition.
#[derive(Debug, Clone, Copy, PartialEq, Eq, Structural)]
pub enum Action {
    /// Nothing: the event was ignored.
    Ignore,
    /// Nothing: the game ends.
    Quit,
    /// Hand the turn to the other player; see [`action_next_turn`].
    NextTurn,
    /// Test the board after a move; see [`action_end_turn`].
    EndTurn,
    /// Let player one play; see [`action_player_one`].
    PlayerOne,
    /// Let player two play; see [`action_player_two`].
    PlayerTwo,
}

/// The transition table: the next position and the action for event `e` in
/// position `s`. An event that `s` does not take leaves it as it is.
pub open spec fn transition(s: GameWrapper, e: Event) -> (GameWrapper, Action) {
    match (s, e) {
        (GameWrapper::PlayerOneTurn, Event::EndTurn) => (GameWrapper::TestGameStatus, Action::EndTurn),
        (GameWrapper::PlayerTwoTurn, Event::EndTurn) => (GameWrapper::TestGameStatus, Action::EndTurn),
        (GameWrapper::TestGameStatus, Event::EndGame) => (GameWrapper::Quit, Action::Quit),
        (GameWrapper::TestGameStatus, Event::NextTurn) => (GameWrapper::TestPlayerTurn, Action::NextTurn),
        (GameWrapper::TestPlayerTurn, Event::PlayerOneTurn) => (GameWrapper::PlayerOneTurn, Action::PlayerOne),
        (GameWrapper::TestPlayerTurn, Event::PlayerTwoTurn) => (GameWrapper::PlayerTwoTurn, Action::PlayerTwo),
        (_, Event::Quit) => (GameWrapper::Quit, Action::Quit),
        _ => (s, Action::Ignore),
    }
}

impl GameWrapper {
    /// The position at the start: choosing the next player.
    pub fn new() -> (r: Self)
        ensures
            r == GameWrapper::TestPlayerTurn,
    {
        GameWrapper::TestPlayerTurn
    }

    /// The position at the end.
    pub fn quit() -> (r: Self)
        ensures
            r == GameWrapper::Quit,
    {
        GameWrapper::Quit
    }

    /// Whether the game is over.
    pub fn is_quit(&self) -> (r: bool)
        ensures
            r == (*self == GameWrapper::Quit),
    {
        match self {
            GameWrapper::Quit => true,
            _ => false,
        }
    }

    /// The next position and the action for `event`; see [`transition`].
    /// Every event is taken: one that the position does not list is ignored.
    pub fn step(&self, event: &Event) -> (r: Result<(GameWrapper, Action), ()>)
        ensures
            r == Ok::<(GameWrapper, Action), ()>(transition(*self, *event)),
    {
        match (self, event) {
            (GameWrapper::PlayerOneTurn, Event::EndTurn) => Ok((GameWrapper::TestGameStatus, Action::EndTurn)),
            (GameWrapper::PlayerTwoTurn, Event::EndTurn) => Ok((GameWrapper::TestGameStatus, Action::EndTurn)),
            (GameWrapper::TestGameStatus, Event::EndGame) => Ok((GameWrapper::quit(), Action::Quit)),
            (GameWrapper::TestGameStatus, Event::NextTurn) => Ok((GameWrapper::TestPlayerTurn, Action::NextTurn)),
            (GameWrapper::TestPlayerTurn, Event::PlayerOneTurn) => Ok((GameWrapper::PlayerOneTurn, Action::PlayerOne)),
            (GameWrapper::TestPlayerTurn, Event::PlayerTwoTurn) => Ok((GameWrapper::PlayerTwoTurn, Action::PlayerTwo)),
            (_, Event::Quit) => Ok((GameWrapper::quit(), Action::Quit)),
            (_, _) => Ok((*self, Action::Ignore)),
        }
    }
}

/// Something to show on the screen.
#[derive(Debug, Clone, Copy, PartialEq, Eq, Structural)]
pub enum Output {
    /// A message.
    Message(Notice),
    /// The board as it stands.
    Grid,
}

/// What an action asks of the surrounding program.
#[derive(Debug)]
pub struct Reaction {
    /// What to show, in order.
    pub outputs: Vec<Output>,
    /// The event to queue, if any.
    pub follow_up: Option<Event>,
}

/// Nothing to show and nothing to queue.
fn quiet() -> (r: Reaction)
    ensures
        r.outputs@ == Seq::<Output>::empty(),
        r.follow_up is None,
{
    Reaction { outputs: Vec::new(), follow_up: None }
}

/// The action of an ignored event: nothing.
pub fn action_none(p_game: &mut Game) -> (r: Reaction)
    ensures
        *final(p_game) == *old(p_game),
        r.outputs@ == Seq::<Output>::empty(),
        r.follow_up is None,
{
    quiet()
}

/// The action of the end of the game: nothing.
pub fn action_quit(p_game: &mut Game) -> (r: Reaction)
    ensures
        *final(p_game) == *old(p_game),
        r.outputs@ == Seq::<Output>::empty(),
        r.follow_up is None,
{
    quiet()
}

/// Hand the turn to the other player, say so, show the board, and queue the
/// event of the player who now plays.
pub fn action_next_turn(p_game: &mut Game) -> (r: Reaction)
    ensures
        final(p_game)@.cells == old(p_game)@.cells,
        final(p_game)@.current == opponent(old(p_game)@.current),
        r.outputs@ == seq![Output::Message(Notice::NextTurn), Output::Grid],
        r.follow_up == Some(
            if final(p_game)@.current == Player::PlayerOne {
                Event::PlayerOneTurn
            } else {
                Event::PlayerTwoTurn
            },
        ),
{
    p_game.toggle_player();
    let mut l_outputs: Vec<Output> = Vec::new();
    l_outputs.push(Output::Message(Notice::NextTurn));
    l_outputs.push(Output::Grid);
    let l_event = match p_game.current_player() {
        Player::PlayerOne => Event::PlayerOneTurn,
        Player::PlayerTwo => Event::PlayerTwoTurn,
    };
    Reaction { outputs: l_outputs, follow_up: Some(l_event) }
}

/// Test the board after a move. When it is terminal, show it, announce the
/// player who just played as the winner and queue `EndGame`; otherwise queue
/// `NextTurn`.
pub fn action_end_turn(p_game: &mut Game) -> (r: Reaction)
    requires
        old(p_game).wf(),
    ensures
        *final(p_game) == *old(p_game),
        is_terminal(old(p_game)@.cells) ==> r.outputs@ == seq![
            Output::Grid,
            Output::Message(
                if old(p_game)@.current == Player::PlayerOne {
                    Notice::PlayerOneWins
                } else {
                    Notice::PlayerTwoWins
                },
            ),
        ] && r.follow_up == Some(Event::EndGame),
        !is_terminal(old(p_game)@.cells) ==> r.outputs@ == Seq::<Output>::empty() && r.follow_up
            == Some(Event::NextTurn),
{
    if p_game.is_over() {
        let mut l_outputs: Vec<Output> = Vec::new();
        l_outputs.push(Output::Grid);
        l_outputs.push(Output::Message(win_notice(p_game.current_player())));
        Reaction { outputs: l_outputs, follow_up: Some(Event::EndGame) }
    } else {
        Reaction { outputs: Vec::new(), follow_up: Some(Event::NextTurn) }
    }
}

/// Let the player whose turn it is play: show the prompt for that player.
/// The move is read then played with [`crate::game::player_turn`], and
/// [`turn_event`] gives the event that follows.
fn prompt_current_player(p_game: &Game) -> (r: Reaction)
    ensures
        r.outputs@ == seq![
            Output::Message(
                if p_game@.current == Player::PlayerOne {
                    Notice::PlayerOnePrompt
                } else {
                    Notice::PlayerTwoPrompt
                },
            ),
        ],
        r.follow_up is None,
{
    let mut l_outputs: Vec<Output> = Vec::new();
    l_outputs.push(Output::Message(turn_prompt(p_game.current_player())));
    Reaction { outputs: l_outputs, follow_up: None }
}

/// Player one's turn: show the prompt of the player whose turn it is.
pub fn action_player_one(p_game: &mut Game) -> (r: Reaction)
    ensures
        *final(p_game) == *old(p_game),
        r.outputs@ == seq![
            Output::Message(
                if old(p_game)@.current == Player::PlayerOne {
                    Notice::PlayerOnePrompt
                } else {
                    Notice::PlayerTwoPrompt
                },
            ),
        ],
        r.follow_up is None,
{
    prompt_current_player(p_game)
}

/// Player two's turn: show the prompt of the player whose turn it is.
pub fn action_player_two(p_game: &mut Game) -> (r: Reaction)
    ensures
        *final(p_game) == *old(p_game),
        r.outputs@ == seq![
            Output::Message(
                if old(p_game)@.current == Player::PlayerOne {
                    Notice::PlayerOnePrompt
                } else {
                    Notice::PlayerTwoPrompt
                },
            ),
        ],
        r.follow_up is None,
{
    prompt_current_player(p_game)
}

/// The event that ends a turn after the entry `p_entry`: `EndTurn` once the
/// player played, `Quit` when the player left, none while the player is to
/// type again.
pub fn turn_event(p_entry: TurnEntry) -> (r: Option<Event>)
    ensures
        p_entry == TurnEntry::Played ==> r == Some(Event::EndTurn),
        p_entry == TurnEntry::Quit ==> r == Some(Event::Quit),
        p_entry == TurnEntry::CellUnavailable || p_entry == TurnEntry::BadEntry ==> r is None,
{
    match p_entry {
        TurnEntry::Played => Some(Event::EndTurn),
        TurnEntry::Quit => Some(Event::Quit),
        _ => None,
    }
}

/// The event that lets player `p` play.
pub open spec fn turn_event_of(p: Player) -> Event {
    if p == Player::PlayerOne {
        Event::PlayerOneTurn
    } else {
        Event::PlayerTwoTurn
    }
}

/// The message that tells `p` to play.
pub open spec fn prompt_of(p: Player) -> Notice {
    if p == Player::PlayerOne {
        Notice::PlayerOnePrompt
    } else {
        Notice::PlayerTwoPrompt
    }
}

/// The message that announces that `p` won.
pub open spec fn win_of(p: Player) -> Notice {
    if p == Player::PlayerOne {
        Notice::PlayerOneWins
    } else {
        Notice::PlayerTwoWins
    }
}

/// The game after action `a` ran on `g`.
pub open spec fn game_after(a: Action, g: GameView) -> GameView {
    if a == Action::NextTurn {
        GameView { cells: g.cells, current: opponent(g.current) }
    } else {
        g
    }
}

/// What action `a` shows when it runs on `g`.
pub open spec fn action_outputs(a: Action, g: GameView) -> Seq<Output> {
    match a {
        Action::NextTurn => seq![Output::Message(Notice::NextTurn), Output::Grid],
        Action::EndTurn => if is_terminal(g.cells) {
            seq![Output::Grid, Output::Message(win_of(g.current))]
        } else {
            Seq::empty()
        },
        Action::PlayerOne | Action::PlayerTwo => seq![Output::Message(prompt_of(g.current))],
        _ => Seq::empty(),
    }
}

/// The event that action `a` queues when it runs on `g`.
pub open spec fn action_follow_up(a: Action, g: GameView) -> Option<Event> {
    match a {
        Action::NextTurn => Some(turn_event_of(opponent(g.current))),
        Action::EndTurn => Some(
            if is_terminal(g.cells) {
                Event::EndGame
            } else {
                Event::NextTurn
            },
        ),
        _ => None,
    }
}

/// Take `p_event`: move `p_state` as the table says and run the action of the
/// transition on `p_game`.
pub fn dispatch(p_state: &mut GameWrapper, p_game: &mut Game, p_event: Event) -> (r: Reaction)
    requires
        old(p_game).wf(),
    ensures
        *final(p_state) == transition(*old(p_state), p_event).0,
        final(p_game).wf(),
        final(p_game)@ == game_after(transition(*old(p_state), p_event).1, old(p_game)@),
        r.outputs@ == action_outputs(transition(*old(p_state), p_event).1, old(p_game)@),
        r.follow_up == action_follow_up(transition(*old(p_state), p_event).1, old(p_game)@),
{
    let (l_next, l_action) = match p_state.step(&p_event) {
        Ok(t) => t,
        Err(()) => (*p_state, Action::Ignore),
    };
    *p_state = l_next;
    match l_action {
        Action::Ignore => action_none(p_game),
        Action::Quit => action_quit(p_game),
        Action::NextTurn => action_next_turn(p_game),
        Action::EndTurn => action_end_turn(p_game),
        Action::PlayerOne => action_player_one(p_game),
        Action::PlayerTwo => action_player_two(p_game),
    }
}

} // verus!
