//! The networked session controller.
//!
//! A session moves through a closed set of control positions ([`GameWrapper`])
//! driven by [`Event`]s taken one at a time, in order, from an inbox. For each
//! event the transition table ([`transition`]) gives the next position and
//! the [`Action`] that the surrounding program performs against the display and
//! the network. Events that the table does not list for the current position
//! are ignored: the position stays as it is.
//!
//! Each time the session enters [`GameWrapper::EvaluatingGameStatus`] it looks
//! at the board itself and queues the follow-up event: `GameFinished` when the
//! board is terminal, `ContinueGame` otherwise.
use crate::common::{opponent, Player};
use crate::game::{cell_of, empty_cells, is_terminal, move_outcome, with_move, CellError, Cells, Game};
use std::collections::VecDeque;
use vstd::prelude::*;

verus! {

/// The number of rows and columns of a session's board.
pub const BOARD_SIZE: usize = 3;

/// Which end of the connection this program holds.
#[derive(Debug, Clone, Copy, PartialEq, Eq, Structural)]
pub enum Role {
    /// Not chosen yet.
    Undetermined,
    /// Listens and accepts the peer's connection.
    Host,
    /// Connects to the host.
    Guest,
}

/// The inputs of the session controller.
#[derive(Debug, Clone, Copy, PartialEq, Eq, Structural)]
pub enum Event {
    /// Start by choosing a role.
    SelectRole,
    /// Set up the connection.
    ConnectionRequested,
    /// The connection with the peer is up.
    ConnectionEstablished,
    /// The connection could not be made, or was lost.
    ConnectionFailed,
    /// The board is not terminal: go on with the next turn.
    ContinueGame,
    /// This end plays the next turn.
    MyTurn,
    /// The peer plays the next turn.
    OpponentTurn,
    /// The move of the turn was made.
    TurnFinished,
    /// The game is over.
    GameFinished,
    /// End the session, whatever its position.
    Stop,
}

/// The control position of a session: what it waits to do next.
#[derive(Debug, Clone, Copy, PartialEq, Eq, Structural)]
pub enum GameWrapper {
    /// Nothing done yet.
    Init,
    /// The user chooses a role.
    SelectingRole,
    /// Waiting for the connection with the peer.
    AwaitingConnection,
    /// The board is being tested: the game goes on or is over.
    EvaluatingGameStatus,
    /// The player of the next turn is being chosen.
    ChoosingActivePlayer,
    /// This end plays its move.
    PlayingOwnTurn,
    /// Waiting for the peer's move.
    AwaitingOpponentTurn,
    /// The session is over; it takes no more events.
    Terminated,
}

/// What the surrounding program does for one transition.
#[derive(Debug, Clone, Copy, PartialEq, Eq, Structural)]
pub enum Action {
    /// Nothing: the event was ignored.
    Ignore,
    /// Ask the user for a role and store it with [`StateMachine::select_role`].
    PromptRole,
    /// Show that the connection is being set up.
    ShowConnectionScreen,
    /// Open the connection as the role says (accept or connect), keep it, and
    /// show the board.
    OpenConnection,
    /// Report that the first connection could not be made.
    ReportConnectionError,
    /// Show that a player is being chosen for the next turn.
    ChooseActivePlayer,
    /// Show the final board and the result.
    AnnounceResult,
    /// Ask the local player for a move and apply it with
    /// [`StateMachine::apply_move`].
    PlayOwnTurn,
    /// Receive the peer's move and apply it with [`StateMachine::apply_move`].
    ReceiveOpponentMove,
    /// Send the local move to the peer.
    SendMove,
    /// Show the board.
    RenderBoard,
    /// Release the display and the connection.
    Release,
    /// Report that the connection was lost.
    ReportDisconnect,
}

/// A position in which a game is under way.
pub open spec fn is_mid_game(s: GameWrapper) -> bool {
    ||| s == GameWrapper::EvaluatingGameStatus
    ||| s == GameWrapper::ChoosingActivePlayer
    ||| s == GameWrapper::PlayingOwnTurn
    ||| s == GameWrapper::AwaitingOpponentTurn
}

/// The transition table. `connected` tells whether a connection was ever
/// established in the session, `over` whether the board is terminal. `None`
/// marks an event that the position does not take.
pub open spec fn transition(s: GameWrapper, e: Event, connected: bool, over: bool) -> Option<
    (GameWrapper, Action),
> {
    match e {
        Event::Stop => Some((GameWrapper::Terminated, Action::Release)),
        Event::SelectRole => if s == GameWrapper::Init {
            Some((GameWrapper::SelectingRole, Action::PromptRole))
        } else {
            None
        },
        Event::ConnectionRequested => if s == GameWrapper::SelectingRole {
            Some((GameWrapper::AwaitingConnection, Action::ShowConnectionScreen))
        } else {
            None
        },
        Event::ConnectionEstablished => if s == GameWrapper::AwaitingConnection {
            Some((GameWrapper::EvaluatingGameStatus, Action::OpenConnection))
        } else {
            None
        },
        Event::ConnectionFailed => if s == GameWrapper::AwaitingConnection && !connected {
            Some((GameWrapper::Terminated, Action::ReportConnectionError))
        } else if is_mid_game(s) {
            Some((GameWrapper::AwaitingConnection, Action::ReportDisconnect))
        } else {
            None
        },
        Event::ContinueGame => if s == GameWrapper::EvaluatingGameStatus && !over {
            Some((GameWrapper::ChoosingActivePlayer, Action::ChooseActivePlayer))
        } else {
            None
        },
        Event::GameFinished => if s == GameWrapper::EvaluatingGameStatus {
            Some((GameWrapper::Terminated, Action::AnnounceResult))
        } else {
            None
        },
        Event::MyTurn => if s == GameWrapper::ChoosingActivePlayer {
            Some((GameWrapper::PlayingOwnTurn, Action::PlayOwnTurn))
        } else {
            None
        },
        Event::OpponentTurn => if s == GameWrapper::ChoosingActivePlayer {
            Some((GameWrapper::AwaitingOpponentTurn, Action::ReceiveOpponentMove))
        } else {
            None
        },
        Event::TurnFinished => if s == GameWrapper::PlayingOwnTurn {
            Some((GameWrapper::EvaluatingGameStatus, Action::SendMove))
        } else if s == GameWrapper::AwaitingOpponentTurn {
            Some((GameWrapper::EvaluatingGameStatus, Action::RenderBoard))
        } else {
            None
        },
    }
}

/// The result of one step: the table's entry, or the position unchanged with
/// no action when the table has none.
pub open spec fn step_result(s: GameWrapper, e: Event, connected: bool, over: bool) -> (
    GameWrapper,
    Action,
) {
    match transition(s, e, connected, over) {
        Some(t) => t,
        None => (s, Action::Ignore),
    }
}

impl GameWrapper {
    /// The position of a new session.
    pub fn new() -> (r: Self)
        ensures
            r == GameWrapper::Init,
    {
        GameWrapper::Init
    }

    /// The position of a session that was torn down.
    pub fn free() -> (r: Self)
        ensures
            r == GameWrapper::Terminated,
    {
        GameWrapper::Terminated
    }

    /// The next position and the action for `event`; see [`transition`].
    /// An event that the table does not list leaves the position unchanged.
    pub fn step(&self, event: Event, p_connected: bool, p_over: bool) -> (r: (GameWrapper, Action))
        ensures
            r == step_result(*self, event, p_connected, p_over),
            transition(*self, event, p_connected, p_over) is None ==> r == (*self, Action::Ignore),
    {
        let ignored = (*self, Action::Ignore);
        match event {
            Event::Stop => (GameWrapper::Terminated, Action::Release),
            Event::SelectRole => match self {
                GameWrapper::Init => (GameWrapper::SelectingRole, Action::PromptRole),
                _ => ignored,
            },
            Event::ConnectionRequested => match self {
                GameWrapper::SelectingRole => (GameWrapper::AwaitingConnection, Action::ShowConnectionScreen),
                _ => ignored,
            },
            Event::ConnectionEstablished => match self {
                GameWrapper::AwaitingConnection => (GameWrapper::EvaluatingGameStatus, Action::OpenConnection),
                _ => ignored,
            },
            Event::ConnectionFailed => match self {
                GameWrapper::AwaitingConnection => if p_connected {
                    ignored
                } else {
                    (GameWrapper::Terminated, Action::ReportConnectionError)
                },
                GameWrapper::EvaluatingGameStatus | GameWrapper::ChoosingActivePlayer
                | GameWrapper::PlayingOwnTurn | GameWrapper::AwaitingOpponentTurn => {
                    (GameWrapper::AwaitingConnection, Action::ReportDisconnect)
                },
                _ => ignored,
            },
            Event::ContinueGame => match self {
                GameWrapper::EvaluatingGameStatus => if p_over {
                    ignored
                } else {
                    (GameWrapper::ChoosingActivePlayer, Action::ChooseActivePlayer)
                },
                _ => ignored,
            },
            Event::GameFinished => match self {
                GameWrapper::EvaluatingGameStatus => (GameWrapper::Terminated, Action::AnnounceResult),
                _ => ignored,
            },
            Event::MyTurn => match self {
                GameWrapper::ChoosingActivePlayer => (GameWrapper::PlayingOwnTurn, Action::PlayOwnTurn),
                _ => ignored,
            },
            Event::OpponentTurn => match self {
                GameWrapper::ChoosingActivePlayer => (GameWrapper::AwaitingOpponentTurn, Action::ReceiveOpponentMove),
                _ => ignored,
            },
            Event::TurnFinished => match self {
                GameWrapper::PlayingOwnTurn => (GameWrapper::EvaluatingGameStatus, Action::SendMove),
                GameWrapper::AwaitingOpponentTurn => (GameWrapper::EvaluatingGameStatus, Action::RenderBoard),
                _ => ignored,
            },
        }
    }
}

/// A session's content, as mathematical values.
pub struct SessionView {
    /// The control position.
    pub state: GameWrapper,
    /// The role chosen for this end.
    pub role: Role,
    /// A connection was established at some point of the session.
    pub connected: bool,
    /// The move of the current turn was applied already.
    pub moved: bool,
    /// The player who made the last move, if any move was made.
    pub last_mover: Option<Player>,
    /// The board.
    pub cells: Cells,
    /// The events waiting to be processed, oldest first.
    pub inbox: Seq<Event>,
}

/// The mark that this end places: the host plays player one's, the guest
/// player two's.
pub open spec fn own_mark(role: Role) -> Player {
    if role == Role::Guest {
        Player::PlayerTwo
    } else {
        Player::PlayerOne
    }
}

/// The event that a session queues on entering position `t` with board `c`.
pub open spec fn follow_up(t: GameWrapper, c: Cells) -> Option<Event> {
    if t == GameWrapper::EvaluatingGameStatus {
        Some(if is_terminal(c) { Event::GameFinished } else { Event::ContinueGame })
    } else {
        None
    }
}

/// `q` with `e` appended when there is one.
pub open spec fn queue_after(q: Seq<Event>, e: Option<Event>) -> Seq<Event> {
    match e {
        Some(f) => q.push(f),
        None => q,
    }
}

/// The session after it took the oldest waiting event. A terminated session,
/// or one with nothing waiting, stays as it is.
pub open spec fn process(m: SessionView) -> SessionView {
    if m.state == GameWrapper::Terminated || m.inbox.len() == 0 {
        m
    } else {
        let e = m.inbox[0];
        let rest = m.inbox.drop_first();
        match transition(m.state, e, m.connected, is_terminal(m.cells)) {
            None => SessionView { inbox: rest, ..m },
            Some((t, a)) => SessionView {
                state: t,
                role: m.role,
                connected: m.connected || e == Event::ConnectionEstablished,
                moved: if t == GameWrapper::PlayingOwnTurn || t == GameWrapper::AwaitingOpponentTurn {
                    false
                } else {
                    m.moved
                },
                last_mover: m.last_mover,
                cells: m.cells,
                inbox: queue_after(rest, follow_up(t, m.cells)),
            },
        }
    }
}

/// The session after `e` was sent to it: queued, unless the session is
/// terminated.
pub open spec fn signalled(m: SessionView, e: Event) -> SessionView {
    if m.state == GameWrapper::Terminated {
        m
    } else {
        SessionView { inbox: m.inbox.push(e), ..m }
    }
}

/// What sending `e` to the session `m` returns: the event back when the
/// session is terminated.
pub open spec fn signal_result(m: SessionView, e: Event) -> Result<(), Event> {
    if m.state == GameWrapper::Terminated {
        Err(e)
    } else {
        Ok(())
    }
}

/// The session after it took up to `k` events, one after the other.
pub open spec fn run(m: SessionView, k: nat) -> SessionView
    decreases k,
{
    if k == 0 {
        m
    } else {
        process(run(m, (k - 1) as nat))
    }
}

/// The session of a new controller.
pub open spec fn initial_session() -> SessionView {
    SessionView {
        state: GameWrapper::Init,
        role: Role::Undetermined,
        connected: false,
        moved: false,
        last_mover: None,
        cells: empty_cells(BOARD_SIZE as nat),
        inbox: Seq::empty(),
    }
}

/// Why a move was refused by a session.
#[derive(Debug, Clone, Copy, PartialEq, Eq, Structural)]
pub enum MoveError {
    /// The session is not in a turn, or the turn's move was applied already.
    OutOfTurn,
    /// The cell does not lie on the board.
    OutOfRange,
    /// The cell is owned by a player already.
    AlreadyOccupied,
}

/// The player whose move the session takes now, if any.
pub open spec fn mover(m: SessionView) -> Option<Player> {
    if m.moved {
        None
    } else if m.state == GameWrapper::PlayingOwnTurn {
        Some(own_mark(m.role))
    } else if m.state == GameWrapper::AwaitingOpponentTurn {
        Some(opponent(own_mark(m.role)))
    } else {
        None
    }
}

/// This end plays the next turn: the host opens the game, then the turns
/// alternate with the moves made.
pub open spec fn plays_next(m: SessionView) -> bool {
    match m.last_mover {
        None => m.role != Role::Guest,
        Some(p) => p != own_mark(m.role),
    }
}

/// What [`StateMachine::apply_move`] returns for the cell numbered `position`.
pub open spec fn move_result(m: SessionView, position: int) -> Result<(), MoveError> {
    match mover(m) {
        None => Err(MoveError::OutOfTurn),
        Some(_) => match move_outcome(m.cells, position) {
            Ok(()) => Ok(()),
            Err(CellError::OutOfRange) => Err(MoveError::OutOfRange),
            Err(CellError::AlreadyOccupied) => Err(MoveError::AlreadyOccupied),
        },
    }
}

/// What happened when a session took one event.
#[derive(Debug, Clone, Copy, PartialEq, Eq, Structural)]
pub struct Step {
    /// The event taken.
    pub event: Event,
    /// What the surrounding program is to do for it.
    pub action: Action,
    /// The event that the session queued after it, if any.
    pub follow_up: Option<Event>,
}

/// What a session that is not terminated does with the oldest waiting event.
pub open spec fn step_taken(m: SessionView) -> Step {
    let e = m.inbox[0];
    Step {
        event: e,
        action: step_result(m.state, e, m.connected, is_terminal(m.cells)).1,
        follow_up: match transition(m.state, e, m.connected, is_terminal(m.cells)) {
            Some((t, _)) => follow_up(t, m.cells),
            None => None,
        },
    }
}

/// The session controller: the control position, the data of the session
/// and its inbox.
pub struct StateMachine {
    state: GameWrapper,
    role: Role,
    connected: bool,
    moved: bool,
    last_mover: Option<Player>,
    board: Game,
    inbox: VecDeque<Event>,
}

impl View for StateMachine {
    type V = SessionView;

    closed spec fn view(&self) -> SessionView {
        SessionView {
            state: self.state,
            role: self.role,
            connected: self.connected,
            moved: self.moved,
            last_mover: self.last_mover,
            cells: self.board@.cells,
            inbox: self.inbox@,
        }
    }
}

impl StateMachine {
    /// The board is square.
    pub closed spec fn wf(&self) -> bool {
        self.board.wf()
    }

    /// Append `event` to the inbox. Fails, giving the event back, once the
    /// session is terminated: nothing takes events any more.
    pub fn signal(&mut self, event: Event) -> (r: Result<(), Event>)
        requires
            old(self).wf(),
        ensures
            final(self).wf(),
            final(self)@ == signalled(old(self)@, event),
            r == signal_result(old(self)@, event),
    {
        if self.state == GameWrapper::Terminated {
            return Err(event);
        }
        self.inbox.push_back(event);
        Ok(())
    }

    /// Take the oldest waiting event, move as the table says and queue the
    /// follow-up event. Returns `None`, doing nothing, when the session is
    /// terminated or nothing waits.
    pub fn process_next(&mut self) -> (r: Option<Step>)
        requires
            old(self).wf(),
        ensures
            final(self).wf(),
            final(self)@ == process(old(self)@),
            r == (if old(self)@.state == GameWrapper::Terminated || old(self)@.inbox.len() == 0 {
                None
            } else {
                Some(step_taken(old(self)@))
            }),
    {
        if self.is_terminated() {
            return None;
        }
        let ghost m = self@;
        let event = match self.inbox.pop_front() {
            Some(e) => e,
            None => {
                return None;
            },
        };
        let over = self.board.is_over();
        let (next, action) = self.state.step(event, self.connected, over);
        if action == Action::Ignore {
            // The table lists no such event here
            let ghost t = transition(m.state, event, m.connected, over);
            assert(t is None);
            assert(self@ =~= process(m));
            return Some(Step { event, action, follow_up: None });
        }
        self.state = next;
        if event == Event::ConnectionEstablished {
            self.connected = true;
        }
        if next == GameWrapper::PlayingOwnTurn || next == GameWrapper::AwaitingOpponentTurn {
            self.moved = false;
        }
        let follow = if next == GameWrapper::EvaluatingGameStatus {
            let f = if over {
                Event::GameFinished
            } else {
                Event::ContinueGame
            };
            self.inbox.push_back(f);
            Some(f)
        } else {
            None
        };
        assert(self@ =~= process(m));
        Some(Step { event, action, follow_up: follow })
    }

    /// Store the role chosen by the user. The role is stored only while the
    /// session is selecting it and none was stored before; returns whether it
    /// was stored.
    pub fn select_role(&mut self, p_role: Role) -> (r: bool)
        requires
            old(self).wf(),
        ensures
            final(self).wf(),
            r == (old(self)@.state == GameWrapper::SelectingRole && old(self)@.role
                == Role::Undetermined),
            r ==> final(self)@ == (SessionView { role: p_role, ..old(self)@ }),
            !r ==> final(self)@ == old(self)@,
    {
        if self.state == GameWrapper::SelectingRole && self.role == Role::Undetermined {
            self.role = p_role;
            true
        } else {
            false
        }
    }

    /// Apply the move of the current turn on the cell numbered `p_position`
    /// (see [`cell_of`]): with this end's mark while it plays its own turn,
    /// with the peer's while it waits for the peer. One move is taken per turn.
    pub fn apply_move(&mut self, p_position: usize) -> (r: Result<(), MoveError>)
        requires
            old(self).wf(),
        ensures
            final(self).wf(),
            r == move_result(old(self)@, p_position as int),
            r is Ok ==> final(self)@ == (SessionView {
                cells: with_move(
                    old(self)@.cells,
                    cell_of(p_position as int, old(self)@.cells.len() as int).0,
                    cell_of(p_position as int, old(self)@.cells.len() as int).1,
                    mover(old(self)@)->0,
                ),
                moved: true,
                last_mover: mover(old(self)@),
                ..old(self)@
            }),
            r is Err ==> final(self)@ == old(self)@,
    {
        if self.moved {
            return Err(MoveError::OutOfTurn);
        }
        let own = match self.role {
            Role::Guest => Player::PlayerTwo,
            _ => Player::PlayerOne,
        };
        let mark = match self.state {
            GameWrapper::PlayingOwnTurn => own,
            GameWrapper::AwaitingOpponentTurn => match own {
                Player::PlayerOne => Player::PlayerTwo,
                Player::PlayerTwo => Player::PlayerOne,
            },
            _ => {
                return Err(MoveError::OutOfTurn);
            },
        };
        match self.board.apply_move(p_position, mark) {
            Ok(()) => {
                self.moved = true;
                self.last_mover = Some(mark);
                Ok(())
            },
            Err(CellError::OutOfRange) => Err(MoveError::OutOfRange),
            Err(CellError::AlreadyOccupied) => Err(MoveError::AlreadyOccupied),
        }
    }

    /// Whether this end plays the next turn; see [`plays_next`]. Tells the
    /// program which of `MyTurn` and `OpponentTurn` to send while the session
    /// chooses the active player.
    pub fn is_my_turn(&self) -> (r: bool)
        ensures
            r == plays_next(self@),
    {
        let own = match self.role {
            Role::Guest => Player::PlayerTwo,
            _ => Player::PlayerOne,
        };
        match self.last_mover {
            None => self.role != Role::Guest,
            Some(p) => p != own,
        }
    }

    /// The control position.
    pub fn state(&self) -> (r: GameWrapper)
        ensures
            r == self@.state,
    {
        self.state
    }

    /// The role of this end.
    pub fn role(&self) -> (r: Role)
        ensures
            r == self@.role,
    {
        self.role
    }

    /// The board.
    pub fn board(&self) -> (r: &Game)
        requires
            self.wf(),
        ensures
            r.wf(),
            r@.cells == self@.cells,
    {
        &self.board
    }

    /// Whether the session reached its end.
    pub fn is_terminated(&self) -> (r: bool)
        ensures
            r == (self@.state == GameWrapper::Terminated),
    {
        self.state == GameWrapper::Terminated
    }

    /// The number of events waiting.
    pub fn pending(&self) -> (r: usize)
        ensures
            r == self@.inbox.len(),
    {
        self.inbox.len()
    }
}

/// Create a session controller: at the start, no role, no connection, an empty
/// board of [`BOARD_SIZE`] rows and nothing waiting.
pub fn new() -> (r: StateMachine)
    ensures
        r.wf(),
        r@ == initial_session(),
{
    StateMachine {
        state: GameWrapper::new(),
        role: Role::Undetermined,
        connected: false,
        moved: false,
        last_mover: None,
        board: Game::new(BOARD_SIZE),
        inbox: VecDeque::new(),
    }
}

/// Tear the session down: send `Stop`, then take the waiting events up to
/// it. The session ends terminated. Returns what was done for each event
/// taken, in order: nothing when the session was terminated already.
pub fn free(p_state_machine: &mut StateMachine) -> (r: Vec<Step>)
    requires
        old(p_state_machine).wf(),
    ensures
        final(p_state_machine).wf(),
        final(p_state_machine)@.state == GameWrapper::Terminated,
        final(p_state_machine)@ == run(signalled(old(p_state_machine)@, Event::Stop), r@.len()),
        forall|i: int|
            0 <= i < r@.len() ==> #[trigger] r@[i] == step_taken(
                run(signalled(old(p_state_machine)@, Event::Stop), i as nat),
            ),
        old(p_state_machine)@.state == GameWrapper::Terminated ==> r@.len() == 0,
{
    let _ = p_state_machine.signal(Event::Stop);
    if p_state_machine.is_terminated() {
        return Vec::new();
    }
    let ghost start = p_state_machine@;
    let ghost mut k: nat = (start.inbox.len() - 1) as nat;
    let mut l_steps: Vec<Step> = Vec::new();
    while !p_state_machine.is_terminated()
        invariant
            p_state_machine.wf(),
            p_state_machine@ == run(start, l_steps@.len()),
            forall|i: int| 0 <= i < l_steps@.len() ==> #[trigger] l_steps@[i] == step_taken(run(start, i as nat)),
            p_state_machine@.state != GameWrapper::Terminated ==> k < p_state_machine@.inbox.len()
                && p_state_machine@.inbox[k as int] == Event::Stop,
        decreases k + if p_state_machine@.state == GameWrapper::Terminated {
            0nat
        } else {
            1nat
        },
    {
        let ghost before = p_state_machine@;
        let l_step = p_state_machine.process_next();
        match l_step {
            Some(st) => {
                l_steps.push(st);
            },
            None => {},
        }
        proof {
            if k > 0 {
                assert(before.inbox.drop_first()[k - 1] == Event::Stop);
                k = (k - 1) as nat;
            }
        }
    }
    l_steps
}

/// Send `SelectRole`; see [`StateMachine::signal`].
pub fn ask_for_select_role(p_state_machine: &mut StateMachine) -> (r: Result<(), Event>)
    requires
        old(p_state_machine).wf(),
    ensures
        final(p_state_machine).wf(),
        final(p_state_machine)@ == signalled(old(p_state_machine)@, Event::SelectRole),
        r == signal_result(old(p_state_machine)@, Event::SelectRole),
{
    p_state_machine.signal(Event::SelectRole)
}

/// Send `ConnectionRequested`; see [`StateMachine::signal`].
pub fn ask_for_connection(p_state_machine: &mut StateMachine) -> (r: Result<(), Event>)
    requires
        old(p_state_machine).wf(),
    ensures
        final(p_state_machine).wf(),
        final(p_state_machine)@ == signalled(old(p_state_machine)@, Event::ConnectionRequested),
        r == signal_result(old(p_state_machine)@, Event::ConnectionRequested),
{
    p_state_machine.signal(Event::ConnectionRequested)
}

/// Send `ConnectionEstablished`; see [`StateMachine::signal`].
pub fn signal_connection_established(p_state_machine: &mut StateMachine) -> (r: Result<(), Event>)
    requires
        old(p_state_machine).wf(),
    ensures
        final(p_state_machine).wf(),
        final(p_state_machine)@ == signalled(old(p_state_machine)@, Event::ConnectionEstablished),
        r == signal_result(old(p_state_machine)@, Event::ConnectionEstablished),
{
    p_state_machine.signal(Event::ConnectionEstablished)
}

/// Send `ContinueGame`; see [`StateMachine::signal`].
pub fn signal_to_continue_the_game(p_state_machine: &mut StateMachine) -> (r: Result<(), Event>)
    requires
        old(p_state_machine).wf(),
    ensures
        final(p_state_machine).wf(),
        final(p_state_machine)@ == signalled(old(p_state_machine)@, Event::ContinueGame),
        r == signal_result(old(p_state_machine)@, Event::ContinueGame),
{
    p_state_machine.signal(Event::ContinueGame)
}

/// Send `MyTurn`; see [`StateMachine::signal`].
pub fn signal_to_play(p_state_machine: &mut StateMachine) -> (r: Result<(), Event>)
    requires
        old(p_state_machine).wf(),
    ensures
        final(p_state_machine).wf(),
        final(p_state_machine)@ == signalled(old(p_state_machine)@, Event::MyTurn),
        r == signal_result(old(p_state_machine)@, Event::MyTurn),
{
    p_state_machine.signal(Event::MyTurn)
}

/// Send `OpponentTurn`; see [`StateMachine::signal`].
pub fn ask_for_wait_opponent(p_state_machine: &mut StateMachine) -> (r: Result<(), Event>)
    requires
        old(p_state_machine).wf(),
    ensures
        final(p_state_machine).wf(),
        final(p_state_machine)@ == signalled(old(p_state_machine)@, Event::OpponentTurn),
        r == signal_result(old(p_state_machine)@, Event::OpponentTurn),
{
    p_state_machine.signal(Event::OpponentTurn)
}

/// Send `TurnFinished`; see [`StateMachine::signal`].
pub fn signal_finish_turn(p_state_machine: &mut StateMachine) -> (r: Result<(), Event>)
    requires
        old(p_state_machine).wf(),
    ensures
        final(p_state_machine).wf(),
        final(p_state_machine)@ == signalled(old(p_state_machine)@, Event::TurnFinished),
        r == signal_result(old(p_state_machine)@, Event::TurnFinished),
{
    p_state_machine.signal(Event::TurnFinished)
}

/// Send `GameFinished`; see [`StateMachine::signal`].
pub fn signal_game_finish(p_state_machine: &mut StateMachine) -> (r: Result<(), Event>)
    requires
        old(p_state_machine).wf(),
    ensures
        final(p_state_machine).wf(),
        final(p_state_machine)@ == signalled(old(p_state_machine)@, Event::GameFinished),
        r == signal_result(old(p_state_machine)@, Event::GameFinished),
{
    p_state_machine.signal(Event::GameFinished)
}

/// Send `ConnectionFailed`; see [`StateMachine::signal`].
pub fn signal_error_connection(p_state_machine: &mut StateMachine) -> (r: Result<(), Event>)
    requires
        old(p_state_machine).wf(),
    ensures
        final(p_state_machine).wf(),
        final(p_state_machine)@ == signalled(old(p_state_machine)@, Event::ConnectionFailed),
        r == signal_result(old(p_state_machine)@, Event::ConnectionFailed),
{
    p_state_machine.signal(Event::ConnectionFailed)
}

/// An event that the table does not list for the session's position is
/// dropped: the session takes it and changes in nothing but its inbox.
pub proof fn lemma_unsupported_event_is_dropped(m: SessionView)
    requires
        m.state != GameWrapper::Terminated,
        m.inbox.len() > 0,
        transition(m.state, m.inbox[0], m.connected, is_terminal(m.cells)) is None,
    ensures
        process(m) == (SessionView { inbox: m.inbox.drop_first(), ..m }),
        process(m).state == m.state,
        step_taken(m).action == Action::Ignore,
{
}

/// A terminated session takes no more events: running it changes nothing.
pub proof fn lemma_terminated_is_final(m: SessionView, k: nat)
    requires
        m.state == GameWrapper::Terminated,
    ensures
        run(m, k) == m,
    decreases k,
{
    if k > 0 {
        lemma_terminated_is_final(m, (k - 1) as nat);
    }
}

/// Up to the step that takes it, a `Stop` at position `k` of the inbox moves
/// one place to the front with each event taken, unless the session ended.
proof fn lemma_stop_moves_forward(m: SessionView, k: nat, j: nat)
    requires
        k < m.inbox.len(),
        m.inbox[k as int] == Event::Stop,
        j <= k,
    ensures
        run(m, j).state == GameWrapper::Terminated || (k - j < run(m, j).inbox.len() && run(
            m,
            j,
        ).inbox[k - j] == Event::Stop),
    decreases j,
{
    if j > 0 {
        lemma_stop_moves_forward(m, k, (j - 1) as nat);
        let p = run(m, (j - 1) as nat);
        if p.state != GameWrapper::Terminated {
            assert(p.inbox.drop_first()[k - j] == p.inbox[k - j + 1]);
        }
    }
}

/// `Stop`, sent from any position, ends the session: once the events queued
/// before it were taken, and it was taken too, the session is terminated.
pub proof fn lemma_stop_terminates(m: SessionView, k: nat)
    requires
        k < m.inbox.len(),
        m.inbox[k as int] == Event::Stop,
    ensures
        run(m, k + 1).state == GameWrapper::Terminated,
{
    lemma_stop_moves_forward(m, k, k);
}

/// A game under way has a connection: in every session reached from a new
/// controller by taking events, a mid-game position implies that a
/// connection was established.
pub proof fn lemma_mid_game_is_connected(inbox: Seq<Event>, k: nat)
    ensures
        is_mid_game(run(SessionView { inbox, ..initial_session() }, k).state) ==> run(
            SessionView { inbox, ..initial_session() },
            k,
        ).connected,
    decreases k,
{
    if k > 0 {
        lemma_mid_game_is_connected(inbox, (k - 1) as nat);
    }
}

/// Taking `ConnectionFailed` again while awaiting the connection, once a
/// connection had been made, is a no-op: the session stays awaiting the
/// connection, and only the event leaves the inbox.
pub proof fn lemma_connection_failed_is_idempotent(m: SessionView)
    requires
        m.state == GameWrapper::AwaitingConnection,
        m.connected,
        m.inbox.len() > 0,
        m.inbox[0] == Event::ConnectionFailed,
    ensures
        process(m) == (SessionView { inbox: m.inbox.drop_first(), ..m }),
        process(m).state == GameWrapper::AwaitingConnection,
{
}

/// A connection lost mid-game, reported twice, leaves the session awaiting the
/// connection after each report.
pub proof fn lemma_disconnect_reported_twice(m: SessionView)
    requires
        is_mid_game(m.state),
        m.connected,
        m.inbox.len() >= 2,
        m.inbox[0] == Event::ConnectionFailed,
        m.inbox[1] == Event::ConnectionFailed,
    ensures
        run(m, 1).state == GameWrapper::AwaitingConnection,
        run(m, 2).state == GameWrapper::AwaitingConnection,
{
    assert(run(m, 0) == m);
    let p = run(m, 1);
    assert(p == process(m));
    assert(p.inbox[0] == Event::ConnectionFailed);
    lemma_connection_failed_is_idempotent(p);
}

} // verus!
