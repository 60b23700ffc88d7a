use tictactoe::session::{
    ask_for_connection, ask_for_select_role, ask_for_wait_opponent, free, new, signal_connection_established,
    signal_error_connection, signal_finish_turn, signal_game_finish, signal_to_continue_the_game,
    signal_to_play, Action, Event, GameWrapper, MoveError, Role, StateMachine, Step,
};

const ALL_EVENTS: [Event; 10] = [
    Event::SelectRole,
    Event::ConnectionRequested,
    Event::ConnectionEstablished,
    Event::ConnectionFailed,
    Event::ContinueGame,
    Event::MyTurn,
    Event::OpponentTurn,
    Event::TurnFinished,
    Event::GameFinished,
    Event::Stop,
];

const ALL_STATES: [GameWrapper; 8] = [
    GameWrapper::Init,
    GameWrapper::SelectingRole,
    GameWrapper::AwaitingConnection,
    GameWrapper::EvaluatingGameStatus,
    GameWrapper::ChoosingActivePlayer,
    GameWrapper::PlayingOwnTurn,
    GameWrapper::AwaitingOpponentTurn,
    GameWrapper::Terminated,
];

/// Take every waiting event, playing the moves that `moves` lists for the
/// turns in order; returns the steps taken.
fn drain(sm: &mut StateMachine, role: Role, moves: &mut Vec<usize>) -> Vec<Step> {
    let mut steps = Vec::new();
    while let Some(step) = sm.process_next() {
        match step.action {
            Action::PromptRole => assert!(sm.select_role(role)),
            Action::PlayOwnTurn | Action::ReceiveOpponentMove => {
                let cell = moves.remove(0);
                assert_eq!(sm.apply_move(cell), Ok(()));
            }
            _ => {}
        }
        steps.push(step);
    }
    steps
}

fn into_game(role: Role) -> StateMachine {
    let mut sm = new();
    ask_for_select_role(&mut sm).unwrap();
    ask_for_connection(&mut sm).unwrap();
    signal_connection_established(&mut sm).unwrap();
    drain(&mut sm, role, &mut Vec::new());
    assert_eq!(sm.state(), GameWrapper::ChoosingActivePlayer);
    sm
}

#[test]
fn table_rows() {
    let t = |s: GameWrapper, e: Event| s.step(e, false, false);
    assert_eq!(t(GameWrapper::Init, Event::SelectRole), (GameWrapper::SelectingRole, Action::PromptRole));
    assert_eq!(
        t(GameWrapper::SelectingRole, Event::ConnectionRequested),
        (GameWrapper::AwaitingConnection, Action::ShowConnectionScreen)
    );
    assert_eq!(
        t(GameWrapper::AwaitingConnection, Event::ConnectionEstablished),
        (GameWrapper::EvaluatingGameStatus, Action::OpenConnection)
    );
    assert_eq!(
        t(GameWrapper::AwaitingConnection, Event::ConnectionFailed),
        (GameWrapper::Terminated, Action::ReportConnectionError)
    );
    assert_eq!(
        t(GameWrapper::EvaluatingGameStatus, Event::ContinueGame),
        (GameWrapper::ChoosingActivePlayer, Action::ChooseActivePlayer)
    );
    assert_eq!(
        t(GameWrapper::EvaluatingGameStatus, Event::GameFinished),
        (GameWrapper::Terminated, Action::AnnounceResult)
    );
    assert_eq!(t(GameWrapper::ChoosingActivePlayer, Event::MyTurn), (GameWrapper::PlayingOwnTurn, Action::PlayOwnTurn));
    assert_eq!(
        t(GameWrapper::ChoosingActivePlayer, Event::OpponentTurn),
        (GameWrapper::AwaitingOpponentTurn, Action::ReceiveOpponentMove)
    );
    assert_eq!(t(GameWrapper::PlayingOwnTurn, Event::TurnFinished), (GameWrapper::EvaluatingGameStatus, Action::SendMove));
    assert_eq!(
        t(GameWrapper::AwaitingOpponentTurn, Event::TurnFinished),
        (GameWrapper::EvaluatingGameStatus, Action::RenderBoard)
    );
    for s in [
        GameWrapper::EvaluatingGameStatus,
        GameWrapper::ChoosingActivePlayer,
        GameWrapper::PlayingOwnTurn,
        GameWrapper::AwaitingOpponentTurn,
    ] {
        assert_eq!(t(s, Event::ConnectionFailed), (GameWrapper::AwaitingConnection, Action::ReportDisconnect));
    }
    for s in ALL_STATES {
        assert_eq!(t(s, Event::Stop), (GameWrapper::Terminated, Action::Release));
    }
}

#[test]
fn guarded_rows() {
    // once connected, a failure while awaiting the connection is ignored
    assert_eq!(
        GameWrapper::AwaitingConnection.step(Event::ConnectionFailed, true, false),
        (GameWrapper::AwaitingConnection, Action::Ignore)
    );
    // a terminal board does not continue
    assert_eq!(
        GameWrapper::EvaluatingGameStatus.step(Event::ContinueGame, true, true),
        (GameWrapper::EvaluatingGameStatus, Action::Ignore)
    );
}

#[test]
fn unsupported_pairs_leave_the_state_unchanged() {
    let mut listed = 0;
    for s in ALL_STATES {
        for e in ALL_EVENTS {
            for connected in [false, true] {
                for over in [false, true] {
                    let (next, action) = s.step(e, connected, over);
                    if action == Action::Ignore {
                        assert_eq!(next, s);
                    } else {
                        listed += 1;
                    }
                }
            }
        }
    }
    // 8 Stop rows, 8 fixed rows, 4 mid-game failures, then the guarded failure and
    // continuation, each listed for two of the four flag settings
    assert_eq!(listed, 4 * (8 + 8 + 4) + 2 + 2);
}

#[test]
fn any_event_sequence_runs_without_failing() {
    let mut seed: u64 = 12345;
    for _ in 0..200 {
        let mut sm = new();
        for _ in 0..40 {
            seed = seed.wrapping_mul(6364136223846793005).wrapping_add(1442695040888963407);
            let e = ALL_EVENTS[((seed >> 33) % 9) as usize];
            let _ = sm.signal(e);
            let before = sm.state();
            if let Some(step) = sm.process_next() {
                if step.action == Action::Ignore {
                    assert_eq!(sm.state(), before);
                }
            }
            let _ = sm.apply_move(((seed >> 20) % 10) as usize);
            let _ = sm.select_role(Role::Guest);
        }
    }
}

#[test]
fn new_session_starts_empty() {
    let sm = new();
    assert_eq!(sm.state(), GameWrapper::Init);
    assert_eq!(sm.role(), Role::Undetermined);
    assert_eq!(sm.pending(), 0);
    assert!(!sm.is_terminated());
    assert_eq!(sm.board().len(), 3);
    assert_eq!(GameWrapper::new(), GameWrapper::Init);
    assert_eq!(GameWrapper::free(), GameWrapper::Terminated);
}

#[test]
fn scripted_session_ends_once_after_two_moves() {
    let mut sm = new();
    for e in [
        Event::SelectRole,
        Event::ConnectionRequested,
        Event::ConnectionEstablished,
        Event::ContinueGame,
        Event::MyTurn,
        Event::TurnFinished,
        Event::ContinueGame,
        Event::OpponentTurn,
        Event::TurnFinished,
        Event::GameFinished,
    ] {
        sm.signal(e).unwrap();
    }
    let mut moves = vec![0, 4];
    let mut moved = 0;
    let mut terminations = 0;
    loop {
        let before = sm.state();
        let step = match sm.process_next() {
            Some(step) => step,
            None => break,
        };
        match step.action {
            Action::PromptRole => assert!(sm.select_role(Role::Host)),
            Action::PlayOwnTurn | Action::ReceiveOpponentMove => {
                assert_eq!(sm.apply_move(moves.remove(0)), Ok(()));
                moved += 1;
            }
            _ => {}
        }
        if before != GameWrapper::Terminated && sm.state() == GameWrapper::Terminated {
            terminations += 1;
        }
    }
    assert!(sm.is_terminated());
    assert_eq!(terminations, 1);
    assert_eq!(moved, 2);
    assert!(!sm.board().is_over());
    let text = sm.board().render();
    assert!(text.contains(tictactoe::common::PLAYER_ONE_SYMBOL));
    assert!(text.contains(tictactoe::common::PLAYER_TWO_SYMBOL));
}

#[test]
fn host_session_won_by_the_guest_finishes_once() {
    let mut sm = new();
    // host: 0, 1, 3; guest: 4, 2, 6 completes the diagonal 2-4-6
    let mut moves = vec![0, 4, 1, 2, 3, 6];
    let mut steps = Vec::new();
    let mut send = |sm: &mut StateMachine, e: Event, moves: &mut Vec<usize>| {
        sm.signal(e).unwrap();
        steps.extend(drain(sm, Role::Host, moves));
    };
    send(&mut sm, Event::SelectRole, &mut moves);
    send(&mut sm, Event::ConnectionRequested, &mut moves);
    send(&mut sm, Event::ConnectionEstablished, &mut moves);
    for turn in 0..6 {
        send(&mut sm, Event::ContinueGame, &mut moves);
        let e = if turn % 2 == 0 { Event::MyTurn } else { Event::OpponentTurn };
        send(&mut sm, e, &mut moves);
        if turn < 5 {
            send(&mut sm, Event::TurnFinished, &mut moves);
            assert!(!sm.board().is_over());
            assert_eq!(sm.state(), GameWrapper::ChoosingActivePlayer);
        }
    }
    assert_eq!(sm.role(), Role::Host);
    sm.signal(Event::TurnFinished).unwrap();
    assert!(sm.board().is_over());
    steps.extend(drain(&mut sm, Role::Host, &mut moves));
    assert!(sm.is_terminated());
    assert!(moves.is_empty());
    let finished: Vec<&Step> = steps.iter().filter(|s| s.follow_up == Some(Event::GameFinished)).collect();
    assert_eq!(finished.len(), 1);
    assert_eq!(steps.iter().filter(|s| s.event == Event::GameFinished).count(), 1);
    assert_eq!(steps.last().unwrap().action, Action::AnnounceResult);
    // nothing is taken after the end
    assert_eq!(sm.signal(Event::ContinueGame), Err(Event::ContinueGame));
    assert_eq!(sm.process_next(), None);
}

#[test]
fn repeated_connection_failure_is_a_no_op() {
    let mut sm = into_game(Role::Guest);
    signal_error_connection(&mut sm).unwrap();
    let steps = drain(&mut sm, Role::Guest, &mut Vec::new());
    assert_eq!(steps[0].action, Action::ReportDisconnect);
    assert_eq!(sm.state(), GameWrapper::AwaitingConnection);
    signal_error_connection(&mut sm).unwrap();
    let steps = drain(&mut sm, Role::Guest, &mut Vec::new());
    assert_eq!(steps[0].action, Action::Ignore);
    assert_eq!(sm.state(), GameWrapper::AwaitingConnection);
    // the peer comes back: the game goes on
    signal_connection_established(&mut sm).unwrap();
    drain(&mut sm, Role::Guest, &mut Vec::new());
    assert_eq!(sm.state(), GameWrapper::ChoosingActivePlayer);
}

#[test]
fn first_connection_failure_ends_the_session() {
    let mut sm = new();
    ask_for_select_role(&mut sm).unwrap();
    ask_for_connection(&mut sm).unwrap();
    signal_error_connection(&mut sm).unwrap();
    let steps = drain(&mut sm, Role::Host, &mut Vec::new());
    assert_eq!(steps[2].action, Action::ReportConnectionError);
    assert!(sm.is_terminated());
    assert_eq!(signal_to_play(&mut sm), Err(Event::MyTurn));
}

#[test]
fn stop_from_every_position_terminates_after_queued_events() {
    // position reached by each prefix of a full game
    let script = [
        Event::SelectRole,
        Event::ConnectionRequested,
        Event::ConnectionEstablished,
        Event::MyTurn,
        Event::TurnFinished,
        Event::OpponentTurn,
    ];
    for k in 0..=script.len() {
        let mut sm = new();
        for (i, e) in script[..k].iter().enumerate() {
            sm.signal(*e).unwrap();
            drain(&mut sm, Role::Host, &mut vec![i]);
        }
        // events queued before Stop are taken first
        signal_to_continue_the_game(&mut sm).unwrap();
        signal_finish_turn(&mut sm).unwrap();
        let steps = free(&mut sm);
        assert!(sm.is_terminated());
        assert_eq!(steps.last().unwrap().event, Event::Stop);
        assert_eq!(steps.last().unwrap().action, Action::Release);
        assert_eq!(steps[0].event, Event::ContinueGame);
        assert!(free(&mut sm).is_empty());
    }
}

#[test]
fn stop_waits_behind_queued_events() {
    let mut sm = new();
    ask_for_select_role(&mut sm).unwrap();
    ask_for_connection(&mut sm).unwrap();
    let steps = free(&mut sm);
    let events: Vec<Event> = steps.iter().map(|s| s.event).collect();
    assert_eq!(events, vec![Event::SelectRole, Event::ConnectionRequested, Event::Stop]);
    assert!(sm.is_terminated());
}

#[test]
fn moves_follow_the_turn() {
    let mut sm = into_game(Role::Guest);
    assert_eq!(sm.apply_move(0), Err(MoveError::OutOfTurn));
    signal_to_play(&mut sm).unwrap();
    drain(&mut sm, Role::Guest, &mut vec![4]);
    // one move per turn
    assert_eq!(sm.apply_move(0), Err(MoveError::OutOfTurn));
    signal_finish_turn(&mut sm).unwrap();
    drain(&mut sm, Role::Guest, &mut Vec::new());
    ask_for_wait_opponent(&mut sm).unwrap();
    sm.process_next().unwrap();
    assert_eq!(sm.apply_move(9), Err(MoveError::OutOfRange));
    assert_eq!(sm.apply_move(4), Err(MoveError::AlreadyOccupied));
    assert_eq!(sm.apply_move(8), Ok(()));
    // the guest plays player two's mark, the host player one's
    let mut g = tictactoe::game::Game::new(3);
    assert!(g.set_cell(1, 1, tictactoe::common::Player::PlayerTwo));
    assert!(g.set_cell(2, 2, tictactoe::common::Player::PlayerOne));
    assert_eq!(sm.board().render(), g.render());
}

#[test]
fn turns_alternate_from_the_host() {
    let mut sm = into_game(Role::Guest);
    assert!(!sm.is_my_turn());
    ask_for_wait_opponent(&mut sm).unwrap();
    drain(&mut sm, Role::Guest, &mut vec![0]);
    assert!(sm.is_my_turn());
    signal_finish_turn(&mut sm).unwrap();
    drain(&mut sm, Role::Guest, &mut Vec::new());
    signal_to_play(&mut sm).unwrap();
    let mut moves = vec![1];
    drain(&mut sm, Role::Guest, &mut moves);
    assert!(moves.is_empty());
    assert!(!sm.is_my_turn());
    let host = into_game(Role::Host);
    assert!(host.is_my_turn());
}

#[test]
fn role_is_stored_once() {
    let mut sm = new();
    assert!(!sm.select_role(Role::Host));
    ask_for_select_role(&mut sm).unwrap();
    sm.process_next().unwrap();
    assert!(sm.select_role(Role::Guest));
    assert!(!sm.select_role(Role::Host));
    assert_eq!(sm.role(), Role::Guest);
}

#[test]
fn game_finished_ends_an_evaluation() {
    let mut sm = into_game(Role::Host);
    signal_to_play(&mut sm).unwrap();
    drain(&mut sm, Role::Host, &mut vec![0]);
    signal_finish_turn(&mut sm).unwrap();
    signal_game_finish(&mut sm).unwrap();
    let steps = drain(&mut sm, Role::Host, &mut Vec::new());
    assert_eq!(steps[0].follow_up, Some(Event::ContinueGame));
    assert_eq!(steps[1].action, Action::AnnounceResult);
    assert!(sm.is_terminated());
}
