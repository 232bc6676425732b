use game_relay::client::{
    cell_coordinates, cell_from_grid, ClientState, DrawRequest, GameUI, MetaEvent, SocketPlugin,
    SocketRecv, SocketSend,
};
use game_relay::codec::Envelope;
use game_relay::mark::Mark;

#[test]
fn client_starts_passive_as_second() {
    let s = ClientState::new();
    assert_eq!(s.me, Mark::Second);
    assert!(!s.is_your_turn);
    assert_eq!(s.game_finished, None);
    for i in 0..9 {
        assert_eq!(s.board.get(i), None);
    }
}

#[test]
fn session_init_first_takes_the_turn() {
    let mut s = ClientState::new();
    let r = s.handle_server_message(Envelope::SessionInit { assigned: Mark::First });
    assert_eq!(r, None);
    assert_eq!(s.me, Mark::First);
    assert!(s.is_your_turn);
}

#[test]
fn session_init_second_keeps_the_provisional_state() {
    let mut s = ClientState::new();
    let r = s.handle_server_message(Envelope::SessionInit { assigned: Mark::Second });
    assert_eq!(r, None);
    assert_eq!(s.me, Mark::Second);
    assert!(!s.is_your_turn);
}

#[test]
fn opponent_move_lands_on_the_mirror_and_hands_over_the_turn() {
    let mut s = ClientState::new();
    s.handle_server_message(Envelope::SessionInit { assigned: Mark::First });
    s.play(4);
    let r = s.handle_server_message(Envelope::Move { cell: 3 });
    assert_eq!(r, Some(DrawRequest { who: Mark::Second, where_: 3 }));
    assert_eq!(s.board.get(3), Some(Mark::Second));
    assert!(s.is_your_turn);
}

#[test]
fn game_finished_records_the_verdict() {
    let mut s = ClientState::new();
    let r = s.handle_server_message(Envelope::GameFinished { winning_side: true });
    assert_eq!(r, None);
    assert_eq!(s.game_finished, Some(true));
}

#[test]
fn play_is_ignored_out_of_turn() {
    let mut s = ClientState::new();
    assert_eq!(s.play(4), None);
    assert_eq!(s.board.get(4), None);
}

#[test]
fn play_is_ignored_on_an_occupied_cell() {
    let mut s = ClientState::new();
    s.handle_server_message(Envelope::SessionInit { assigned: Mark::First });
    assert!(s.play(4).is_some());
    // opponent answers and it is this side's turn again
    s.handle_server_message(Envelope::Move { cell: 0 });
    assert_eq!(s.play(4), None);
    assert_eq!(s.board.get(4), Some(Mark::First));
}

#[test]
fn play_emits_the_move_envelope_and_draw_request() {
    let mut s = ClientState::new();
    s.handle_server_message(Envelope::SessionInit { assigned: Mark::First });
    let r = s.play(4);
    assert_eq!(
        r,
        Some((Envelope::Move { cell: 4 }, DrawRequest { who: Mark::First, where_: 4 }))
    );
    assert_eq!(s.board.get(4), Some(Mark::First));
    assert!(!s.is_your_turn);
}

#[test]
fn cell_coordinates_walk_the_grid() {
    assert_eq!(cell_coordinates(0), (-100, 100));
    assert_eq!(cell_coordinates(1), (0, 100));
    assert_eq!(cell_coordinates(2), (100, 100));
    assert_eq!(cell_coordinates(4), (0, 0));
    assert_eq!(cell_coordinates(8), (100, -100));
}

#[test]
fn grid_positions_address_row_major_cells() {
    assert_eq!(cell_from_grid(0, 0), 0);
    assert_eq!(cell_from_grid(1, 2), 5);
    assert_eq!(cell_from_grid(2, 2), 8);
}

#[test]
fn searching_modal_is_dismissed_on_opponent_found() {
    assert!(GameUI::dismiss_searching(&vec![
        MetaEvent::GameFinished(false),
        MetaEvent::OpponentFound,
    ]));
    assert!(!GameUI::dismiss_searching(&vec![MetaEvent::GameFinished(true)]));
    assert!(!GameUI::dismiss_searching(&vec![]));
}

#[test]
fn final_modal_takes_the_first_verdict() {
    assert_eq!(
        GameUI::finish_verdict(&vec![
            MetaEvent::OpponentFound,
            MetaEvent::GameFinished(true),
            MetaEvent::GameFinished(false),
        ]),
        Some(true)
    );
    assert_eq!(GameUI::finish_verdict(&vec![MetaEvent::OpponentFound]), None);
    assert_eq!(GameUI::finish_verdict(&vec![]), None);
}

#[test]
fn finish_text_names_the_verdict() {
    assert_eq!(GameUI::finish_text(true), "won");
    assert_eq!(GameUI::finish_text(false), "lost");
}

#[test]
fn socket_receive_decodes_or_drops() {
    let frame = Envelope::Move { cell: 7 }.encode();
    assert_eq!(
        SocketPlugin::receive(&frame),
        Some(SocketRecv(Envelope::Move { cell: 7 }))
    );
    assert_eq!(SocketPlugin::receive(&[0, 0]), None);
    assert_eq!(SocketPlugin::receive(&[]), None);
}

#[test]
fn only_moves_go_out_on_the_socket() {
    assert_eq!(
        SocketPlugin::outgoing(&SocketSend(Envelope::Move { cell: 4 })),
        Some(vec![2, 4])
    );
    assert_eq!(
        SocketPlugin::outgoing(&SocketSend(Envelope::Move { cell: 9 })),
        None
    );
    assert_eq!(
        SocketPlugin::outgoing(&SocketSend(Envelope::SessionInit { assigned: Mark::First })),
        None
    );
    assert_eq!(
        SocketPlugin::outgoing(&SocketSend(Envelope::GameFinished { winning_side: true })),
        None
    );
}
