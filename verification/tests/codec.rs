use game_relay::codec::{decode, DecodeError, Envelope};
use game_relay::mark::Mark;

#[test]
fn session_init_round_trips() {
    for assigned in [Mark::First, Mark::Second] {
        let env = Envelope::SessionInit { assigned };
        let bytes = env.encode();
        assert_eq!(bytes.len(), 2);
        assert_eq!(decode(&bytes), Ok(env));
    }
}

#[test]
fn every_move_round_trips() {
    for cell in 0..9u32 {
        let env = Envelope::Move { cell };
        let bytes = env.encode();
        assert_eq!(bytes, vec![2, cell as u8]);
        assert_eq!(decode(&bytes), Ok(env));
    }
}

#[test]
fn game_finished_round_trips() {
    for winning_side in [false, true] {
        let env = Envelope::GameFinished { winning_side };
        let bytes = env.encode();
        assert_eq!(decode(&bytes), Ok(env));
    }
}

#[test]
fn exact_wire_bytes() {
    assert_eq!(Envelope::SessionInit { assigned: Mark::First }.encode(), vec![1, 1]);
    assert_eq!(Envelope::SessionInit { assigned: Mark::Second }.encode(), vec![1, 2]);
    assert_eq!(Envelope::Move { cell: 4 }.encode(), vec![2, 4]);
    assert_eq!(Envelope::GameFinished { winning_side: true }.encode(), vec![3, 1]);
    assert_eq!(Envelope::GameFinished { winning_side: false }.encode(), vec![3, 0]);
}

#[test]
fn wrong_length_is_a_length_error() {
    assert_eq!(decode(&[]), Err(DecodeError::Length));
    assert_eq!(decode(&[2]), Err(DecodeError::Length));
    assert_eq!(decode(&[2, 4, 0]), Err(DecodeError::Length));
}

#[test]
fn unknown_tag_is_a_tag_error() {
    assert_eq!(decode(&[0, 0]), Err(DecodeError::Tag));
    assert_eq!(decode(&[4, 1]), Err(DecodeError::Tag));
    assert_eq!(decode(&[255, 255]), Err(DecodeError::Tag));
}

#[test]
fn bad_payload_is_a_payload_error() {
    // a mark byte must be 1 or 2
    assert_eq!(decode(&[1, 0]), Err(DecodeError::Payload));
    assert_eq!(decode(&[1, 3]), Err(DecodeError::Payload));
    // a cell must be below 9
    assert_eq!(decode(&[2, 9]), Err(DecodeError::Payload));
    assert_eq!(decode(&[2, 200]), Err(DecodeError::Payload));
    // a verdict byte must be 0 or 1
    assert_eq!(decode(&[3, 2]), Err(DecodeError::Payload));
}

#[test]
fn valid_reports_well_formedness() {
    assert!(Envelope::Move { cell: 8 }.valid());
    assert!(!Envelope::Move { cell: 9 }.valid());
    assert!(Envelope::SessionInit { assigned: Mark::First }.valid());
    assert!(Envelope::GameFinished { winning_side: false }.valid());
}
