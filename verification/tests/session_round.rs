use move_preview::preview::{
    ids_all_unique, maybe_request_preview, on_reply, MoveOption, PendingRequest, PreviewState,
};
use move_preview::session::{
    invalid_selection_message, message_line, Key, KeyResult, Outcome, ReplyResult, Session,
};

fn mv(id: &str, state: &str) -> MoveOption {
    MoveOption {
        id: id.to_string(),
        resulting_state: state.to_string(),
        resulting_player: 'O',
    }
}

fn two_move_session() -> Session {
    let moves = vec![mv("1", "X--------"), mv("2", "-X-------")];
    Session::new("---------".to_string(), 'X', moves)
}

#[test]
fn exact_match_gating_requests_only_full_identifiers() {
    let moves = vec![mv("1", "X--------"), mv("10", "tenth-----")];
    let one = "1".to_string();
    let req = maybe_request_preview(&one, &moves).unwrap();
    assert_eq!(req.requested_for, "1");
    assert_eq!(req.state, "X--------");
    // a strict prefix of "10" alone asks for nothing
    let only_ten = vec![mv("10", "tenth-----")];
    assert!(maybe_request_preview(&one, &only_ten).is_none());
    // no match at all asks for nothing
    let nine = "9".to_string();
    assert!(maybe_request_preview(&nine, &moves).is_none());
}

#[test]
fn replies_count_only_for_the_prefix_typed_now() {
    let pending = PendingRequest {
        requested_for: "1".to_string(),
        state: "X--------".to_string(),
    };
    let stale = on_reply(&pending, &"2".to_string(), "picture".to_string());
    assert!(stale.is_none());
    let live = on_reply(&pending, &"1".to_string(), "top\nbottom\n".to_string()).unwrap();
    assert_eq!(live.text, "top\nbottom\n");
    assert_eq!(live.line_count, 2);
    assert_eq!(live.rendered_for, "1");
}

#[test]
fn a_current_reply_paints_its_lines() {
    let mut s = two_move_session();
    let req = match s.on_key(Key::Char('1')) {
        KeyResult::Edited { request: Some(q), .. } => q,
        _ => panic!("expected a request for move 1"),
    };
    // the oracle answers with a two-line picture while "1" is still typed
    match s.on_oracle_reply(&req.requested_for, "row one\nrow two\n".to_string()) {
        ReplyResult::Painted { cleared, lines } => {
            assert_eq!(cleared, 0);
            assert_eq!(lines, 2);
        }
        ReplyResult::Discarded => panic!("current reply was discarded"),
    }
    match &s.preview {
        Some(PreviewState::Ready(p)) => {
            assert_eq!(p.line_count, 2);
            assert_eq!(p.rendered_for, "1");
        }
        _ => panic!("expected a painted preview"),
    }
}

#[test]
fn superseded_preview_is_never_painted() {
    // The user types "1", changes their mind to "2" before the "1" reply
    // resolves; the "1" render must be discarded even though it arrives later.
    let mut s = two_move_session();
    let r1 = s.on_key(Key::Char('1'));
    let req1 = match r1 {
        KeyResult::Edited { request: Some(q), .. } => q,
        other => panic!("expected a request for move 1, got {:?}", describe(&other)),
    };
    assert_eq!(req1.requested_for, "1");
    assert_eq!(req1.state, "X--------");
    assert!(matches!(s.on_key(Key::Backspace), KeyResult::Edited { .. }));
    let r2 = s.on_key(Key::Char('2'));
    let req2 = match r2 {
        KeyResult::Edited { request: Some(q), .. } => q,
        other => panic!("expected a request for move 2, got {:?}", describe(&other)),
    };
    assert_eq!(req2.requested_for, "2");
    assert_eq!(req2.state, "-X-------");
    // the slow reply to the "1" request arrives now
    let stale = s.on_oracle_reply(&req1.requested_for, "one-line".to_string());
    assert!(matches!(stale, ReplyResult::Discarded));
    assert!(matches!(s.preview, Some(PreviewState::Pending(_))));
    // the reply to the "2" request paints two lines below the query line
    let live = s.on_oracle_reply(&req2.requested_for, "top\nbottom".to_string());
    match live {
        ReplyResult::Painted { cleared, lines } => {
            assert_eq!(cleared, 0);
            assert_eq!(lines, 2);
        }
        ReplyResult::Discarded => panic!("live reply was discarded"),
    }
    match &s.preview {
        Some(PreviewState::Ready(p)) => {
            assert_eq!(p.rendered_for, "2");
            assert_eq!(p.text, "top\nbottom");
            assert_eq!(p.line_count, 2);
        }
        other => panic!("expected a painted preview, got {:?}", other.is_some()),
    }
    assert_eq!(s.max_preview_lines, 2);
    // enter commits to move "2", clearing the two painted lines
    match s.on_key(Key::Enter) {
        KeyResult::Finished { cleared, outcome: Outcome::Committed(m) } => {
            assert_eq!(cleared, 2);
            assert_eq!(m.id, "2");
            assert_eq!(m.resulting_state, "-X-------");
        }
        _ => panic!("expected the round to end committed"),
    }
}

fn describe(r: &KeyResult) -> &'static str {
    match r {
        KeyResult::Ignored => "Ignored",
        KeyResult::Edited { .. } => "Edited",
        KeyResult::Rejected { .. } => "Rejected",
        KeyResult::Finished { .. } => "Finished",
    }
}

#[test]
fn invalid_enter_reports_and_keeps_the_round_open() {
    let mut s = two_move_session();
    assert!(matches!(s.on_key(Key::Char('9')), KeyResult::Edited { request: None, .. }));
    let r = s.on_key(Key::Enter);
    match r {
        KeyResult::Rejected { message } => {
            assert_eq!(
                message,
                "You typed `9`; but you need to select one of the 2 moves listed above"
            );
        }
        _ => panic!("expected the selection to be rejected"),
    }
    // the round is still open, the board untouched, the prefix retained
    assert_eq!(s.board_state, "---------");
    assert_eq!(s.typed_prefix, "9");
    // the user may keep editing: backspace then "1" still commits
    assert!(matches!(s.on_key(Key::Backspace), KeyResult::Edited { .. }));
    assert!(matches!(s.on_key(Key::Char('1')), KeyResult::Edited { request: Some(_), .. }));
    match s.on_key(Key::Enter) {
        KeyResult::Finished { outcome: Outcome::Committed(m), .. } => assert_eq!(m.id, "1"),
        _ => panic!("expected the round to end committed"),
    }
}

#[test]
fn quit_ends_the_round_untouched() {
    let mut s = two_move_session();
    s.on_key(Key::Char('1'));
    match s.on_key(Key::Quit) {
        KeyResult::Finished { cleared, outcome: Outcome::Quit } => assert_eq!(cleared, 0),
        _ => panic!("expected the round to end quit"),
    }
    assert_eq!(s.board_state, "---------");
}

#[test]
fn meaningless_keys_are_ignored() {
    let mut s = two_move_session();
    assert!(matches!(s.on_key(Key::Char('a')), KeyResult::Ignored));
    assert!(matches!(s.on_key(Key::Backspace), KeyResult::Ignored));
    assert_eq!(s.typed_prefix, "");
}

#[test]
fn message_layout_helpers() {
    assert_eq!(message_line(7, 5), 13);
    assert_eq!(
        invalid_selection_message(&"42".to_string(), 12),
        "You typed `42`; but you need to select one of the 12 moves listed above"
    );
}

#[test]
fn identifier_uniqueness_check() {
    assert!(ids_all_unique(&vec![mv("1", "a"), mv("2", "b"), mv("10", "c")]));
    assert!(!ids_all_unique(&vec![mv("1", "a"), mv("2", "b"), mv("1", "c")]));
}
