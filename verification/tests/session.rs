use checkers_server::game::Game;
use tokio::sync::mpsc;
use tokio::sync::mpsc::UnboundedReceiver;
use warp::ws::Message;

fn glyph_rows(rows: [&str; 8]) -> String {
    let mut s = String::new();
    for row in rows {
        for ch in row.chars() {
            s.push_str(match ch {
                '.' => "\u{1F7E6}",
                'w' => "\u{26AA}",
                'W' => "\u{2B1C}",
                'b' => "\u{26AB}",
                'B' => "\u{2B1B}",
                _ => panic!("unknown cell shorthand"),
            });
        }
    }
    s
}

fn initial_snapshot_text() -> String {
    let rows = [
        ".b.b.b.b", "b.b.b.b.", ".b.b.b.b", "........", "........", "w.w.w.w.", ".w.w.w.w",
        "w.w.w.w.",
    ];
    format!("{{ \"turn\": \"white\", \"board\": \"{}\" }}", glyph_rows(rows))
}

fn recv_text(rx: &mut UnboundedReceiver<Message>) -> String {
    rx.try_recv()
        .expect("a message should be queued")
        .to_str()
        .expect("a text message")
        .to_string()
}

#[test]
fn admission_gives_black_then_white_then_full() {
    let mut game = Game::default();
    assert!(game.is_empty());

    let (tx_a, mut rx_a) = mpsc::unbounded_channel();
    assert_eq!(game.add_player("A".to_string(), tx_a), Ok(()));
    assert_eq!(recv_text(&mut rx_a), "black");
    assert_eq!(recv_text(&mut rx_a), initial_snapshot_text());
    assert!(rx_a.try_recv().is_err());
    assert!(!game.is_empty());

    let (tx_b, mut rx_b) = mpsc::unbounded_channel();
    assert_eq!(game.add_player("B".to_string(), tx_b), Ok(()));
    assert_eq!(recv_text(&mut rx_b), "white");
    assert_eq!(recv_text(&mut rx_b), initial_snapshot_text());
    // The admission broadcast reaches the already-seated player too.
    assert_eq!(recv_text(&mut rx_a), initial_snapshot_text());

    let (tx_c, mut rx_c) = mpsc::unbounded_channel();
    assert_eq!(game.add_player("C".to_string(), tx_c), Err(()));
    assert_eq!(recv_text(&mut rx_c), "full");
    assert!(rx_c.try_recv().is_err());
    // The rejected attempt alters no slot: the seated players are
    // still removable under their own identities.
    game.remove_player("C");
    assert!(!game.is_empty());
    game.remove_player("A");
    assert!(!game.is_empty());
    game.remove_player("B");
    assert!(game.is_empty());
}

#[test]
fn admission_aborts_when_the_sink_is_closed() {
    let mut game = Game::default();
    let (tx, rx) = mpsc::unbounded_channel::<Message>();
    drop(rx);
    assert_eq!(game.add_player("A".to_string(), tx), Err(()));
    assert!(game.is_empty());
}

#[test]
fn out_of_turn_submission_is_silent() {
    let mut game = Game::default();
    let (tx_a, mut rx_a) = mpsc::unbounded_channel();
    let (tx_b, mut rx_b) = mpsc::unbounded_channel();
    assert_eq!(game.add_player("A".to_string(), tx_a), Ok(()));
    assert_eq!(game.add_player("B".to_string(), tx_b), Ok(()));
    while rx_a.try_recv().is_ok() {}
    while rx_b.try_recv().is_ok() {}

    // A holds Black, and White moves first: nothing happens.
    game.try_move_piece("A", "2,1,3,2");
    assert!(rx_a.try_recv().is_err());
    assert!(rx_b.try_recv().is_err());

    // An unknown identity is ignored as well.
    game.try_move_piece("Z", "5,0,4,1");
    assert!(rx_a.try_recv().is_err());
    assert!(rx_b.try_recv().is_err());

    // A rejected command of the right player broadcasts nothing.
    game.try_move_piece("B", "5,0,5,0");
    assert!(rx_a.try_recv().is_err());
    assert!(rx_b.try_recv().is_err());
}

#[test]
fn accepted_submission_broadcasts_to_both() {
    let mut game = Game::default();
    let (tx_a, mut rx_a) = mpsc::unbounded_channel();
    let (tx_b, mut rx_b) = mpsc::unbounded_channel();
    assert_eq!(game.add_player("A".to_string(), tx_a), Ok(()));
    assert_eq!(game.add_player("B".to_string(), tx_b), Ok(()));
    while rx_a.try_recv().is_ok() {}
    while rx_b.try_recv().is_ok() {}

    game.try_move_piece("B", "5,0,4,1");
    let rows = [
        ".b.b.b.b", "b.b.b.b.", ".b.b.b.b", "........", ".w......", "..w.w.w.", ".w.w.w.w",
        "w.w.w.w.",
    ];
    let expected = format!("{{ \"turn\": \"black\", \"board\": \"{}\" }}", glyph_rows(rows));
    assert_eq!(recv_text(&mut rx_a), expected);
    assert_eq!(recv_text(&mut rx_b), expected);
    assert!(rx_a.try_recv().is_err());
    assert!(rx_b.try_recv().is_err());

    // Now it is Black's seat that may move.
    game.try_move_piece("A", "2,1,3,2");
    assert!(rx_a.try_recv().is_ok());
    assert!(rx_b.try_recv().is_ok());
}

#[test]
fn departure_of_one_player_keeps_the_other() {
    let mut game = Game::default();
    let (tx_a, _rx_a) = mpsc::unbounded_channel();
    let (tx_b, _rx_b) = mpsc::unbounded_channel();
    assert_eq!(game.add_player("A".to_string(), tx_a), Ok(()));
    assert_eq!(game.add_player("B".to_string(), tx_b), Ok(()));
    game.remove_player("A");
    assert!(!game.is_empty());
    game.remove_player("A");
    assert!(!game.is_empty());
    game.remove_player("B");
    assert!(game.is_empty());
}
