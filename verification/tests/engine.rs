use checkers_server::checkers::Checkers;
use checkers_server::checkers::RuleError;

fn board_glyphs(rows: [&str; 8]) -> String {
    let mut s = String::new();
    for row in rows {
        assert_eq!(row.len(), 8);
        for ch in row.chars() {
            s.push_str(match ch {
                '.' => "\u{1F7E6}",
                'w' => "\u{26AA}",
                'W' => "\u{2B1C}",
                'b' => "\u{26AB}",
                'B' => "\u{2B1B}",
                _ => panic!("unknown cell shorthand"),
            });
        }
    }
    s
}

fn snap(turn: &str, just_take: Option<(usize, usize)>, rows: [&str; 8]) -> String {
    match just_take {
        Some((r, c)) => format!(
            "{{ \"turn\": \"{}\", \"just_take\": [{}, {}], \"board\": \"{}\" }}",
            turn,
            r,
            c,
            board_glyphs(rows)
        ),
        None => format!(
            "{{ \"turn\": \"{}\", \"board\": \"{}\" }}",
            turn,
            board_glyphs(rows)
        ),
    }
}

const INITIAL_ROWS: [&str; 8] = [
    ".b.b.b.b", "b.b.b.b.", ".b.b.b.b", "........", "........", "w.w.w.w.", ".w.w.w.w",
    "w.w.w.w.",
];

#[test]
fn initial_snapshot() {
    let c = Checkers::default();
    assert!(!c.is_black_turn());
    assert_eq!(c.to_string(), snap("white", None, INITIAL_ROWS));
}

#[test]
fn simple_move_flips_turn() {
    let mut c = Checkers::default();
    assert_eq!(c.try_move_piece("5,0,4,1"), Ok(()));
    assert!(c.is_black_turn());
    let rows = [
        ".b.b.b.b", "b.b.b.b.", ".b.b.b.b", "........", ".w......", "..w.w.w.", ".w.w.w.w",
        "w.w.w.w.",
    ];
    assert_eq!(c.to_string(), snap("black", None, rows));
}

#[test]
fn wrong_turn_leaves_state_unchanged() {
    let mut c = Checkers::default();
    assert_eq!(c.try_move_piece("2,1,3,2"), Err(RuleError::WrongTurn));
    assert_eq!(c.to_string(), snap("white", None, INITIAL_ROWS));
}

#[test]
fn each_rejection_names_its_reason_and_mutates_nothing() {
    let mut c = Checkers::default();
    assert_eq!(c.try_move_piece("garbage"), Err(RuleError::BadFormat));
    assert_eq!(c.try_move_piece("5,0,4,4"), Err(RuleError::NonDiagonal));
    assert_eq!(c.try_move_piece("3,3,2,2"), Err(RuleError::EmptySource));
    assert_eq!(c.try_move_piece("6,1,5,0"), Err(RuleError::DestinationOccupied));
    assert_eq!(c.try_move_piece("5,0,6,1"), Err(RuleError::IllegalPiece));
    assert_eq!(c.try_move_piece("5,0,2,3"), Err(RuleError::IllegalPiece));
    assert_eq!(c.try_move_piece("5,0,3,2"), Err(RuleError::IllegalCapture));
    assert_eq!(c.try_move_piece("skip"), Err(RuleError::NoPendingCapture));
    assert_eq!(c.to_string(), snap("white", None, INITIAL_ROWS));
}

#[test]
fn capture_sets_continuation_and_skip_clears_it() {
    let mut c = Checkers::default();
    assert_eq!(c.try_move_piece("5,0,4,1"), Ok(()));
    assert_eq!(c.try_move_piece("2,3,3,2"), Ok(()));
    assert_eq!(c.try_move_piece("4,1,2,3"), Ok(()));
    let rows = [
        ".b.b.b.b", "b.b.b.b.", ".b.w.b.b", "........", "........", "..w.w.w.", ".w.w.w.w",
        "w.w.w.w.",
    ];
    assert_eq!(c.to_string(), snap("white", Some((2, 3)), rows));
    assert!(!c.is_black_turn());
    assert_eq!(c.try_move_piece("5,2,4,3"), Err(RuleError::MustContinue));
    assert_eq!(c.try_move_piece("2,3,3,4"), Err(RuleError::MustContinue));
    assert_eq!(c.try_move_piece("2,3,0,1"), Err(RuleError::IllegalCapture));
    assert_eq!(c.to_string(), snap("white", Some((2, 3)), rows));
    assert_eq!(c.try_move_piece("skip"), Ok(()));
    assert_eq!(c.to_string(), snap("black", None, rows));
}

#[test]
fn chained_captures_keep_the_turn() {
    let mut c = Checkers::default();
    assert_eq!(c.try_move_piece("5,0,4,1"), Ok(()));
    assert_eq!(c.try_move_piece("2,3,3,4"), Ok(()));
    assert_eq!(c.try_move_piece("6,1,5,0"), Ok(()));
    assert_eq!(c.try_move_piece("1,2,2,3"), Ok(()));
    assert_eq!(c.try_move_piece("5,6,4,7"), Ok(()));
    assert_eq!(c.try_move_piece("3,4,4,3"), Ok(()));
    assert_eq!(c.try_move_piece("5,2,3,4"), Ok(()));
    let rows7 = [
        ".b.b.b.b", "b...b.b.", ".b.b.b.b", "....w...", ".w.....w", "w...w...", "...w.w.w",
        "w.w.w.w.",
    ];
    assert_eq!(c.to_string(), snap("white", Some((3, 4)), rows7));
    assert_eq!(c.try_move_piece("3,4,1,2"), Ok(()));
    let rows8 = [
        ".b.b.b.b", "b.w.b.b.", ".b...b.b", "........", ".w.....w", "w...w...", "...w.w.w",
        "w.w.w.w.",
    ];
    assert_eq!(c.to_string(), snap("white", Some((1, 2)), rows8));
    assert_eq!(c.try_move_piece("skip"), Ok(()));
    assert_eq!(c.to_string(), snap("black", None, rows8));
}

#[test]
fn promotion_on_edge_row() {
    let mut c = Checkers::default();
    for (cmd, expect) in [
        ("5,0,4,1", Ok(())),
        ("2,3,3,4", Ok(())),
        ("6,1,5,0", Ok(())),
        ("1,2,2,3", Ok(())),
        ("5,6,4,7", Ok(())),
        ("3,4,4,3", Ok(())),
        ("5,2,3,4", Ok(())),
        ("3,4,1,2", Ok(())),
        ("skip", Ok(())),
        ("1,4,2,3", Ok(())),
        ("5,4,4,5", Ok(())),
        ("0,3,1,4", Ok(())),
        ("1,2,0,3", Ok(())),
    ] {
        assert_eq!(c.try_move_piece(cmd), expect, "command {}", cmd);
    }
    let rows = [
        ".b.W.b.b", "b...b.b.", ".b.b.b.b", "........", ".w...w.w", "w.......", "...w.w.w",
        "w.w.w.w.",
    ];
    assert_eq!(c.to_string(), snap("black", None, rows));
}

#[test]
fn kings_move_and_capture_in_any_direction() {
    let mut c = Checkers::default();
    for cmd in [
        "5,0,4,1", "2,3,3,4", "6,1,5,0", "1,2,2,3", "5,6,4,7", "3,4,4,3", "5,2,3,4",
        "3,4,1,2", "skip", "1,4,2,3", "5,4,4,5", "0,3,1,4", "1,2,0,3", "2,7,3,6",
    ] {
        assert_eq!(c.try_move_piece(cmd), Ok(()), "command {}", cmd);
    }
    // The fresh king steps back toward higher rows and stays a king.
    assert_eq!(c.try_move_piece("0,3,1,2"), Ok(()));
    // Black captures toward higher rows.
    assert_eq!(c.try_move_piece("3,6,5,4"), Ok(()));
    let rows16 = [
        ".b...b.b", "b.W.b.b.", ".b.b.b..", "........", ".w.....w", "w...b...", "...w.w.w",
        "w.w.w.w.",
    ];
    assert_eq!(c.to_string(), snap("black", Some((5, 4)), rows16));
    assert_eq!(c.try_move_piece("skip"), Ok(()));
    // The king captures toward higher rows as well.
    assert_eq!(c.try_move_piece("1,2,3,0"), Ok(()));
    let rows18 = [
        ".b...b.b", "b...b.b.", "...b.b..", "W.......", ".w.....w", "w...b...", "...w.w.w",
        "w.w.w.w.",
    ];
    assert_eq!(c.to_string(), snap("white", Some((3, 0)), rows18));
    assert_eq!(c.try_move_piece("skip"), Ok(()));
    assert!(c.is_black_turn());
}
