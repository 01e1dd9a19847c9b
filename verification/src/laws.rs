//! The rules that hold of every accepted command, stated once over the
//! engine's mathematical model and proved for all states and inputs.

use vstd::prelude::*;
use crate::checkers::apply_spec;
use crate::game::admission_role;
use crate::game::GameV;
use crate::checkers::cell;
use crate::checkers::col_diff;
use crate::checkers::parse_move_spec;
use crate::checkers::promote;
use crate::checkers::row_diff;
use crate::checkers::Color;
use crate::checkers::Move;
use crate::checkers::StateV;

verus! {

/// Mandatory continuation, first half: an accepted capture keeps the
/// turn and records the landing cell as the pending continuation.
pub proof fn lemma_capture_continuation(s: StateV, msg: Seq<char>, m: Move)
    requires
        s.wf(),
        msg != "skip"@,
        parse_move_spec(msg) == Some(m),
        col_diff(m) == 2,
        apply_spec(s, msg) is Ok,
    ensures
        apply_spec(s, msg)->Ok_0.turn == s.turn,
        apply_spec(s, msg)->Ok_0.just_take == Some((m.to_row, m.to_col)),
{
}

/// Mandatory continuation, second half: while a capture is pending,
/// the only commands that can be accepted are the skip directive and a
/// further capture from exactly the pending cell.
pub proof fn lemma_continuation_restricts(s: StateV, msg: Seq<char>)
    requires
        s.wf(),
        s.just_take is Some,
        apply_spec(s, msg) is Ok,
    ensures
        msg == "skip"@ || (parse_move_spec(msg) matches Some(m) && s.just_take == Some(
            (m.from_row, m.from_col),
        ) && row_diff(m) == 2 && col_diff(m) == 2),
{
}

/// A pending continuation arises only from a capture: an accepted
/// command leaves the pending-capture marker set exactly when it was
/// a capture, and then the marker names the landing cell; an accepted
/// skip or simple move always clears it.
pub proof fn lemma_continuation_only_after_capture(s: StateV, msg: Seq<char>)
    requires
        s.wf(),
        apply_spec(s, msg) is Ok,
    ensures
        apply_spec(s, msg)->Ok_0.just_take is Some ==> ({
            &&& msg != "skip"@
            &&& parse_move_spec(msg) matches Some(m)
            &&& col_diff(m) == 2
            &&& apply_spec(s, msg)->Ok_0.just_take == Some((m.to_row, m.to_col))
        }),
        (msg == "skip"@ || (parse_move_spec(msg) matches Some(m) && col_diff(m) == 1))
            ==> apply_spec(s, msg)->Ok_0.just_take is None,
{
}

/// Turn alternation: the turn flips on an accepted skip or simple
/// move, and never on an accepted capture; every accepted command is
/// one of those three.
pub proof fn lemma_turn_alternation(s: StateV, msg: Seq<char>)
    requires
        s.wf(),
        apply_spec(s, msg) is Ok,
    ensures
        s.turn.spec_other() != s.turn,
        msg != "skip"@ ==> parse_move_spec(msg) is Some,
        msg != "skip"@ ==> (col_diff(parse_move_spec(msg)->Some_0) == 1 || col_diff(
            parse_move_spec(msg)->Some_0,
        ) == 2),
        msg == "skip"@ ==> apply_spec(s, msg)->Ok_0.turn == s.turn.spec_other(),
        (msg != "skip"@ && col_diff(parse_move_spec(msg)->Some_0) == 1) ==> apply_spec(
            s,
            msg,
        )->Ok_0.turn == s.turn.spec_other(),
        (msg != "skip"@ && col_diff(parse_move_spec(msg)->Some_0) == 2) ==> apply_spec(
            s,
            msg,
        )->Ok_0.turn == s.turn,
{
}

/// Promotion: an accepted move or capture leaves the moved piece at
/// its destination with its own color, promoted exactly when the
/// destination lies on row 0 or row 7; every cell other than the
/// source, the destination and (for a capture) the jumped cell is
/// unchanged, so no other piece's king flag ever changes.
pub proof fn lemma_promotion(s: StateV, msg: Seq<char>, m: Move)
    requires
        s.wf(),
        msg != "skip"@,
        parse_move_spec(msg) == Some(m),
        apply_spec(s, msg) is Ok,
    ensures
        ({
            let s2 = apply_spec(s, msg)->Ok_0;
            let p = cell(s.board, m.from_row as int, m.from_col as int)->Some_0;
            let mid_row = (m.from_row + m.to_row) / 2;
            let mid_col = (m.from_col + m.to_col) / 2;
            &&& cell(s.board, m.from_row as int, m.from_col as int) is Some
            &&& cell(s2.board, m.to_row as int, m.to_col as int) == Some(
                promote(p, m.to_row as int),
            )
            &&& (m.to_row == 0 || m.to_row == 7) ==> cell(
                s2.board,
                m.to_row as int,
                m.to_col as int,
            )->Some_0.king
            &&& !(m.to_row == 0 || m.to_row == 7) ==> cell(
                s2.board,
                m.to_row as int,
                m.to_col as int,
            )->Some_0.king == p.king
            &&& forall|r2: int, c2: int|
                0 <= r2 < 8 && 0 <= c2 < 8 && !(r2 == m.from_row as int && c2 == m.from_col
                    as int) && !(r2 == m.to_row as int && c2 == m.to_col as int) && !(col_diff(
                    m,
                ) == 2 && r2 == mid_row as int && c2 == mid_col as int) ==> cell(
                    s2.board,
                    r2,
                    c2,
                ) == cell(s.board, r2, c2)
        }),
{
}

/// Admission order: an empty session admits the next player as Black,
/// a session holding only Black admits the next player as White, and
/// a full session admits no one. With `Game::add_player`, which fills
/// exactly the slot of `admission_role` on success and changes
/// nothing otherwise, the first successful admission is Black, the
/// second is White, and every later attempt fails and leaves both
/// slots as they were.
pub proof fn lemma_admission_order(g: GameV)
    ensures
        g.black is None ==> admission_role(g) == Some(Color::Black),
        (g.black is Some && g.white is None) ==> admission_role(g) == Some(Color::White),
        (g.black is Some && g.white is Some) ==> admission_role(g) is None,
{
}

} // verus!
