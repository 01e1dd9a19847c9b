//! The rule engine for a two-player diagonal-capture board game.
//!
//! One match's state is a `Checkers` value: whose turn it is, an optional
//! pending-capture marker (`just_take`), and an 8x8 board of optional
//! pieces, stored row-major. The engine validates and applies one command
//! per call and renders canonical snapshots of its state.

use vstd::prelude::*;

verus! {

/// The two sides of a match. White moves first and advances toward
/// decreasing row indices; Black advances toward increasing row indices.
#[derive(Clone, Copy, PartialEq, Eq, Structural, Debug)]
pub enum Color {
    White,
    Black,
}

impl Color {
    /// The opposing side.
    pub fn other(&self) -> (r: Color)
        ensures
            r == self.spec_other(),
    {
        match self {
            Color::White => Color::Black,
            Color::Black => Color::White,
        }
    }

    /// The opposing side, as a spec-level mapping.
    pub open spec fn spec_other(self) -> Color {
        match self {
            Color::White => Color::Black,
            Color::Black => Color::White,
        }
    }
}

/// One piece on the board: its side, and whether it has been promoted.
#[derive(Clone, Copy, PartialEq, Eq, Structural, Debug)]
pub struct Piece {
    pub color: Color,
    pub king: bool,
}

/// The 8x8 grid of optional pieces, stored row-major as 64 cells.
pub struct Board {
    cells: Vec<Option<Piece>>,
}

/// The cell of a row-major 64-cell board at row `r`, column `c`.
pub open spec fn cell(b: Seq<Option<Piece>>, r: int, c: int) -> Option<Piece>
    recommends
        0 <= r < 8,
        0 <= c < 8,
        b.len() == 64,
{
    b[r * 8 + c]
}

/// The piece that the initial layout places at row `r`, column `c`:
/// twelve Black men on rows 0 through 2 and twelve White men on rows 5
/// through 7, each on the cells whose coordinates sum to an odd number.
pub open spec fn initial_cell(r: int, c: int) -> Option<Piece> {
    if (r + c) % 2 == 1 && r <= 2 {
        Some(Piece { color: Color::Black, king: false })
    } else if (r + c) % 2 == 1 && r >= 5 {
        Some(Piece { color: Color::White, king: false })
    } else {
        None
    }
}

/// The initial 64-cell board.
pub open spec fn initial_board() -> Seq<Option<Piece>> {
    Seq::new(64, |i: int| initial_cell(i / 8, i % 8))
}

impl View for Board {
    type V = Seq<Option<Piece>>;

    closed spec fn view(&self) -> Seq<Option<Piece>> {
        self.cells@
    }
}

impl Board {
    /// A board is well formed when it holds exactly 64 cells.
    pub open spec fn wf(&self) -> bool {
        self@.len() == 64
    }

    /// The cell at row `r`, column `c`.
    fn get(&self, r: usize, c: usize) -> (p: Option<Piece>)
        requires
            self.wf(),
            r < 8,
            c < 8,
        ensures
            p == cell(self@, r as int, c as int),
    {
        self.cells[r * 8 + c]
    }

    /// Replaces the cell at row `r`, column `c`.
    fn set(&mut self, r: usize, c: usize, p: Option<Piece>)
        requires
            old(self).wf(),
            r < 8,
            c < 8,
        ensures
            final(self)@ == old(self)@.update(r * 8 + c, p),
            final(self).wf(),
    {
        self.cells[r * 8 + c] = p;
    }
}

impl Default for Board {
    /// Builds the initial layout.
    fn default() -> (b: Board)
        ensures
            b@ == initial_board(),
            b.wf(),
    {
        let mut cells: Vec<Option<Piece>> = Vec::new();
        for i in 0..64usize
            invariant
                cells@.len() == i,
                forall|j: int| 0 <= j < i ==> cells@[j] == initial_cell(j / 8, j % 8),
        {
            let r = i / 8;
            let c = i % 8;
            let p = if (r + c) % 2 == 1 && r <= 2 {
                Some(Piece { color: Color::Black, king: false })
            } else if (r + c) % 2 == 1 && r >= 5 {
                Some(Piece { color: Color::White, king: false })
            } else {
                None
            };
            cells.push(p);
        }
        let b = Board { cells };
        proof {
            assert(b@ =~= initial_board());
        }
        b
    }
}

/// A parsed move command: four board coordinates, each below 8.
#[derive(Clone, Copy, PartialEq, Eq, Structural, Debug)]
pub struct Move {
    pub from_row: usize,
    pub from_col: usize,
    pub to_row: usize,
    pub to_col: usize,
}

/// Whether `c` is a decimal digit.
pub open spec fn is_digit(c: char) -> bool {
    '0' <= c && c <= '9'
}

/// The numeric value of the digit `c`.
pub open spec fn digit_val(c: char) -> int
    recommends
        is_digit(c),
{
    c as u32 - '0' as u32
}

/// The value of a string of decimal digits, most significant first.
pub open spec fn digits_value(d: Seq<char>) -> int
    decreases d.len(),
{
    if d.len() == 0 {
        0
    } else {
        digits_value(d.drop_last()) * 10 + digit_val(d.last())
    }
}

/// The digits of a numeric field, once an optional leading plus sign
/// is removed.
pub open spec fn digits_part(f: Seq<char>) -> Seq<char> {
    if f.len() > 0 && f[0] == '+' {
        f.drop_first()
    } else {
        f
    }
}

/// Whether `f` spells a non-negative decimal integer: an optional
/// leading plus sign, then one or more digits.
pub open spec fn field_ok(f: Seq<char>) -> bool {
    let d = digits_part(f);
    d.len() > 0 && forall|i: int| 0 <= i < d.len() ==> is_digit(d[i])
}

/// The numeric value that the field `f` spells.
pub open spec fn field_value(f: Seq<char>) -> int
    recommends
        field_ok(f),
{
    digits_value(digits_part(f))
}

/// `s` split at every comma. The result always holds one more part
/// than `s` holds commas, and empty parts are kept.
pub open spec fn split_commas(s: Seq<char>) -> Seq<Seq<char>>
    decreases s.len(),
{
    if s.len() == 0 {
        seq![Seq::<char>::empty()]
    } else if s.last() == ',' {
        split_commas(s.drop_last()).push(Seq::<char>::empty())
    } else {
        let r = split_commas(s.drop_last());
        r.update(r.len() - 1, r.last().push(s.last()))
    }
}

/// The move that `s` encodes, if any: exactly four comma-separated
/// non-negative decimal integers, each below 8, read as from-row,
/// from-column, to-row, to-column.
pub open spec fn parse_move_spec(s: Seq<char>) -> Option<Move> {
    let parts = split_commas(s);
    if parts.len() == 4 && (forall|i: int| 0 <= i < 4 ==> field_ok(#[trigger] parts[i]))
        && (forall|i: int| 0 <= i < 4 ==> 0 <= field_value(#[trigger] parts[i]) < 8) {
        Some(
            Move {
                from_row: field_value(parts[0]) as usize,
                from_col: field_value(parts[1]) as usize,
                to_row: field_value(parts[2]) as usize,
                to_col: field_value(parts[3]) as usize,
            },
        )
    } else {
        None
    }
}

/// The running state of the field scanner: what is known of the part
/// of the current field read so far.
struct FieldScan {
    /// The field began with a plus sign.
    plus: bool,
    /// Some character so far is neither a leading plus sign nor a digit.
    bad: bool,
    /// How many digits were read, capped at 2.
    ndigits: u8,
    /// The value of the digits read, capped at 8.
    val: u8,
    /// How many characters were read, capped at 2.
    len: u8,
}

impl FieldScan {
    /// The scanner agrees with the spec-level reading of the field `f`.
    spec fn matches(&self, f: Seq<char>) -> bool {
        let d = digits_part(f);
        &&& self.plus == (f.len() > 0 && f[0] == '+')
        &&& self.bad == !(forall|i: int| 0 <= i < d.len() ==> is_digit(d[i]))
        &&& !self.bad ==> self.ndigits == if d.len() < 2 { d.len() as int } else { 2int }
        &&& !self.bad ==> self.val == if digits_value(d) < 8 { digits_value(d) } else { 8int }
        &&& self.len == if f.len() < 2 { f.len() as int } else { 2int }
    }

    fn fresh() -> (r: FieldScan)
        ensures
            r.matches(Seq::<char>::empty()),
    {
        FieldScan { plus: false, bad: false, ndigits: 0, val: 0, len: 0 }
    }

    /// Whether the field read so far is a well-formed numeric field.
    fn ok(&self, Ghost(f): Ghost<Seq<char>>) -> (r: bool)
        requires
            self.matches(f),
        ensures
            r == field_ok(f),
    {
        !self.bad && self.ndigits >= 1
    }

    /// Extends the scan by one character.
    fn step(&mut self, c: char, Ghost(f): Ghost<Seq<char>>)
        requires
            old(self).matches(f),
        ensures
            final(self).matches(f.push(c)),
    {
        if c == '+' {
            if self.len == 0 {
                self.plus = true;
            } else {
                self.bad = true;
            }
        } else if '0' <= c && c <= '9' {
            if self.ndigits < 2 {
                self.ndigits = self.ndigits + 1;
            }
            let d = (c as u8) - ('0' as u8);
            if self.val < 8 {
                let t = self.val * 10 + d;
                self.val = if t < 8 { t } else { 8 };
            }
        } else {
            self.bad = true;
        }
        if self.len < 2 {
            self.len = self.len + 1;
        }
        proof {
            let d = digits_part(f);
            let f2 = f.push(c);
            assert(f2.drop_last() =~= f);
            if f.len() == 0 && c == '+' {
                assert(digits_part(f2) =~= Seq::<char>::empty());
            } else {
                assert(digits_part(f2) =~= d.push(c));
                assert(d.push(c).drop_last() =~= d);
                assert(forall|i: int| 0 <= i < d.len() ==> d.push(c)[i] == #[trigger] d[i]);
                assert(d.push(c).last() == c);
            }
        }
    }
}

/// `v`, capped at 8. A coordinate is in range exactly when its capped
/// value is below 8, and the two agree in that case.
pub open spec fn cap8(v: int) -> int {
    if v < 8 {
        v
    } else {
        8
    }
}

impl Move {
    /// Parses four comma-separated coordinates, in the order from-row,
    /// from-column, to-row, to-column.
    pub fn from_str(s: &str) -> (r: Result<Move, ()>)
        ensures
            r == match parse_move_spec(s@) {
                Some(m) => Ok::<Move, ()>(m),
                None => Err::<Move, ()>(()),
            },
    {
        let n = s.unicode_len();
        let mut scan = FieldScan::fresh();
        let mut vals: Vec<u8> = Vec::new();
        let mut all_ok: bool = true;
        let mut i: usize = 0;
        while i < n
            invariant
                i <= n,
                n == s@.len(),
                ({
                    let parts = split_commas(s@.subrange(0, i as int));
                    &&& parts.len() == vals@.len() + 1
                    &&& scan.matches(parts.last())
                    &&& all_ok == forall|j: int|
                        0 <= j < vals@.len() ==> field_ok(#[trigger] parts[j])
                    &&& forall|j: int|
                        0 <= j < vals@.len() && field_ok(#[trigger] parts[j]) ==> vals@[j]
                            == cap8(field_value(parts[j]))
                }),
            decreases n - i,
        {
            let ghost pre = s@.subrange(0, i as int);
            let ghost parts = split_commas(pre);
            let c = s.get_char(i);
            proof {
                assert(s@.subrange(0, i + 1).drop_last() =~= pre);
                assert(s@.subrange(0, i + 1).last() == c);
            }
            if c == ',' {
                let fok = scan.ok(Ghost(parts.last()));
                all_ok = all_ok && fok;
                vals.push(scan.val);
                scan = FieldScan::fresh();
                proof {
                    let parts2 = split_commas(s@.subrange(0, i + 1));
                    assert(parts2 == parts.push(Seq::<char>::empty()));
                    assert(forall|j: int|
                        0 <= j < parts.len() ==> parts2[j] == #[trigger] parts[j]);
                }
            } else {
                scan.step(c, Ghost(parts.last()));
                proof {
                    let parts2 = split_commas(s@.subrange(0, i + 1));
                    assert(parts2 == parts.update(parts.len() - 1, parts.last().push(c)));
                    assert(forall|j: int|
                        0 <= j < parts.len() - 1 ==> parts2[j] == #[trigger] parts[j]);
                    assert(parts2.last() == parts.last().push(c));
                }
            }
            i = i + 1;
        }
        proof {
            assert(s@.subrange(0, i as int) =~= s@);
        }
        let fok = scan.ok(Ghost(split_commas(s@).last()));
        all_ok = all_ok && fok;
        vals.push(scan.val);
        if all_ok && vals.len() == 4 && vals[0] < 8 && vals[1] < 8 && vals[2] < 8 && vals[3]
            < 8 {
            Ok(
                Move {
                    from_row: vals[0] as usize,
                    from_col: vals[1] as usize,
                    to_row: vals[2] as usize,
                    to_col: vals[3] as usize,
                },
            )
        } else {
            Err(())
        }
    }
}

/// The reason a command was rejected. The session layer collapses all
/// of these into one observable outcome; they are distinguished here
/// for diagnostics and testing.
#[derive(Clone, Copy, PartialEq, Eq, Structural, Debug)]
pub enum RuleError {
    /// The command is neither `skip` nor four in-range coordinates.
    BadFormat,
    /// The move is not strictly diagonal.
    NonDiagonal,
    /// A capture is pending and the command does not continue it.
    MustContinue,
    /// The source cell holds no piece.
    EmptySource,
    /// The source piece belongs to the other player.
    WrongTurn,
    /// The piece cannot make a move of this shape or direction.
    IllegalPiece,
    /// The destination of a simple move is occupied.
    DestinationOccupied,
    /// The jumped cell or the landing cell does not admit a capture.
    IllegalCapture,
    /// `skip` was sent while no capture was pending.
    NoPendingCapture,
}

/// The mathematical state of one match: whose turn it is, the pending
/// continuation cell if the last accepted command was a capture, and
/// the 64 cells of the board.
#[verifier::ext_equal]
pub struct StateV {
    pub turn: Color,
    pub just_take: Option<(usize, usize)>,
    pub board: Seq<Option<Piece>>,
}

impl StateV {
    /// The board holds 64 cells and a pending continuation cell, if
    /// any, lies on the board.
    pub open spec fn wf(self) -> bool {
        &&& self.board.len() == 64
        &&& self.just_take matches Some((r, c)) ==> r < 8 && c < 8
    }
}

/// The state at the start of a match: White to move, no pending
/// capture, the initial layout.
pub open spec fn initial_state() -> StateV {
    StateV { turn: Color::White, just_take: None, board: initial_board() }
}

/// `p` with its king flag raised if `to_row` is an edge row. A piece
/// promotes exactly when an accepted move or capture lands it on row 0
/// or row 7; its color is kept.
pub open spec fn promote(p: Piece, to_row: int) -> Piece {
    Piece { color: p.color, king: p.king || to_row == 0 || to_row == 7 }
}

/// The outcome of a simple (non-capturing) move of the piece `p` by
/// `m`: legal exactly when the destination is empty; relocates the
/// piece, promotes it on an edge row, and flips the turn.
pub open spec fn simple_move_spec(s: StateV, m: Move, p: Piece) -> Result<StateV, RuleError>
    recommends
        s.wf(),
        m.from_row < 8 && m.from_col < 8 && m.to_row < 8 && m.to_col < 8,
{
    if cell(s.board, m.to_row as int, m.to_col as int) is Some {
        Err(RuleError::DestinationOccupied)
    } else {
        Ok(
            StateV {
                turn: s.turn.spec_other(),
                just_take: None,
                board: s.board.update(
                    m.to_row * 8 + m.to_col,
                    Some(promote(p, m.to_row as int)),
                ).update(m.from_row * 8 + m.from_col, None),
            },
        )
    }
}

/// The outcome of a capture of the piece `p` by `m`: legal exactly
/// when the jumped cell (the midpoint) holds a piece of the other
/// color and the destination is empty; relocates the piece, promotes
/// it on an edge row, clears the jumped cell, records the landing cell
/// as the pending continuation, and keeps the turn.
pub open spec fn capture_spec(s: StateV, m: Move, p: Piece) -> Result<StateV, RuleError>
    recommends
        s.wf(),
        m.from_row < 8 && m.from_col < 8 && m.to_row < 8 && m.to_col < 8,
{
    let mid_row = (m.from_row + m.to_row) / 2;
    let mid_col = (m.from_col + m.to_col) / 2;
    if (cell(s.board, mid_row as int, mid_col as int) matches Some(q) && q.color != p.color)
        && cell(s.board, m.to_row as int, m.to_col as int) is None {
        Ok(
            StateV {
                turn: s.turn,
                just_take: Some((m.to_row, m.to_col)),
                board: s.board.update(
                    m.to_row * 8 + m.to_col,
                    Some(promote(p, m.to_row as int)),
                ).update(m.from_row * 8 + m.from_col, None).update(
                    mid_row * 8 + mid_col,
                    None,
                ),
            },
        )
    } else {
        Err(RuleError::IllegalCapture)
    }
}

/// The absolute row distance of `m`.
pub open spec fn row_diff(m: Move) -> int {
    if m.from_row >= m.to_row {
        m.from_row - m.to_row
    } else {
        m.to_row - m.from_row
    }
}

/// The absolute column distance of `m`.
pub open spec fn col_diff(m: Move) -> int {
    if m.from_col >= m.to_col {
        m.from_col - m.to_col
    } else {
        m.to_col - m.from_col
    }
}

/// The outcome of the parsed move `m` on the state `s`, checked in
/// this order: the move must be strictly diagonal; while a capture is
/// pending it must be a capture from the pending cell; the source must
/// hold a piece of the player to move; the piece must admit the move's
/// shape and direction (kings step or jump any of the four diagonal
/// ways, men only away from their own first rows); and the cells
/// involved must admit the simple move or the capture.
pub open spec fn move_spec(s: StateV, m: Move) -> Result<StateV, RuleError>
    recommends
        s.wf(),
        m.from_row < 8 && m.from_col < 8 && m.to_row < 8 && m.to_col < 8,
{
    if row_diff(m) != col_diff(m) {
        Err(RuleError::NonDiagonal)
    } else if s.just_take matches Some((r, c)) && !(m.from_row == r && m.from_col == c
        && col_diff(m) == 2) {
        Err(RuleError::MustContinue)
    } else {
        match cell(s.board, m.from_row as int, m.from_col as int) {
            None => Err(RuleError::EmptySource),
            Some(p) => {
                if p.color != s.turn {
                    Err(RuleError::WrongTurn)
                } else if p.king && col_diff(m) == 1 {
                    simple_move_spec(s, m, p)
                } else if p.king && col_diff(m) == 2 {
                    capture_spec(s, m, p)
                } else if p.color == Color::Black && col_diff(m) == 1 && m.to_row == m.from_row
                    + 1 {
                    simple_move_spec(s, m, p)
                } else if p.color == Color::Black && col_diff(m) == 2 && m.to_row == m.from_row
                    + 2 {
                    capture_spec(s, m, p)
                } else if p.color == Color::White && col_diff(m) == 1 && m.from_row == m.to_row
                    + 1 {
                    simple_move_spec(s, m, p)
                } else if p.color == Color::White && col_diff(m) == 2 && m.from_row == m.to_row
                    + 2 {
                    capture_spec(s, m, p)
                } else {
                    Err(RuleError::IllegalPiece)
                }
            },
        }
    }
}

/// The outcome of the raw command `msg` on the state `s`. The literal
/// `skip` is legal exactly while a capture is pending: it clears the
/// pending marker and flips the turn. Any other command must parse as
/// a move, which is then checked by `move_spec`. An error leaves the
/// state unchanged.
pub open spec fn apply_spec(s: StateV, msg: Seq<char>) -> Result<StateV, RuleError>
    recommends
        s.wf(),
{
    if msg == "skip"@ {
        if s.just_take is Some {
            Ok(StateV { turn: s.turn.spec_other(), just_take: None, board: s.board })
        } else {
            Err(RuleError::NoPendingCapture)
        }
    } else {
        match parse_move_spec(msg) {
            None => Err(RuleError::BadFormat),
            Some(m) => move_spec(s, m),
        }
    }
}

/// Whether `s` is the literal skip directive.
fn is_skip(s: &str) -> (r: bool)
    ensures
        r == (s@ == "skip"@),
{
    proof {
        reveal_strlit("skip");
    }
    if s.unicode_len() != 4 {
        return false;
    }
    let eq = s.get_char(0) == 's' && s.get_char(1) == 'k' && s.get_char(2) == 'i' && s.get_char(
        3,
    ) == 'p';
    proof {
        if eq {
            assert(s@ =~= "skip"@);
        }
    }
    eq
}

/// One match's rule-engine state. Commands mutate it only through
/// `try_move_piece`, which leaves it unchanged whenever it reports an
/// error.
pub struct Checkers {
    turn: Color,
    just_take: Option<(usize, usize)>,
    board: Board,
}

impl View for Checkers {
    type V = StateV;

    closed spec fn view(&self) -> StateV {
        StateV { turn: self.turn, just_take: self.just_take, board: self.board@ }
    }
}

impl Checkers {
    /// The state is well formed.
    pub open spec fn wf(&self) -> bool {
        self@.wf()
    }

    /// Whether it is Black's turn to move.
    pub fn is_black_turn(&self) -> (r: bool)
        ensures
            r == (self@.turn == Color::Black),
    {
        self.turn == Color::Black
    }

    /// Applies one raw command: the outcome, the mutation and the
    /// reported error are exactly those of `apply_spec`; on an error
    /// the state is unchanged.
    pub fn try_move_piece(&mut self, msg: &str) -> (r: Result<(), RuleError>)
        requires
            old(self).wf(),
        ensures
            final(self).wf(),
            ({
                let res = apply_spec(old(self)@, msg@);
                match r {
                    Ok(()) => res == Ok::<StateV, RuleError>(final(self)@),
                    Err(e) => res == Err::<StateV, RuleError>(e) && final(self)@ == old(
                        self,
                    )@,
                }
            }),
    {
        let ghost s0 = self@;
        if is_skip(msg) {
            if self.just_take.is_none() {
                return Err(RuleError::NoPendingCapture);
            }
            self.turn = self.turn.other();
            self.just_take = None;
            proof {
                assert(self@ =~= (StateV {
                    turn: s0.turn.spec_other(),
                    just_take: None,
                    board: s0.board,
                }));
            }
            return Ok(());
        }
        let m = match Move::from_str(msg) {
            Ok(m) => m,
            Err(()) => {
                return Err(RuleError::BadFormat);
            },
        };
        let col_d = if m.from_col >= m.to_col {
            m.from_col - m.to_col
        } else {
            m.to_col - m.from_col
        };
        let row_d = if m.from_row >= m.to_row {
            m.from_row - m.to_row
        } else {
            m.to_row - m.from_row
        };
        if row_d != col_d {
            return Err(RuleError::NonDiagonal);
        }
        if let Some((r, c)) = self.just_take {
            if !(m.from_row == r && m.from_col == c && col_d == 2) {
                return Err(RuleError::MustContinue);
            }
        }
        let p = match self.board.get(m.from_row, m.from_col) {
            Some(p) => p,
            None => {
                return Err(RuleError::EmptySource);
            },
        };
        if p.color != self.turn {
            return Err(RuleError::WrongTurn);
        }
        if p.king && col_d == 1 {
            self.do_simple(m)
        } else if p.king && col_d == 2 {
            self.do_capture(m)
        } else if p.color == Color::Black && col_d == 1 && m.to_row == m.from_row + 1 {
            self.do_simple(m)
        } else if p.color == Color::Black && col_d == 2 && m.to_row == m.from_row + 2 {
            self.do_capture(m)
        } else if p.color == Color::White && col_d == 1 && m.from_row == m.to_row + 1 {
            self.do_simple(m)
        } else if p.color == Color::White && col_d == 2 && m.from_row == m.to_row + 2 {
            self.do_capture(m)
        } else {
            Err(RuleError::IllegalPiece)
        }
    }

    /// The simple-move tail of `try_move_piece`: rejects an occupied
    /// destination, else relocates through `move_piece`.
    fn do_simple(&mut self, m: Move) -> (r: Result<(), RuleError>)
        requires
            old(self).wf(),
            m.from_row < 8 && m.from_col < 8 && m.to_row < 8 && m.to_col < 8,
            cell(old(self)@.board, m.from_row as int, m.from_col as int) is Some,
            old(self)@.just_take is None,
        ensures
            final(self).wf(),
            ({
                let res = simple_move_spec(
                    old(self)@,
                    m,
                    cell(old(self)@.board, m.from_row as int, m.from_col as int)->Some_0,
                );
                match r {
                    Ok(()) => res == Ok::<StateV, RuleError>(final(self)@),
                    Err(e) => res == Err::<StateV, RuleError>(e) && final(self)@ == old(
                        self,
                    )@,
                }
            }),
    {
        if self.board.get(m.to_row, m.to_col).is_some() {
            return Err(RuleError::DestinationOccupied);
        }
        self.move_piece(m.from_col, m.from_row, m.to_col, m.to_row);
        Ok(())
    }

    /// The capture tail of `try_move_piece`: rejects an illegal jumped
    /// or landing cell, else captures through `take_piece`.
    fn do_capture(&mut self, m: Move) -> (r: Result<(), RuleError>)
        requires
            old(self).wf(),
            m.from_row < 8 && m.from_col < 8 && m.to_row < 8 && m.to_col < 8,
            cell(old(self)@.board, m.from_row as int, m.from_col as int) is Some,
        ensures
            final(self).wf(),
            ({
                let res = capture_spec(
                    old(self)@,
                    m,
                    cell(old(self)@.board, m.from_row as int, m.from_col as int)->Some_0,
                );
                match r {
                    Ok(()) => res == Ok::<StateV, RuleError>(final(self)@),
                    Err(e) => res == Err::<StateV, RuleError>(e) && final(self)@ == old(
                        self,
                    )@,
                }
            }),
    {
        let mid_row = (m.from_row + m.to_row) / 2;
        let mid_col = (m.from_col + m.to_col) / 2;
        let p = self.board.get(m.from_row, m.from_col).unwrap();
        let target = match self.board.get(mid_row, mid_col) {
            Some(q) => q,
            None => {
                return Err(RuleError::IllegalCapture);
            },
        };
        if target.color == p.color || self.board.get(m.to_row, m.to_col).is_some() {
            return Err(RuleError::IllegalCapture);
        }
        self.take_piece(m.from_col, m.from_row, m.to_col, m.to_row, p.color);
        Ok(())
    }

    /// Relocates the piece at the source to the empty destination,
    /// promoting it on an edge row, and flips the turn.
    fn move_piece(&mut self, from_col: usize, from_row: usize, to_col: usize, to_row: usize)
        requires
            old(self).wf(),
            from_row < 8 && from_col < 8 && to_row < 8 && to_col < 8,
            cell(old(self)@.board, from_row as int, from_col as int) is Some,
            cell(old(self)@.board, to_row as int, to_col as int) is None,
            old(self)@.just_take is None,
        ensures
            final(self).wf(),
            simple_move_spec(
                old(self)@,
                (Move { from_row, from_col, to_row, to_col }),
                cell(old(self)@.board, from_row as int, from_col as int)->Some_0,
            ) == Ok::<StateV, RuleError>(final(self)@),
    {
        let ghost s0 = self@;
        let p = self.board.get(from_row, from_col).unwrap();
        let moved = Piece { color: p.color, king: p.king || to_row == 0 || to_row == 7 };
        self.board.set(to_row, to_col, Some(moved));
        self.board.set(from_row, from_col, None);
        self.turn = self.turn.other();
        proof {
            let m = (Move { from_row, from_col, to_row, to_col });
            assert(self@ =~= simple_move_spec(s0, m, p)->Ok_0);
        }
    }

    /// Captures over the jumped cell: relocates the piece to the empty
    /// destination, promoting it on an edge row, clears the source and
    /// the jumped cell, and records the landing cell as the pending
    /// continuation. The turn is kept.
    fn take_piece(
        &mut self,
        from_col: usize,
        from_row: usize,
        to_col: usize,
        to_row: usize,
        color: Color,
    )
        requires
            old(self).wf(),
            from_row < 8 && from_col < 8 && to_row < 8 && to_col < 8,
            ({
                let b = old(self)@.board;
                &&& cell(b, from_row as int, from_col as int) matches Some(p) && p.color
                    == color
                &&& cell(b, (from_row + to_row) / 2, (from_col + to_col) / 2) matches Some(q)
                    && q.color != color
                &&& cell(b, to_row as int, to_col as int) is None
            }),
        ensures
            final(self).wf(),
            capture_spec(
                old(self)@,
                (Move { from_row, from_col, to_row, to_col }),
                cell(old(self)@.board, from_row as int, from_col as int)->Some_0,
            ) == Ok::<StateV, RuleError>(final(self)@),
    {
        let ghost s0 = self@;
        let mid_row = (from_row + to_row) / 2;
        let mid_col = (from_col + to_col) / 2;
        let p = self.board.get(from_row, from_col).unwrap();
        let moved = Piece { color: p.color, king: p.king || to_row == 0 || to_row == 7 };
        self.board.set(to_row, to_col, Some(moved));
        self.board.set(from_row, from_col, None);
        self.board.set(mid_row, mid_col, None);
        self.just_take = Some((to_row, to_col));
        proof {
            let m = (Move { from_row, from_col, to_row, to_col });
            assert(self@ =~= capture_spec(s0, m, p)->Ok_0);
        }
    }
}

impl Default for Checkers {
    /// A fresh match: White to move, no pending capture, the initial
    /// layout.
    fn default() -> (r: Checkers)
        ensures
            r@ == initial_state(),
            r.wf(),
    {
        let r = Checkers { turn: Color::White, just_take: None, board: Board::default() };
        proof {
            assert(r@ =~= initial_state());
        }
        r
    }
}

/// The glyph that renders one cell: a blue square for an empty cell,
/// a circle for a man, a large square for a king, white or black after
/// the piece's side.
pub open spec fn glyph(c: Option<Piece>) -> Seq<char> {
    match c {
        None => "\u{1F7E6}"@,
        Some(p) => match (p.color, p.king) {
            (Color::White, false) => "\u{26AA}"@,
            (Color::White, true) => "\u{2B1C}"@,
            (Color::Black, false) => "\u{26AB}"@,
            (Color::Black, true) => "\u{2B1B}"@,
        },
    }
}

/// The glyphs of the first `n` cells of `b`, row-major.
pub open spec fn board_prefix_chars(b: Seq<Option<Piece>>, n: int) -> Seq<char>
    decreases n,
{
    if n <= 0 {
        Seq::empty()
    } else {
        board_prefix_chars(b, n - 1) + glyph(b[n - 1])
    }
}

/// The 64 glyphs of the whole board, row-major.
pub open spec fn board_chars(b: Seq<Option<Piece>>) -> Seq<char> {
    board_prefix_chars(b, 64)
}

/// The name of the side to move.
pub open spec fn turn_chars(c: Color) -> Seq<char> {
    match c {
        Color::White => "white"@,
        Color::Black => "black"@,
    }
}

/// The single decimal digit of a board coordinate.
pub open spec fn digit_chars(n: int) -> Seq<char>
    recommends
        0 <= n < 8,
{
    if n == 0 {
        "0"@
    } else if n == 1 {
        "1"@
    } else if n == 2 {
        "2"@
    } else if n == 3 {
        "3"@
    } else if n == 4 {
        "4"@
    } else if n == 5 {
        "5"@
    } else if n == 6 {
        "6"@
    } else {
        "7"@
    }
}

/// The canonical snapshot of a state: the side to move, the pending
/// continuation cell while one is set, and the 64 board glyphs.
pub open spec fn snapshot_chars(s: StateV) -> Seq<char> {
    "{ \"turn\": \""@ + turn_chars(s.turn) + (match s.just_take {
        Some((r, c)) => "\", \"just_take\": ["@ + digit_chars(r as int) + ", "@ + digit_chars(
            c as int,
        ) + "], \"board\": \""@,
        None => "\", \"board\": \""@,
    }) + board_chars(s.board) + "\" }"@
}

/// The digit of a coordinate, as a string slice.
fn digit_str(n: usize) -> (r: &'static str)
    requires
        n < 8,
    ensures
        r@ == digit_chars(n as int),
{
    match n {
        0 => "0",
        1 => "1",
        2 => "2",
        3 => "3",
        4 => "4",
        5 => "5",
        6 => "6",
        _ => "7",
    }
}

/// The glyph of a cell, as a string slice.
fn glyph_str(c: Option<Piece>) -> (r: &'static str)
    ensures
        r@ == glyph(c),
{
    match c {
        None => "\u{1F7E6}",
        Some(Piece { color: Color::White, king: false }) => "\u{26AA}",
        Some(Piece { color: Color::White, king: true }) => "\u{2B1C}",
        Some(Piece { color: Color::Black, king: false }) => "\u{26AB}",
        Some(Piece { color: Color::Black, king: true }) => "\u{2B1B}",
    }
}

impl Checkers {
    /// Renders the canonical snapshot of the current state: the only
    /// representation of a match that is ever sent to a player.
    pub fn to_string(&self) -> (r: String)
        requires
            self.wf(),
        ensures
            r@ == snapshot_chars(self@),
    {
        let mut out = String::from_str("{ \"turn\": \"");
        out.append(
            match self.turn {
                Color::White => "white",
                Color::Black => "black",
            },
        );
        if let Some((jr, jc)) = self.just_take {
            out.append("\", \"just_take\": [");
            out.append(digit_str(jr));
            out.append(", ");
            out.append(digit_str(jc));
            out.append("], \"board\": \"");
        } else {
            out.append("\", \"board\": \"");
        }
        let ghost head = out@;
        let mut i: usize = 0;
        while i < 64
            invariant
                self.wf(),
                i <= 64,
                out@ == head + board_prefix_chars(self@.board, i as int),
            decreases 64 - i,
        {
            let r = i / 8;
            let c = i % 8;
            let g = glyph_str(self.board.get(r, c));
            out.append(g);
            proof {
                assert(cell(self@.board, r as int, c as int) == self@.board[i as int]);
            }
            i = i + 1;
        }
        out.append("\" }");
        proof {
            assert(out@ =~= snapshot_chars(self@));
        }
        out
    }
}

} // verus!
