//! One match's session: up to two player slots, each holding an
//! identity and an outbound message queue, around one rule engine.
//! Admission, removal and move submission are the only mutations, and
//! every accepted one is followed by a broadcast of the canonical
//! snapshot to all connected players.

use vstd::prelude::*;
use tokio::sync::mpsc::UnboundedSender;
use warp::ws::Message;
use crate::checkers::apply_spec;
use crate::checkers::initial_state;
use crate::checkers::Checkers;
use crate::checkers::Color;
use crate::checkers::StateV;

verus! {

/// Declares tokio's `UnboundedSender`, the sending half of an
/// unbounded channel, so that a slot can hold one; it is opaque here.
#[verifier::external_type_specification]
#[verifier::external_body]
#[verifier::reject_recursive_types(T)]
pub struct ExUnboundedSender<T>(UnboundedSender<T>);

/// Declares warp's websocket `Message` so that one can be built and
/// enqueued; it is opaque here.
#[verifier::external_type_specification]
#[verifier::external_body]
pub struct ExMessage(Message);

/// Relies on warp's `Message::text`: wraps the given string as a text
/// frame. The frame is opaque here; nothing more is assumed of it.
#[verifier::external_body]
fn text_message(s: String) -> Message {
    Message::text(s)
}

/// Relies on tokio's `UnboundedSender::send`: enqueues the message
/// without blocking and fails exactly when the receiving half is
/// gone, which depends on the peer and is promised of no input.
#[verifier::external_body]
fn send_message(tx: &UnboundedSender<Message>, m: Message) -> Result<(), ()> {
    tx.send(m).map_err(|_| ())
}

/// Whether two string slices hold the same characters.
fn str_eq(a: &str, b: &str) -> (r: bool)
    ensures
        r == (a@ == b@),
{
    let n = a.unicode_len();
    if n != b.unicode_len() {
        return false;
    }
    let mut i: usize = 0;
    while i < n
        invariant
            i <= n,
            n == a@.len(),
            n == b@.len(),
            forall|j: int| 0 <= j < i ==> a@[j] == b@[j],
        decreases n - i,
    {
        if a.get_char(i) != b.get_char(i) {
            return false;
        }
        i = i + 1;
    }
    proof {
        assert(a@ =~= b@);
    }
    true
}

/// One admitted player: an opaque identity and the sending half of
/// that player's outbound message queue.
pub struct Player {
    id: String,
    tx: UnboundedSender<Message>,
}

/// The mathematical state of a session: the identities in the two
/// slots, and the match state.
#[verifier::ext_equal]
pub struct GameV {
    pub black: Option<Seq<char>>,
    pub white: Option<Seq<char>>,
    pub state: StateV,
}

/// The role the next successful admission will receive: Black into an
/// empty session, White once Black is taken, none once both slots are
/// occupied.
pub open spec fn admission_role(g: GameV) -> Option<Color> {
    if g.black is None {
        Some(Color::Black)
    } else if g.white is None {
        Some(Color::White)
    } else {
        None
    }
}

/// One match between at most two players, owning its rule engine.
pub struct Game {
    black: Option<Player>,
    white: Option<Player>,
    checkers: Checkers,
}

impl View for Game {
    type V = GameV;

    closed spec fn view(&self) -> GameV {
        GameV {
            black: match self.black {
                Some(p) => Some(p.id@),
                None => None,
            },
            white: match self.white {
                Some(p) => Some(p.id@),
                None => None,
            },
            state: self.checkers@,
        }
    }
}

impl Game {
    /// The match state is well formed.
    pub open spec fn wf(&self) -> bool {
        self@.state.wf()
    }

    /// Whether both slots are clear; the registry removes the session
    /// exactly when this holds.
    pub fn is_empty(&self) -> (r: bool)
        ensures
            r == (self@.black is None && self@.white is None),
    {
        self.black.is_none() && self.white.is_none()
    }

    /// Admits a player: the first successful admission takes the Black
    /// slot, the second the White slot, and a full session admits no
    /// one and is left unchanged. The private role message is sent
    /// before the slot is taken; if its delivery fails the admission
    /// is aborted with nothing changed. Every successful admission
    /// broadcasts the current snapshot to all connected players.
    pub fn add_player(&mut self, id: String, tx: UnboundedSender<Message>) -> (r: Result<
        (),
        (),
    >)
        requires
            old(self).wf(),
        ensures
            final(self).wf(),
            final(self)@.state == old(self)@.state,
            admission_role(old(self)@) is None ==> r is Err,
            r is Err ==> final(self)@ == old(self)@,
            r is Ok ==> admission_role(old(self)@) is Some,
            (r is Ok && admission_role(old(self)@) == Some(Color::Black)) ==> final(self)@
                == (GameV {
                black: Some(id@),
                white: old(self)@.white,
                state: old(self)@.state,
            }),
            (r is Ok && admission_role(old(self)@) == Some(Color::White)) ==> final(self)@
                == (GameV {
                black: old(self)@.black,
                white: Some(id@),
                state: old(self)@.state,
            }),
    {
        let ghost g0 = self@;
        if self.black.is_none() {
            if send_message(&tx, text_message(String::from_str("black"))).is_err() {
                return Err(());
            }
            self.black = Some(Player { id, tx });
            proof {
                assert(self@ =~= (GameV {
                    black: Some(self.black->Some_0.id@),
                    white: g0.white,
                    state: g0.state,
                }));
            }
        } else if self.white.is_none() {
            if send_message(&tx, text_message(String::from_str("white"))).is_err() {
                return Err(());
            }
            self.white = Some(Player { id, tx });
        } else {
            let _ = send_message(&tx, text_message(String::from_str("full")));
            return Err(());
        }
        self.broadcast();
        Ok(())
    }

    /// Clears the slot that holds the given identity; a session that
    /// does not know the identity is left unchanged. The match state
    /// is never touched.
    pub fn remove_player(&mut self, id: &str)
        requires
            old(self).wf(),
        ensures
            final(self).wf(),
            old(self)@.black == Some(id@) ==> final(self)@ == (GameV {
                black: None,
                white: old(self)@.white,
                state: old(self)@.state,
            }),
            (old(self)@.black != Some(id@) && old(self)@.white == Some(id@)) ==> final(self)@
                == (GameV { black: old(self)@.black, white: None, state: old(self)@.state }),
            (old(self)@.black != Some(id@) && old(self)@.white != Some(id@)) ==> final(self)@
                == old(self)@,
    {
        let black_holds = match &self.black {
            Some(p) => str_eq(p.id.as_str(), id),
            None => false,
        };
        if black_holds {
            self.black = None;
            return ;
        }
        let white_holds = match &self.white {
            Some(p) => str_eq(p.id.as_str(), id),
            None => false,
        };
        if white_holds {
            self.white = None;
        }
    }

    /// Submits a raw command on behalf of an identity. The command
    /// takes effect exactly when both slots are occupied, the identity
    /// holds the slot whose color is to move, and the engine accepts
    /// the command; then the new snapshot is broadcast to both
    /// players. In every other case nothing is mutated and nothing is
    /// sent. No error is surfaced to the caller either way.
    pub fn try_move_piece(&mut self, id: &str, msg: &str)
        requires
            old(self).wf(),
        ensures
            final(self).wf(),
            final(self)@.black == old(self)@.black,
            final(self)@.white == old(self)@.white,
            ({
                let g = old(self)@;
                let authorized = g.black is Some && g.white is Some && ((g.black == Some(id@)
                    && g.state.turn == Color::Black) || (g.white == Some(id@) && g.state.turn
                    == Color::White));
                &&& (authorized && apply_spec(g.state, msg@) is Ok) ==> final(self)@.state
                    == apply_spec(g.state, msg@)->Ok_0
                &&& !(authorized && apply_spec(g.state, msg@) is Ok) ==> final(self)@.state
                    == g.state
            }),
    {
        let authorized = match (&self.black, &self.white) {
            (Some(b), Some(w)) => {
                let black_turn = self.checkers.is_black_turn();
                (str_eq(b.id.as_str(), id) && black_turn) || (str_eq(w.id.as_str(), id)
                    && !black_turn)
            },
            _ => false,
        };
        if !authorized {
            return ;
        }
        if self.checkers.try_move_piece(msg).is_ok() {
            self.broadcast();
        }
    }

    /// Sends the current snapshot to every occupied slot's queue, each
    /// delivery attempted independently and best-effort.
    fn broadcast(&self)
        requires
            self.wf(),
    {
        let msg = self.checkers.to_string();
        if let Some(black) = &self.black {
            let _ = send_message(&black.tx, text_message(msg.clone()));
        }
        if let Some(white) = &self.white {
            let _ = send_message(&white.tx, text_message(msg));
        }
    }
}

impl Default for Game {
    /// A fresh session: both slots clear, a fresh match.
    fn default() -> (r: Game)
        ensures
            r.wf(),
            r@.black is None,
            r@.white is None,
            r@.state == initial_state(),
    {
        Game { black: None, white: None, checkers: Checkers::default() }
    }
}

} // verus!
