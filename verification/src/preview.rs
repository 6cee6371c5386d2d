//! The preview coordinator: decides when a typed prefix warrants asking the
//! rendering oracle for a preview, and whether a reply that finally arrives
//! is still the one the user is waiting for.
//!
//! The oracle answers slowly and out of order, so every request is tagged
//! with a snapshot of the prefix it was issued for; a reply counts only if
//! that snapshot still equals the prefix at the moment the reply is seen.

use vstd::prelude::*;
use crate::display::{lines_of, split_lines};

verus! {

/// One legal move as the session sees it: its textual identifier, the board
/// state the move leads to, and the player who moves next.
pub struct MoveOption {
    pub id: String,
    pub resulting_state: String,
    pub resulting_player: char,
}

impl Clone for MoveOption {
    fn clone(&self) -> (r: Self)
        ensures
            r == *self,
    {
        MoveOption {
            id: self.id.clone(),
            resulting_state: self.resulting_state.clone(),
            resulting_player: self.resulting_player,
        }
    }
}

/// Whether every move carries a distinct identifier.
pub open spec fn ids_unique(moves: Seq<MoveOption>) -> bool {
    forall|i: int, j: int|
        0 <= i < j < moves.len() ==> #[trigger] moves[i].id@ != #[trigger] moves[j].id@
}

/// Whether `prefix` equals, in full, the identifier of some move.
pub open spec fn matches_id(moves: Seq<MoveOption>, prefix: Seq<char>) -> bool {
    exists|i: int| 0 <= i < moves.len() && #[trigger] moves[i].id@ == prefix
}

/// Whether every identifier in `moves` is distinct from the others.
pub fn ids_all_unique(moves: &Vec<MoveOption>) -> (r: bool)
    ensures
        r == ids_unique(moves@),
{
    let mut i: usize = 0;
    while i < moves.len()
        invariant
            i <= moves@.len(),
            forall|a: int, b: int|
                0 <= a < b < moves@.len() && a < i ==> #[trigger] moves@[a].id@
                    != #[trigger] moves@[b].id@,
        decreases moves@.len() - i,
    {
        let mut j: usize = i + 1;
        while j < moves.len()
            invariant
                i < j || i + 1 == j,
                i < moves@.len(),
                i + 1 <= j <= moves@.len(),
                forall|b: int| i < b < j ==> moves@[i as int].id@ != #[trigger] moves@[b].id@,
            decreases moves@.len() - j,
        {
            if moves[i].id == moves[j].id {
                return false;
            }
            j += 1;
        }
        i += 1;
    }
    true
}

/// The position of the move whose identifier is exactly `prefix`, if any.
pub fn find_match(moves: &Vec<MoveOption>, prefix: &String) -> (r: Option<usize>)
    ensures
        r is Some <==> matches_id(moves@, prefix@),
        r matches Some(k) ==> k < moves@.len() && moves@[k as int].id@ == prefix@,
{
    let mut j: usize = 0;
    while j < moves.len()
        invariant
            j <= moves@.len(),
            forall|k: int| 0 <= k < j ==> #[trigger] moves@[k].id@ != prefix@,
        decreases moves@.len() - j,
    {
        if moves[j].id == *prefix {
            return Some(j);
        }
        j += 1;
    }
    None
}

/// A preview request issued to the rendering oracle: the prefix snapshot it
/// was issued for, and the board state the oracle is to draw.
pub struct PendingRequest {
    pub requested_for: String,
    pub state: String,
}

impl Clone for PendingRequest {
    fn clone(&self) -> (r: Self)
        ensures
            r == *self,
    {
        PendingRequest { requested_for: self.requested_for.clone(), state: self.state.clone() }
    }
}

/// A preview the oracle has delivered: its text, how many display lines the
/// text occupies, and the prefix snapshot it renders.
pub struct RenderedPreview {
    pub text: String,
    pub line_count: usize,
    pub rendered_for: String,
}

/// The preview attached to a session: requested but not yet answered, or
/// delivered and on screen. Either way it is valid only for the prefix
/// snapshot it carries.
pub enum PreviewState {
    Pending(PendingRequest),
    Ready(RenderedPreview),
}

/// Issues a preview request exactly when the typed prefix is a complete
/// identifier of one of the legal moves; a strict prefix of an identifier
/// asks for nothing. The request carries the prefix snapshot and the matching
/// move's resulting state.
pub fn maybe_request_preview(prefix: &String, legal_moves: &Vec<MoveOption>) -> (r: Option<
    PendingRequest,
>)
    ensures
        r is Some <==> matches_id(legal_moves@, prefix@),
        r matches Some(p) ==> p.requested_for@ == prefix@ && exists|i: int|
            0 <= i < legal_moves@.len() && #[trigger] legal_moves@[i].id@ == prefix@ && p.state@
                == legal_moves@[i].resulting_state@,
{
    match find_match(legal_moves, prefix) {
        Some(k) => Some(
            PendingRequest {
                requested_for: prefix.clone(),
                state: legal_moves[k].resulting_state.clone(),
            },
        ),
        None => None,
    }
}

/// Accepts an oracle reply only if the prefix it was requested for is still
/// the prefix typed now; a reply for an abandoned prefix yields nothing and
/// must not be painted.
pub fn on_reply(pending: &PendingRequest, current_prefix: &String, reply_text: String) -> (r:
    Option<RenderedPreview>)
    ensures
        r is Some <==> pending.requested_for@ == current_prefix@,
        r matches Some(p) ==> p.text@ == reply_text@ && p.rendered_for@
            == pending.requested_for@ && p.line_count == lines_of(reply_text@).len(),
{
    if pending.requested_for == *current_prefix {
        let line_count = split_lines(reply_text.as_str()).len();
        Some(
            RenderedPreview {
                text: reply_text,
                line_count,
                rendered_for: pending.requested_for.clone(),
            },
        )
    } else {
        None
    }
}

} // verus!
