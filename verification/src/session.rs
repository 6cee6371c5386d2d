//! The input/session state machine: the single arbiter of one move-selection
//! round.
//!
//! A round owns the board state, the legal moves, the prefix the user has
//! typed so far, and at most one preview. Keystrokes and oracle replies reach
//! it as events, in whatever order they become ready; each event is answered
//! with how the session changed and what the driver must now do (issue a
//! request, clear lines, paint, show a message, or end the round). The driver
//! performs the waiting and the terminal writes; every decision is made here.
//!
//! Editing the prefix invalidates the current preview at once; a new request
//! is issued only when the new prefix exactly matches a move identifier; and
//! a reply is painted only if it was requested for the prefix typed at the
//! moment it arrives. The last rule is what keeps a slow or out-of-order
//! oracle from ever painting a preview the user has already abandoned.

use vstd::prelude::*;
use crate::display::lines_of;
use crate::numerals::{push_decimal, spec_decimal};
use crate::preview::{
    ids_unique, matches_id, find_match, maybe_request_preview, MoveOption, PendingRequest,
    PreviewState, RenderedPreview,
};
use crate::strutil::{pop_char, push_char};
use vstd::string::StringExecFns;

verus! {

/// One consumed keystroke, as the session understands it: a printable
/// character, backspace, enter, or the quit key.
pub enum Key {
    Char(char),
    Backspace,
    Enter,
    Quit,
}

/// How a round ends: the user committed to a move, or quit the session.
pub enum Outcome {
    Committed(MoveOption),
    Quit,
}

/// What the driver must do after the session consumed a keystroke.
pub enum KeyResult {
    /// The key meant nothing here; nothing changed.
    Ignored,
    /// The prefix changed: blank the `cleared` preview lines, and, when a
    /// request is handed back, send it to the oracle.
    Edited { cleared: usize, request: Option<PendingRequest> },
    /// Enter on a prefix matching no move: show `message` below the tallest
    /// preview seen this round; the round continues, the prefix is kept.
    Rejected { message: String },
    /// The round is over: blank the `cleared` preview lines and return the
    /// outcome to the caller of the round.
    Finished { cleared: usize, outcome: Outcome },
}

/// What the driver must do after the session saw an oracle reply.
pub enum ReplyResult {
    /// The reply is current: blank the `cleared` old preview lines and paint
    /// the `lines` lines of the reply text below the query line.
    Painted { cleared: usize, lines: usize },
    /// The reply was for an abandoned prefix: show nothing.
    Discarded,
}

/// The state of one move-selection round.
pub struct Session {
    /// The serialized board the round started from.
    pub board_state: String,
    /// The player whose move is being selected.
    pub current_player: char,
    /// The moves available this round, fixed for the round's lifetime.
    pub legal_moves: Vec<MoveOption>,
    /// The move identifier as typed so far.
    pub typed_prefix: String,
    /// The preview requested or shown for the current prefix, if any.
    pub preview: Option<PreviewState>,
    /// The tallest preview painted so far this round; messages are placed
    /// below this height so they never overwrite a preview.
    pub max_preview_lines: usize,
}

/// The characters that may extend a move identifier.
pub open spec fn is_digit(c: char) -> bool {
    '0' <= c && c <= '9'
}

/// The prefix after a keystroke: a digit is appended, backspace removes the
/// last character of a non-empty prefix, everything else leaves it alone.
pub open spec fn prefix_after(p: Seq<char>, k: Key) -> Seq<char> {
    match k {
        Key::Char(c) => if is_digit(c) {
            p.push(c)
        } else {
            p
        },
        Key::Backspace => if p.len() > 0 {
            p.drop_last()
        } else {
            p
        },
        _ => p,
    }
}

/// Whether the keystroke changes the prefix at all.
pub open spec fn mutates_prefix(p: Seq<char>, k: Key) -> bool {
    match k {
        Key::Char(c) => is_digit(c),
        Key::Backspace => p.len() > 0,
        _ => false,
    }
}

/// How many preview lines are on screen: the height of a delivered preview,
/// nothing for a pending or absent one.
pub open spec fn displayed_lines(p: Option<PreviewState>) -> nat {
    match p {
        Some(PreviewState::Ready(r)) => r.line_count as nat,
        _ => 0,
    }
}

/// The prefix snapshot of the preview currently on screen, if one is.
pub open spec fn shown_for(s: Session) -> Option<Seq<char>> {
    match s.preview {
        Some(PreviewState::Ready(r)) => Some(r.rendered_for@),
        _ => None,
    }
}

/// The message shown when enter is pressed on a prefix matching no move.
pub open spec fn invalid_message(prefix: Seq<char>, n: nat) -> Seq<char> {
    "You typed `"@ + prefix + "`; but you need to select one of the "@ + spec_decimal(n)
        + " moves listed above"@
}

impl Session {
    /// A well-formed round: there is something to choose from, identifiers
    /// are unambiguous, and whatever preview exists is tagged with the prefix
    /// typed now — a pending one asks for the matching move's state, a
    /// delivered one is measured correctly and no taller than the round's
    /// high-water mark.
    pub open spec fn wf(self) -> bool {
        &&& self.legal_moves@.len() > 0
        &&& ids_unique(self.legal_moves@)
        &&& match self.preview {
            None => true,
            Some(PreviewState::Pending(q)) => {
                &&& q.requested_for@ == self.typed_prefix@
                &&& exists|i: int|
                    0 <= i < self.legal_moves@.len() && #[trigger] self.legal_moves@[i].id@
                        == self.typed_prefix@ && q.state@ == self.legal_moves@[i].resulting_state@
            },
            Some(PreviewState::Ready(r)) => {
                &&& r.rendered_for@ == self.typed_prefix@
                &&& r.line_count == lines_of(r.text@).len()
                &&& r.line_count <= self.max_preview_lines
            },
        }
    }

    /// Begins a round over `board_state` with `legal_moves` to choose from:
    /// nothing typed, no preview yet.
    pub fn new(board_state: String, current_player: char, legal_moves: Vec<MoveOption>) -> (s:
        Session)
        requires
            legal_moves@.len() > 0,
            ids_unique(legal_moves@),
        ensures
            s.wf(),
            s.board_state == board_state,
            s.current_player == current_player,
            s.legal_moves == legal_moves,
            s.typed_prefix@ == Seq::<char>::empty(),
            s.preview is None,
            s.max_preview_lines == 0,
    {
        Session {
            board_state,
            current_player,
            legal_moves,
            typed_prefix: String::new(),
            preview: None,
            max_preview_lines: 0,
        }
    }
}

/// How a session changes when it consumes the keystroke `k`: the board, the
/// player and the move list never change; quit and a matching enter end the
/// round; a non-matching enter changes nothing but reports a message; an
/// effective edit retags the preview for the new prefix or drops it.
pub open spec fn key_step(pre: Session, k: Key, post: Session, r: KeyResult) -> bool {
    &&& pre.wf()
    &&& post.wf()
    &&& post.board_state == pre.board_state
    &&& post.current_player == pre.current_player
    &&& post.legal_moves == pre.legal_moves
    &&& match k {
        Key::Quit => post == pre && r == KeyResult::Finished {
            cleared: 0,
            outcome: Outcome::Quit,
        },
        Key::Enter => if matches_id(pre.legal_moves@, pre.typed_prefix@) {
            &&& post.typed_prefix == pre.typed_prefix
            &&& post.preview is None
            &&& post.max_preview_lines == pre.max_preview_lines
            &&& r matches KeyResult::Finished { cleared, outcome } && cleared == displayed_lines(
                pre.preview,
            ) && (outcome matches Outcome::Committed(m) && m.id@ == pre.typed_prefix@
                && exists|i: int|
                0 <= i < pre.legal_moves@.len() && m == #[trigger] pre.legal_moves@[i])
        } else {
            &&& post == pre
            &&& r matches KeyResult::Rejected { message } && message@ == invalid_message(
                pre.typed_prefix@,
                pre.legal_moves@.len(),
            )
        },
        Key::Char(_) | Key::Backspace => if !mutates_prefix(pre.typed_prefix@, k) {
            post == pre && r == KeyResult::Ignored
        } else {
            let np = prefix_after(pre.typed_prefix@, k);
            &&& post.typed_prefix@ == np
            &&& post.max_preview_lines == pre.max_preview_lines
            &&& r matches KeyResult::Edited { cleared, request } && cleared == displayed_lines(
                pre.preview,
            ) && (if matches_id(pre.legal_moves@, np) {
                post.preview matches Some(PreviewState::Pending(q)) && request == Some(q)
            } else {
                post.preview is None && request is None
            })
        },
    }
}

/// How a session changes when the oracle's reply for the prefix snapshot
/// `requested_for` arrives carrying `text`: if the snapshot is still the
/// prefix typed now the reply is measured, recorded and painted, raising the
/// round's high-water mark; otherwise the session is untouched and the reply
/// is silently discarded.
pub open spec fn reply_step(
    pre: Session,
    requested_for: Seq<char>,
    text: Seq<char>,
    post: Session,
    r: ReplyResult,
) -> bool {
    &&& pre.wf()
    &&& post.wf()
    &&& if requested_for == pre.typed_prefix@ {
        &&& post.board_state == pre.board_state
        &&& post.current_player == pre.current_player
        &&& post.legal_moves == pre.legal_moves
        &&& post.typed_prefix == pre.typed_prefix
        &&& post.preview matches Some(PreviewState::Ready(p)) && p.text@ == text
            && p.rendered_for@ == requested_for && p.line_count == lines_of(text).len()
        &&& post.max_preview_lines == (if pre.max_preview_lines >= lines_of(text).len() {
            pre.max_preview_lines as int
        } else {
            lines_of(text).len() as int
        })
        &&& r matches ReplyResult::Painted { cleared, lines } && cleared == displayed_lines(
            pre.preview,
        ) && lines == lines_of(text).len()
    } else {
        post == pre && r == ReplyResult::Discarded
    }
}

impl Session {
    fn preview_height(&self) -> (n: usize)
        ensures
            n == displayed_lines(self.preview),
    {
        match &self.preview {
            Some(PreviewState::Ready(r)) => r.line_count,
            _ => 0,
        }
    }

    fn after_edit(&mut self) -> (r: KeyResult)
        requires
            old(self).legal_moves@.len() > 0,
            ids_unique(old(self).legal_moves@),
        ensures
            final(self).wf(),
            final(self).board_state == old(self).board_state,
            final(self).current_player == old(self).current_player,
            final(self).legal_moves == old(self).legal_moves,
            final(self).typed_prefix == old(self).typed_prefix,
            final(self).max_preview_lines == old(self).max_preview_lines,
            r matches KeyResult::Edited { cleared, request } && cleared == displayed_lines(
                old(self).preview,
            ) && (if matches_id(old(self).legal_moves@, old(self).typed_prefix@) {
                final(self).preview matches Some(PreviewState::Pending(q)) && request == Some(q)
            } else {
                final(self).preview is None && request is None
            }),
    {
        let cleared = self.preview_height();
        match maybe_request_preview(&self.typed_prefix, &self.legal_moves) {
            Some(req) => {
                let handed = req.clone();
                self.preview = Some(PreviewState::Pending(req));
                KeyResult::Edited { cleared, request: Some(handed) }
            },
            None => {
                self.preview = None;
                KeyResult::Edited { cleared, request: None }
            },
        }
    }

    /// Consumes one keystroke. The board state is never touched; enter on a
    /// prefix that matches a move ends the round committed to exactly that
    /// move, enter on anything else only reports; edits retarget or drop the
    /// preview so it can never outlive its prefix.
    pub fn on_key(&mut self, k: Key) -> (r: KeyResult)
        requires
            old(self).wf(),
        ensures
            key_step(*old(self), k, *final(self), r),
    {
        match k {
            Key::Quit => KeyResult::Finished { cleared: 0, outcome: Outcome::Quit },
            Key::Enter => {
                match find_match(&self.legal_moves, &self.typed_prefix) {
                    Some(i) => {
                        let cleared = self.preview_height();
                        self.preview = None;
                        let m = self.legal_moves[i].clone();
                        KeyResult::Finished { cleared, outcome: Outcome::Committed(m) }
                    },
                    None => {
                        let message = invalid_selection_message(
                            &self.typed_prefix,
                            self.legal_moves.len(),
                        );
                        KeyResult::Rejected { message }
                    },
                }
            },
            Key::Char(c) => {
                if '0' <= c && c <= '9' {
                    push_char(&mut self.typed_prefix, c);
                    self.after_edit()
                } else {
                    KeyResult::Ignored
                }
            },
            Key::Backspace => {
                if self.typed_prefix.as_str().unicode_len() > 0 {
                    pop_char(&mut self.typed_prefix);
                    self.after_edit()
                } else {
                    KeyResult::Ignored
                }
            },
        }
    }

    /// Consumes the oracle's reply to the request tagged `requested_for`.
    /// The reply is painted only if that snapshot is still the prefix typed
    /// now; otherwise the session is left exactly as it was.
    pub fn on_oracle_reply(&mut self, requested_for: &String, text: String) -> (r: ReplyResult)
        requires
            old(self).wf(),
        ensures
            reply_step(*old(self), requested_for@, text@, *final(self), r),
    {
        if !(self.typed_prefix == *requested_for) {
            return ReplyResult::Discarded;
        }
        let cleared = self.preview_height();
        let lines = crate::display::split_lines(text.as_str()).len();
        let rendered = RenderedPreview {
            text,
            line_count: lines,
            rendered_for: requested_for.clone(),
        };
        if lines > self.max_preview_lines {
            self.max_preview_lines = lines;
        }
        self.preview = Some(PreviewState::Ready(rendered));
        ReplyResult::Painted { cleared, lines }
    }
}

/// The message shown for an invalid selection, naming the offending input and
/// the count of valid choices.
pub fn invalid_selection_message(prefix: &String, n: usize) -> (s: String)
    ensures
        s@ == invalid_message(prefix@, n as nat),
{
    let mut s = String::from_str("You typed `");
    s.append(prefix.as_str());
    s.append("`; but you need to select one of the ");
    push_decimal(&mut s, n as u64);
    s.append(" moves listed above");
    proof {
        assert(s@ =~= invalid_message(prefix@, n as nat));
    }
    s
}

/// The row a user-facing message is written on: just below the tallest
/// preview the round has shown under the query line.
pub fn message_line(query_line: usize, max_preview_lines: usize) -> (r: usize)
    requires
        query_line + max_preview_lines + 1 <= usize::MAX,
    ensures
        r == query_line + max_preview_lines + 1,
{
    query_line + max_preview_lines + 1
}

/// No stale preview: if two prefix edits happen and only then the oracle's
/// reply to a request issued for the earlier prefix arrives — the earlier
/// prefix having been abandoned — the reply is discarded without touching the
/// session, and whatever preview is on screen afterwards was rendered for the
/// prefix typed now, never for the abandoned one.
pub proof fn lemma_no_stale_preview(
    s0: Session,
    k1: Key,
    s1: Session,
    r1: KeyResult,
    k2: Key,
    s2: Session,
    r2: KeyResult,
    text: Seq<char>,
    s3: Session,
    r3: ReplyResult,
)
    requires
        key_step(s0, k1, s1, r1),
        key_step(s1, k2, s2, r2),
        reply_step(s2, s1.typed_prefix@, text, s3, r3),
        s1.typed_prefix@ != s2.typed_prefix@,
    ensures
        r3 == ReplyResult::Discarded,
        s3 == s2,
        shown_for(s3) matches Some(p) ==> p == s3.typed_prefix@ && p != s1.typed_prefix@,
{
}

} // verus!
