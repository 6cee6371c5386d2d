//! The tic-tac-toe rule set served by the game service: board states, move
//! enumeration, win detection, parsing and rendering.
//!
//! A board is nine cells in row-major order; a cell holds `'X'`, `'O'` or
//! `'-'` for an empty square. Moves are numbered 1 through 9 after the cell
//! they fill.

use vstd::prelude::*;
use crate::game_core::{MoveId, Player};
use crate::strutil::push_char;
use smallvec::SmallVec;

verus! {

/// A tic-tac-toe board: nine cells in row-major order.
pub type TicTacToeBoard = Vec<char>;

/// A tic-tac-toe position: the board and the player whose turn it is.
#[derive(Debug)]
pub struct TicTacToeGame {
    pub board: TicTacToeBoard,
    pub player: Player,
}

/// The characters a board cell may hold.
pub open spec fn cell_ok(c: char) -> bool {
    c == '-' || c == 'X' || c == 'O'
}

/// The player who moves after `p`.
pub open spec fn other_player(p: char) -> char {
    if p == 'X' {
        'O'
    } else {
        'X'
    }
}

/// Whether `p` holds three in a row on `b`: a full row, column or diagonal.
pub open spec fn wins(b: Seq<char>, p: char) -> bool {
    ||| (b[0] == p && b[1] == p && b[2] == p)
    ||| (b[3] == p && b[4] == p && b[5] == p)
    ||| (b[6] == p && b[7] == p && b[8] == p)
    ||| (b[0] == p && b[3] == p && b[6] == p)
    ||| (b[1] == p && b[4] == p && b[7] == p)
    ||| (b[2] == p && b[5] == p && b[8] == p)
    ||| (b[0] == p && b[4] == p && b[8] == p)
    ||| (b[2] == p && b[4] == p && b[6] == p)
}

impl TicTacToeGame {
    /// A well-formed position: nine cells, each a valid cell character, and a
    /// valid player to move.
    pub open spec fn wf(self) -> bool {
        &&& self.board@.len() == 9
        &&& forall|i: int| 0 <= i < 9 ==> cell_ok(#[trigger] self.board@[i])
        &&& (self.player == 'X' || self.player == 'O')
    }

    /// Serializes the position to its nine-character board string.
    pub fn unparse(&self) -> (s: String)
        ensures
            s@ == self.board@,
    {
        let mut s = String::new();
        let mut j: usize = 0;
        while j < self.board.len()
            invariant
                j <= self.board@.len(),
                s@ == self.board@.take(j as int),
            decreases self.board@.len() - j,
        {
            push_char(&mut s, self.board[j]);
            proof {
                assert(s@ =~= self.board@.take(j + 1 as int));
            }
            j += 1;
        }
        proof {
            assert(self.board@.take(self.board@.len() as int) =~= self.board@);
        }
        s
    }
}

impl Default for TicTacToeGame {
    /// The initial position: an empty board with 'X' to move.
    fn default() -> (g: Self)
        ensures
            g.wf(),
            g.board@ =~= Seq::new(9, |i: int| '-'),
            g.player == 'X',
    {
        let board = vec!['-'; 9];
        proof {
            assert(forall|i: int| 0 <= i < 9 ==> board@[i] == '-');
        }
        TicTacToeGame { board, player: 'X' }
    }
}

/// Whether the three cells and the player's mark are all the same character.
pub fn all_eq(x: &char, y: &char, z: &char, p: &char) -> (r: bool)
    ensures
        r == (x == y && y == z && z == p),
{
    *x == *y && *y == *z && *z == *p
}

/// The winner of `board`, if `player` has completed a row, column or
/// diagonal; tested for one player at a time.
pub fn victory(board: &TicTacToeBoard, player: Player) -> (r: Option<Player>)
    requires
        board@.len() == 9,
    ensures
        r == (if wins(board@, player) {
            Some(player)
        } else {
            None::<Player>
        }),
{
    if all_eq(&board[0], &board[1], &board[2], &player)
        || all_eq(&board[3], &board[4], &board[5], &player)
        || all_eq(&board[6], &board[7], &board[8], &player)
        || all_eq(&board[0], &board[3], &board[6], &player)
        || all_eq(&board[1], &board[4], &board[7], &player)
        || all_eq(&board[2], &board[5], &board[8], &player)
        || all_eq(&board[0], &board[4], &board[8], &player)
        || all_eq(&board[2], &board[4], &board[6], &player) {
        Some(player)
    } else {
        None
    }
}

/// How many cells of `s` hold the character `c`.
pub open spec fn count_char(s: Seq<char>, c: char) -> nat
    decreases s.len(),
{
    if s.len() == 0 {
        0
    } else {
        count_char(s.drop_last(), c) + (if s.last() == c {
            1nat
        } else {
            0nat
        })
    }
}

proof fn lemma_count_take_step(s: Seq<char>, c: char, j: int)
    requires
        0 <= j < s.len(),
    ensures
        count_char(s.take(j + 1), c) == count_char(s.take(j), c) + (if s[j] == c {
            1int
        } else {
            0int
        }),
{
    assert(s.take(j + 1).drop_last() =~= s.take(j));
    assert(s.take(j + 1).last() == s[j]);
}

/// The position of the first character of `s` that is not a valid cell
/// (or `s.len()` if every character is).
pub open spec fn first_bad_index(s: Seq<char>) -> int
    decreases s.len(),
{
    if s.len() == 0 {
        0
    } else if !cell_ok(s[0]) {
        0
    } else {
        1 + first_bad_index(s.skip(1))
    }
}

proof fn lemma_first_bad(s: Seq<char>, i: int)
    requires
        0 <= i < s.len(),
        !cell_ok(s[i]),
        forall|j: int| 0 <= j < i ==> cell_ok(#[trigger] s[j]),
    ensures
        first_bad_index(s) == i,
    decreases i,
{
    if i > 0 {
        assert(cell_ok(s[0]));
        assert(s.skip(1)[i - 1] == s[i]);
        assert(forall|j: int| 0 <= j < i - 1 ==> #[trigger] s.skip(1)[j] == s[j + 1]);
        lemma_first_bad(s.skip(1), i - 1);
    }
}

/// The nine-character strings that parse to a position: each character a
/// valid cell, and the mark counts consistent with alternating turns that
/// 'X' began.
pub open spec fn parse_ok(s: Seq<char>) -> bool {
    &&& s.len() == 9
    &&& forall|i: int| 0 <= i < 9 ==> cell_ok(#[trigger] s[i])
    &&& count_char(s, 'O') <= count_char(s, 'X')
    &&& count_char(s, 'X') <= count_char(s, 'O') + 1
}

/// The player to move in a parsed position: 'X' went first, so 'X' is to
/// move exactly when the mark counts are equal.
pub open spec fn starting_player(s: Seq<char>) -> char {
    if count_char(s, 'X') == count_char(s, 'O') {
        'X'
    } else {
        'O'
    }
}

/// The message `parse` rejects `s` with; meaningful only when `!parse_ok(s)`.
/// A wrong length is reported first, then the first invalid character, then
/// inconsistent mark counts.
pub open spec fn parse_error_of(s: Seq<char>) -> Seq<char> {
    if s.len() != 9 {
        "input must be length 9"@
    } else if exists|i: int| 0 <= i < 9 && !cell_ok(#[trigger] s[i]) {
        if s[first_bad_index(s)] == 'x' || s[first_bad_index(s)] == 'o' {
            "only upper-case moves allowed"@
        } else {
            "unexpected chacter found in board"@
        }
    } else if count_char(s, 'O') > count_char(s, 'X') {
        "too many O moves"@
    } else {
        "too many X moves"@
    }
}

impl TicTacToeGame {
    /// Deserializes a nine-character board string. Accepts exactly the
    /// strings of nine valid cells whose mark counts fit alternating play,
    /// reproduces the board verbatim, and derives whose turn it is from the
    /// counts; anything else is rejected with a message naming the first
    /// problem found.
    pub fn parse(input: &str) -> (r: Result<TicTacToeGame, String>)
        ensures
            r is Ok <==> parse_ok(input@),
            r matches Ok(g) ==> g.wf() && g.board@ == input@ && g.player == starting_player(
                input@,
            ),
            r matches Err(m) ==> m@ == parse_error_of(input@),
    {
        let n = input.unicode_len();
        if n != 9 {
            return Err(String::from_str("input must be length 9"));
        }
        let mut board: Vec<char> = Vec::new();
        let mut num_x: u32 = 0;
        let mut num_o: u32 = 0;
        let mut i: usize = 0;
        while i < 9
            invariant
                input@.len() == 9,
                i <= 9,
                board@ == input@.take(i as int),
                forall|j: int| 0 <= j < i ==> cell_ok(#[trigger] input@[j]),
                num_x == count_char(input@.take(i as int), 'X'),
                num_o == count_char(input@.take(i as int), 'O'),
                num_x <= i,
                num_o <= i,
            decreases 9 - i,
        {
            let c = input.get_char(i);
            if c == '-' || c == 'X' || c == 'O' {
                board.push(c);
            } else if c == 'x' || c == 'o' {
                proof {
                    lemma_first_bad(input@, i as int);
                }
                return Err(String::from_str("only upper-case moves allowed"));
            } else {
                proof {
                    lemma_first_bad(input@, i as int);
                }
                return Err(String::from_str("unexpected chacter found in board"));
            }
            if c == 'X' {
                num_x += 1;
            }
            if c == 'O' {
                num_o += 1;
            }
            proof {
                lemma_count_take_step(input@, 'X', i as int);
                lemma_count_take_step(input@, 'O', i as int);
                assert(board@ =~= input@.take(i + 1 as int));
            }
            i += 1;
        }
        proof {
            assert(input@.take(9) =~= input@);
        }
        if num_o > num_x {
            return Err(String::from_str("too many O moves"));
        }
        let player = if num_x == num_o {
            'X'
        } else if num_x == num_o + 1 {
            'O'
        } else {
            return Err(String::from_str("too many X moves"));
        };
        Ok(TicTacToeGame { board, player })
    }
}

/// Whether the board still has an empty cell to play on.
pub fn space_available(board: &TicTacToeBoard) -> (r: bool)
    ensures
        r == exists|i: int| 0 <= i < board@.len() && board@[i] == '-',
{
    let mut j: usize = 0;
    while j < board.len()
        invariant
            j <= board@.len(),
            forall|i: int| 0 <= i < j ==> board@[i] != '-',
        decreases board@.len() - j,
    {
        if board[j] == '-' {
            return true;
        }
        j += 1;
    }
    false
}

/// The list of winning players carried by a game-ending move: empty for a
/// draw, a single player for a win. It keeps the single-winner common case
/// allocation-free in a small vector of the `smallvec` crate, which the rest
/// of the crate reads only through `winner_chars`.
#[verifier::external_body]
#[derive(Debug)]
pub struct Winners {
    inner: SmallVec<[Player; 1]>,
}

/// The players a winner list holds, in insertion order.
pub uninterp spec fn winner_chars(v: Winners) -> Seq<char>;

impl Winners {
    /// Relies on `smallvec::SmallVec::new`: a freshly constructed small
    /// vector holds no elements.
    #[verifier::external_body]
    fn new() -> (v: Winners)
        ensures
            winner_chars(v) == Seq::<char>::empty(),
    {
        Winners { inner: SmallVec::new() }
    }

    /// Relies on `smallvec::SmallVec::push`: appends the element at the end.
    #[verifier::external_body]
    fn push_winner(&mut self, c: char)
        requires
            winner_chars(*old(self)).len() < usize::MAX,
        ensures
            winner_chars(*final(self)) == winner_chars(*old(self)).push(c),
    {
        self.inner.push(c)
    }

    /// Relies on `smallvec::SmallVec::iter`: yields the held elements in
    /// insertion order.
    #[verifier::external_body]
    pub(crate) fn to_vec(&self) -> (r: Vec<char>)
        ensures
            r@ == winner_chars(*self),
    {
        self.inner.iter().copied().collect()
    }
}

/// A transition of the game from one state to a new state: its identifier
/// (the number of the cell it fills), the resulting state, and, when the move
/// ends the game, the list of winning players (empty for a draw).
#[derive(Debug)]
pub struct Move {
    pub id: MoveId,
    pub next_state: TicTacToeGame,
    pub end_game: Option<Winners>,
}

impl Move {
    /// The winning players, when this move ends the game.
    pub fn victors(&self) -> (r: Option<Vec<char>>)
        ensures
            r is Some <==> self.end_game is Some,
            r matches Some(v) ==> (self.end_game matches Some(w) && v@ == winner_chars(w)),
    {
        match &self.end_game {
            Some(w) => Some(w.to_vec()),
            None => None,
        }
    }
}

/// Whether a board has an empty cell left.
pub open spec fn has_space(b: Seq<char>) -> bool {
    exists|i: int| 0 <= i < b.len() && b[i] == '-'
}

/// Whether `m` is the move on board `b` (with `p` to play) that fills cell
/// `m.id - 1`: the cell was empty, the resulting board marks it for `p`, the
/// turn passes, and the game ends exactly when that play wins or fills the
/// board — won by `p` alone, or drawn with no winner.
pub open spec fn move_matches(b: Seq<char>, p: char, m: Move) -> bool {
    let b2 = b.update(m.id - 1, p);
    &&& 1 <= m.id <= 9
    &&& b[m.id - 1] == '-'
    &&& m.next_state.board@ == b2
    &&& m.next_state.player == other_player(p)
    &&& (m.end_game is Some <==> (wins(b2, p) || !has_space(b2)))
    &&& (m.end_game matches Some(v) ==> winner_chars(v) == (if wins(b2, p) {
        seq![p]
    } else {
        Seq::<char>::empty()
    }))
}

/// What enumerating the moves of board `b` with `p` to play yields: every
/// entry is the move of one empty cell, entries come in cell order, and every
/// empty cell is represented.
pub open spec fn moves_post(b: Seq<char>, p: char, ms: Seq<Move>) -> bool {
    &&& forall|k: int| 0 <= k < ms.len() ==> move_matches(b, p, #[trigger] ms[k])
    &&& forall|k1: int, k2: int| 0 <= k1 < k2 < ms.len() ==> ms[k1].id < ms[k2].id
    &&& forall|i: int|
        0 <= i < 9 && b[i] == '-' ==> exists|k: int|
            0 <= k < ms.len() && #[trigger] ms[k].id == i + 1
}

impl TicTacToeGame {
    /// Enumerates the moves available from this position: one move per empty
    /// cell, in cell order, numbered after the cell it fills.
    pub fn moves(&self) -> (r: Vec<Move>)
        requires
            self.wf(),
        ensures
            moves_post(self.board@, self.player, r@),
    {
        let mut v: Vec<Move> = Vec::new();
        let next_player = if self.player == 'X' {
            'O'
        } else {
            'X'
        };
        let mut i: usize = 1;
        while i <= 9
            invariant
                self.wf(),
                1 <= i <= 10,
                next_player == other_player(self.player),
                forall|k: int| 0 <= k < v@.len() ==> move_matches(self.board@, self.player, #[trigger] v@[k]),
                forall|k: int| 0 <= k < v@.len() ==> #[trigger] v@[k].id < i,
                forall|k1: int, k2: int| 0 <= k1 < k2 < v@.len() ==> v@[k1].id < v@[k2].id,
                forall|j: int|
                    0 <= j < i - 1 && self.board@[j] == '-' ==> exists|k: int|
                        0 <= k < v@.len() && #[trigger] v@[k].id == j + 1,
            decreases 10 - i,
        {
            if self.board[i - 1] == '-' {
                let mut next_board: Vec<char> = Vec::new();
                let mut j: usize = 0;
                while j < 9
                    invariant
                        self.wf(),
                        1 <= i <= 9,
                        j <= 9,
                        next_board@.len() == j,
                        forall|t: int|
                            0 <= t < j ==> #[trigger] next_board@[t] == (if t == i - 1 {
                                self.player
                            } else {
                                self.board@[t]
                            }),
                    decreases 9 - j,
                {
                    if j == i - 1 {
                        next_board.push(self.player);
                    } else {
                        next_board.push(self.board[j]);
                    }
                    j += 1;
                }
                proof {
                    assert(next_board@ =~= self.board@.update(i - 1, self.player));
                }
                let victor = victory(&next_board, self.player);
                let avail = space_available(&next_board);
                let end_game: Option<Winners> = match victor {
                    Some(p) => {
                        let mut w = Winners::new();
                        w.push_winner(p);
                        proof {
                            assert(winner_chars(w) =~= seq![self.player]);
                        }
                        Some(w)
                    },
                    None => {
                        if !avail {
                            Some(Winners::new())
                        } else {
                            None
                        }
                    },
                };
                let next_state = TicTacToeGame { board: next_board, player: next_player };
                let ghost old_v = v@;
                v.push(Move { id: i as u32, next_state, end_game });
                proof {
                    assert forall|j: int| 0 <= j < i && self.board@[j] == '-' implies exists|k: int|
                        0 <= k < v@.len() && #[trigger] v@[k].id == j + 1 by {
                        if j == i - 1 {
                            assert(v@[old_v.len() as int].id == j + 1);
                        } else {
                            let k = choose|k: int|
                                0 <= k < old_v.len() && #[trigger] old_v[k].id == j + 1;
                            assert(v@[k].id == j + 1);
                        }
                    }
                }
            }
            i += 1;
        }
        v
    }
}

/// A board cell as it is drawn: the mark, or a blank for an empty cell,
/// padded to three characters.
pub open spec fn pad3(c: char) -> Seq<char> {
    seq![' ', if c == '-' { ' ' } else { c }, ' ']
}

/// One drawn board row: the three padded cells separated by pipes.
pub open spec fn spec_row(a: char, b: char, c: char) -> Seq<char> {
    seq![' '] + pad3(a) + seq![' ', '|', ' '] + pad3(b) + seq![' ', '|', ' '] + pad3(c) + seq![
        ' ',
        '\n',
    ]
}

/// The horizontal rule drawn between board rows.
pub open spec fn spec_divider() -> Seq<char> {
    seq![
        '-', '-', '-', '-', '-', '|', '-', '-', '-', '-', '-', '|', '-', '-', '-', '-', '-', '\n',
    ]
}

/// The drawn form of a whole board: three rows with rules between them.
pub open spec fn spec_render(b: Seq<char>) -> Seq<char> {
    spec_row(b[0], b[1], b[2]) + spec_divider() + spec_row(b[3], b[4], b[5]) + spec_divider()
        + spec_row(b[6], b[7], b[8])
}

fn push_pad(s: &mut String, c: char)
    ensures
        final(s)@ == old(s)@ + pad3(c),
{
    push_char(s, ' ');
    push_char(
        s,
        if c == '-' {
            ' '
        } else {
            c
        },
    );
    push_char(s, ' ');
    proof {
        assert(s@ =~= old(s)@ + pad3(c));
    }
}

fn push_row(s: &mut String, a: char, b: char, c: char)
    ensures
        final(s)@ == old(s)@ + spec_row(a, b, c),
{
    push_char(s, ' ');
    push_pad(s, a);
    push_char(s, ' ');
    push_char(s, '|');
    push_char(s, ' ');
    push_pad(s, b);
    push_char(s, ' ');
    push_char(s, '|');
    push_char(s, ' ');
    push_pad(s, c);
    push_char(s, ' ');
    push_char(s, '\n');
    proof {
        assert(s@ =~= old(s)@ + spec_row(a, b, c));
    }
}

fn push_divider(s: &mut String)
    ensures
        final(s)@ == old(s)@ + spec_divider(),
{
    let mut j: usize = 0;
    while j < 17
        invariant
            j <= 17,
            s@ == old(s)@ + spec_divider().take(j as int),
        decreases 17 - j,
    {
        if j == 5 || j == 11 {
            push_char(s, '|');
        } else {
            push_char(s, '-');
        }
        proof {
            assert(s@ =~= old(s)@ + spec_divider().take(j + 1 as int));
        }
        j += 1;
    }
    push_char(s, '\n');
    proof {
        assert(s@ =~= old(s)@ + spec_divider());
    }
}

/// The score of a finished position from `p`'s side: won, lost, or neither.
pub open spec fn spec_value_for(b: Seq<char>, p: char) -> int {
    if wins(b, p) {
        100000
    } else if wins(b, other_player(p)) {
        -100000
    } else {
        0
    }
}

impl TicTacToeGame {
    /// Renders the position as the five-line picture of the board that is
    /// shown to players.
    pub fn render_to_text(&self) -> (s: String)
        requires
            self.board@.len() == 9,
        ensures
            s@ == spec_render(self.board@),
    {
        let mut s = String::new();
        push_row(&mut s, self.board[0], self.board[1], self.board[2]);
        push_divider(&mut s);
        push_row(&mut s, self.board[3], self.board[4], self.board[5]);
        push_divider(&mut s);
        push_row(&mut s, self.board[6], self.board[7], self.board[8]);
        proof {
            assert(s@ =~= spec_render(self.board@));
        }
        s
    }

    /// The value of the position for player `p`: a large positive score when
    /// `p` has won, the negated score when the opponent has, zero otherwise.
    pub fn value_for(&self, p: Player) -> (r: i64)
        requires
            self.board@.len() == 9,
        ensures
            r == spec_value_for(self.board@, p),
    {
        let other = if p == 'X' {
            'O'
        } else {
            'X'
        };
        if victory(&self.board, p).is_some() {
            100000
        } else if victory(&self.board, other).is_some() {
            -100000
        } else {
            0
        }
    }
}

/// Chooses the best move amongst a provided set of moves. With nothing yet to
/// rank the moves by, the first is taken.
pub fn search(moves: &Vec<Move>) -> (choice: &Move)
    requires
        moves@.len() > 0,
    ensures
        *choice == moves@[0],
{
    &moves[0]
}

/// The position in `moves` of the move with identifier `id`, if one exists.
pub fn find_move(moves: &Vec<Move>, id: MoveId) -> (r: Option<usize>)
    ensures
        r matches Some(k) ==> k < moves@.len() && moves@[k as int].id == id,
        r is None ==> forall|k: int| 0 <= k < moves@.len() ==> moves@[k].id != id,
{
    let mut j: usize = 0;
    while j < moves.len()
        invariant
            j <= moves@.len(),
            forall|k: int| 0 <= k < j ==> moves@[k].id != id,
        decreases moves@.len() - j,
    {
        if moves[j].id == id {
            return Some(j);
        }
        j += 1;
    }
    None
}

fn board_copy(b: &Vec<char>) -> (r: Vec<char>)
    ensures
        r@ == b@,
{
    let mut r: Vec<char> = Vec::new();
    let mut j: usize = 0;
    while j < b.len()
        invariant
            j <= b@.len(),
            r@ == b@.take(j as int),
        decreases b@.len() - j,
    {
        r.push(b[j]);
        proof {
            assert(r@ =~= b@.take(j + 1 as int));
        }
        j += 1;
    }
    proof {
        assert(b@.take(b@.len() as int) =~= b@);
    }
    r
}

/// The position play continues from after taking `the_move`: a fresh game
/// when the move ended the old one, otherwise the state the move leads to.
pub fn end_game_check(the_move: &Move) -> (g: TicTacToeGame)
    ensures
        the_move.end_game is Some ==> g.wf() && g.board@ =~= Seq::new(9, |i: int| '-')
            && g.player == 'X',
        the_move.end_game is None ==> g.board@ == the_move.next_state.board@ && g.player
            == the_move.next_state.player,
{
    match &the_move.end_game {
        Some(_) => TicTacToeGame::default(),
        None => TicTacToeGame {
            board: board_copy(&the_move.next_state.board),
            player: the_move.next_state.player,
        },
    }
}

} // verus!
