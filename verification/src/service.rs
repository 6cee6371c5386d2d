//! The game service: the command URLs a client builds, and the handler that
//! answers a path-shaped request.
//!
//! A request path has the form `/C/STATE`: one command character, then the
//! serialized game state it applies to (left empty for a fresh game). The
//! handler parses the path, runs the rule engine, and fills in a plain
//! response record; the driver serializes that record onto the wire.

use vstd::prelude::*;
use crate::game_core::{spec_command, Command};
use crate::numerals::{decimal_string, spec_decimal};
use crate::strutil::{push_char, string_of_char};
use crate::tictactoe::{
    has_space, moves_post, parse_ok, parse_error_of, search, spec_render, starting_player,
    winner_chars, Move, TicTacToeGame,
};
use vstd::string::StrSliceExecFns;
use vstd::string::StringExecFns;

verus! {

/// A client's handle on the game service: the base URL commands are built on.
pub struct GameService {
    pub url_core: String,
}

/// A command URL: the base, a slash unless it already ends in one, then the
/// command character and another slash.
pub open spec fn with_char_spec(base: Seq<char>, c: char) -> Seq<char> {
    let b = if base.len() > 0 && base.last() == '/' {
        base
    } else {
        base.push('/')
    };
    b.push(c).push('/')
}

/// Appends `/C/` to the base URL (the slash is not doubled).
fn with_char(base: &String, c: char) -> (r: String)
    ensures
        r@ == with_char_spec(base@, c),
{
    let mut r = base.clone();
    let n = r.as_str().unicode_len();
    if n == 0 || r.as_str().get_char(n - 1) != '/' {
        push_char(&mut r, '/');
    }
    push_char(&mut r, c);
    push_char(&mut r, '/');
    r
}

/// Extends a command URL with its payload.
fn pushing(s: String, tail: &str) -> (r: String)
    ensures
        r@ == s@ + tail@,
{
    let mut r = s;
    r.append(tail);
    r
}

impl GameService {
    /// A handle on the service reachable at `url_core`.
    pub fn new(url_core: String) -> (s: Self)
        ensures
            s.url_core == url_core,
    {
        GameService { url_core }
    }

    /// The URL of the new-game command.
    pub fn n(&self) -> (u: String)
        ensures
            u@ == with_char_spec(self.url_core@, 'n'),
    {
        with_char(&self.url_core, 'n')
    }

    /// The URL that renders `board` as text.
    pub fn r(&self, board: &str) -> (u: String)
        ensures
            u@ == with_char_spec(self.url_core@, 'r') + board@,
    {
        pushing(with_char(&self.url_core, 'r'), board)
    }

    /// The URL that lists the moves available from `board`.
    pub fn l(&self, board: &str) -> (u: String)
        ensures
            u@ == with_char_spec(self.url_core@, 'l') + board@,
    {
        pushing(with_char(&self.url_core, 'l'), board)
    }
}

/// One legal move as the service reports it: the move's number and the state
/// and player it leads to, all as strings ready for the wire.
pub struct MoveDescription {
    pub move_id: String,
    pub next_board: String,
    pub next_player: String,
}

/// The body of a service response. Every command fills `command`, the
/// normalized state and the player to move; each command fills exactly one of
/// the remaining fields (`victory` accompanies `selected_move`).
pub struct ResponseData {
    pub command: String,
    pub parsed_game_state: String,
    pub player: String,
    pub next_game_states: Option<Vec<MoveDescription>>,
    pub selected_move: Option<(String, String)>,
    pub text: Option<String>,
    pub victory: Option<Vec<String>>,
}

/// Why a request was rejected: a command character the service does not know,
/// or a state string the rule engine could not parse (with its message).
#[derive(Debug)]
pub enum HandlerError {
    UnknownCommand,
    Parse(String),
}

/// The command character of a request path.
pub open spec fn cmd_of(path: Seq<char>) -> char {
    path[1]
}

/// The state string of a request path: everything after `/C/`.
pub open spec fn state_of(path: Seq<char>) -> Seq<char> {
    path.subrange(3, path.len() as int)
}

/// The position the handler works on: a fresh game for the new-game command,
/// the parsed state otherwise.
pub open spec fn board_of(path: Seq<char>) -> Seq<char> {
    if spec_command(cmd_of(path)) == Some(Command::NewGame) {
        Seq::new(9, |i: int| '-')
    } else {
        state_of(path)
    }
}

/// The player to move in the position the handler works on.
pub open spec fn player_of(path: Seq<char>) -> char {
    if spec_command(cmd_of(path)) == Some(Command::NewGame) {
        'X'
    } else {
        starting_player(state_of(path))
    }
}

/// Whether the descriptions `ds` report exactly the moves `ms`, in order.
pub open spec fn descs_match(ms: Seq<Move>, ds: Seq<MoveDescription>) -> bool {
    &&& ds.len() == ms.len()
    &&& forall|k: int|
        0 <= k < ms.len() ==> {
            &&& (#[trigger] ds[k]).move_id@ == spec_decimal(ms[k].id as nat)
            &&& ds[k].next_board@ == ms[k].next_state.board@
            &&& ds[k].next_player@ == seq![ms[k].next_state.player]
        }
}

/// Whether the strings `vs` name the players `cs`, one character each.
pub open spec fn char_strings(vs: Seq<String>, cs: Seq<char>) -> bool {
    &&& vs.len() == cs.len()
    &&& forall|k: int| 0 <= k < cs.len() ==> (#[trigger] vs[k])@ == seq![cs[k]]
}

/// What a successful response to `path` holds.
pub open spec fn resp_matches(path: Seq<char>, resp: ResponseData) -> bool {
    let cmd = spec_command(cmd_of(path)).unwrap();
    let b = board_of(path);
    let p = player_of(path);
    &&& resp.parsed_game_state@ == b
    &&& resp.player@ == seq![p]
    &&& match cmd {
        Command::NewGame => {
            &&& resp.command@ == "new-game"@
            &&& resp.next_game_states is None
            &&& resp.selected_move is None
            &&& resp.text is None
            &&& resp.victory is None
        },
        Command::List => {
            &&& resp.command@ == "list"@
            &&& resp.next_game_states matches Some(ds) && exists|ms: Seq<Move>|
                #[trigger] moves_post(b, p, ms) && descs_match(ms, ds@)
            &&& resp.selected_move is None
            &&& resp.text is None
            &&& resp.victory is None
        },
        Command::RenderToText => {
            &&& resp.command@ == "render-to-text"@
            &&& resp.text matches Some(t) && t@ == spec_render(b)
            &&& resp.next_game_states is None
            &&& resp.selected_move is None
            &&& resp.victory is None
        },
        Command::Select => {
            &&& resp.command@ == "select"@
            &&& exists|ms: Seq<Move>|
                {
                    &&& #[trigger] moves_post(b, p, ms)
                    &&& ms.len() > 0
                    &&& resp.selected_move matches Some((id, nb)) && id@ == spec_decimal(
                        ms[0].id as nat,
                    ) && nb@ == ms[0].next_state.board@
                    &&& (resp.victory is Some <==> ms[0].end_game is Some)
                    &&& (resp.victory matches Some(vs) ==> ms[0].end_game matches Some(w)
                        && char_strings(vs@, winner_chars(w)))
                }
            &&& resp.next_game_states is None
            &&& resp.text is None
        },
    }
}

/// Answers one request. The path must have the `/C/STATE` shape, and a
/// select request must leave the rule engine a move to pick (on a full board
/// there is none). Exactly the unknown command characters and, except for a
/// fresh game, the unparsable states are rejected; everything else is
/// answered as `resp_matches` lays out.
pub fn handle_request(path: &str) -> (r: Result<ResponseData, HandlerError>)
    requires
        path@.len() >= 3,
        path@[0] == '/',
        path@[2] == '/',
        spec_command(cmd_of(path@)) == Some(Command::Select) && parse_ok(state_of(path@))
            ==> has_space(state_of(path@)),
    ensures
        r is Ok <==> (spec_command(cmd_of(path@)) is Some && (spec_command(cmd_of(path@))
            == Some(Command::NewGame) || parse_ok(state_of(path@)))),
        (r == Err::<ResponseData, HandlerError>(HandlerError::UnknownCommand)) <==> spec_command(
            cmd_of(path@),
        ) is None,
        match r {
            Err(HandlerError::Parse(m)) => m@ == parse_error_of(state_of(path@)),
            _ => true,
        },
        r matches Ok(resp) ==> resp_matches(path@, resp),
{
    let cmd_char = path.get_char(1);
    let c = match Command::try_from(cmd_char) {
        Ok(c) => c,
        Err(_) => {
            return Err(HandlerError::UnknownCommand);
        },
    };
    let n = path.unicode_len();
    let state = path.substring_char(3, n);
    proof {
        assert(state@ =~= state_of(path@));
    }
    let game = if c == Command::NewGame {
        TicTacToeGame::default()
    } else {
        match TicTacToeGame::parse(state) {
            Ok(g) => g,
            Err(m) => {
                return Err(HandlerError::Parse(m));
            },
        }
    };
    proof {
        assert(game.board@ =~= board_of(path@));
    }
    let player = string_of_char(game.player);
    let parsed_game_state = game.unparse();
    match c {
        Command::NewGame => Ok(
            ResponseData {
                command: String::from_str("new-game"),
                parsed_game_state,
                player,
                next_game_states: None,
                selected_move: None,
                text: None,
                victory: None,
            },
        ),
        Command::List => {
            let ms = game.moves();
            let mut ds: Vec<MoveDescription> = Vec::new();
            let mut k: usize = 0;
            while k < ms.len()
                invariant
                    k <= ms@.len(),
                    ds@.len() == k,
                    forall|t: int|
                        0 <= t < k ==> {
                            &&& (#[trigger] ds@[t]).move_id@ == spec_decimal(ms@[t].id as nat)
                            &&& ds@[t].next_board@ == ms@[t].next_state.board@
                            &&& ds@[t].next_player@ == seq![ms@[t].next_state.player]
                        },
                decreases ms@.len() - k,
            {
                let m = &ms[k];
                ds.push(
                    MoveDescription {
                        move_id: decimal_string(m.id as u64),
                        next_board: m.next_state.unparse(),
                        next_player: string_of_char(m.next_state.player),
                    },
                );
                k += 1;
            }
            let resp = ResponseData {
                command: String::from_str("list"),
                parsed_game_state,
                player,
                next_game_states: Some(ds),
                selected_move: None,
                text: None,
                victory: None,
            };
            proof {
                assert(moves_post(board_of(path@), player_of(path@), ms@));
            }
            Ok(resp)
        },
        Command::RenderToText => Ok(
            ResponseData {
                command: String::from_str("render-to-text"),
                parsed_game_state,
                player,
                next_game_states: None,
                selected_move: None,
                text: Some(game.render_to_text()),
                victory: None,
            },
        ),
        Command::Select => {
            let ms = game.moves();
            proof {
                let b = game.board@;
                assert(has_space(b));
                let i = choose|i: int| 0 <= i < b.len() && b[i] == '-';
                assert(exists|k: int| 0 <= k < ms@.len() && #[trigger] ms@[k].id == i + 1);
            }
            let choice = search(&ms);
            let selected = (decimal_string(choice.id as u64), choice.next_state.unparse());
            let victory: Option<Vec<String>> = match choice.victors() {
                Some(vs) => {
                    let mut names: Vec<String> = Vec::new();
                    let mut k: usize = 0;
                    while k < vs.len()
                        invariant
                            k <= vs@.len(),
                            names@.len() == k,
                            forall|t: int|
                                0 <= t < k ==> (#[trigger] names@[t])@ == seq![vs@[t]],
                        decreases vs@.len() - k,
                    {
                        names.push(string_of_char(vs[k]));
                        k += 1;
                    }
                    Some(names)
                },
                None => None,
            };
            let resp = ResponseData {
                command: String::from_str("select"),
                parsed_game_state,
                player,
                next_game_states: None,
                selected_move: Some(selected),
                text: None,
                victory,
            };
            proof {
                assert(moves_post(board_of(path@), player_of(path@), ms@));
            }
            Ok(resp)
        },
    }
}

} // verus!
