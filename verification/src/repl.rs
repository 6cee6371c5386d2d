//! Decisions of the line-oriented driver: how a typed line is read as a
//! command, and how a confirmation answer is classified. The driver reads the
//! lines and prints the answers; what a line means is decided here.

use vstd::prelude::*;
use vstd::string::StrSliceExecFns;
use vstd::string::StringExecFns;

verus! {

/// What a line typed at the command prompt asks for.
pub enum ReplLine {
    /// Nothing was typed: prompt again.
    Empty,
    /// The user asked to leave.
    Quit,
    /// A command character, optionally with a game state after a slash.
    Command { cmd: char, state: Option<String> },
    /// A command with a payload not introduced by a slash.
    BadShape,
}

/// A reply to a yes/no question.
pub enum Answer {
    Yes,
    No,
    /// Neither: ask again.
    Retry,
}

/// Whether `s` reads `q` or `quit`, in any letter case.
pub open spec fn is_quit_word(s: Seq<char>) -> bool {
    ||| (s.len() == 1 && (s[0] == 'q' || s[0] == 'Q'))
    ||| (s.len() == 4 && (s[0] == 'q' || s[0] == 'Q') && (s[1] == 'u' || s[1] == 'U') && (s[2]
        == 'i' || s[2] == 'I') && (s[3] == 't' || s[3] == 'T'))
}

/// Whether `s` assents: nothing typed, `y` or `yes`, in any letter case.
pub open spec fn is_yes_word(s: Seq<char>) -> bool {
    ||| s.len() == 0
    ||| (s.len() == 1 && (s[0] == 'y' || s[0] == 'Y'))
    ||| (s.len() == 3 && (s[0] == 'y' || s[0] == 'Y') && (s[1] == 'e' || s[1] == 'E') && (s[2]
        == 's' || s[2] == 'S'))
}

/// Whether `s` declines: `n` or `no`, in any letter case.
pub open spec fn is_no_word(s: Seq<char>) -> bool {
    ||| (s.len() == 1 && (s[0] == 'n' || s[0] == 'N'))
    ||| (s.len() == 2 && (s[0] == 'n' || s[0] == 'N') && (s[1] == 'o' || s[1] == 'O'))
}

fn quit_word(line: &str) -> (r: bool)
    ensures
        r == is_quit_word(line@),
{
    let n = line.unicode_len();
    if n == 1 {
        let c = line.get_char(0);
        c == 'q' || c == 'Q'
    } else if n == 4 {
        let a = line.get_char(0);
        let b = line.get_char(1);
        let c = line.get_char(2);
        let d = line.get_char(3);
        (a == 'q' || a == 'Q') && (b == 'u' || b == 'U') && (c == 'i' || c == 'I') && (d == 't' || d
            == 'T')
    } else {
        false
    }
}

/// Reads one prompt line: an empty line prompts again, a quit word ends the
/// session, one character is a bare command, and a longer line must put a
/// slash between the command and the state it carries.
pub fn parse_repl_line(line: &str) -> (r: ReplLine)
    ensures
        line@.len() == 0 ==> r == ReplLine::Empty,
        line@.len() > 0 && is_quit_word(line@) ==> r == ReplLine::Quit,
        line@.len() == 1 && !is_quit_word(line@) ==> (r matches ReplLine::Command { cmd, state }
            && cmd == line@[0] && state is None),
        line@.len() >= 2 && !is_quit_word(line@) && line@[1] == '/' ==> (r
            matches ReplLine::Command { cmd, state } && cmd == line@[0] && (state matches Some(st)
            && st@ == line@.skip(2))),
        line@.len() >= 2 && !is_quit_word(line@) && line@[1] != '/' ==> r == ReplLine::BadShape,
{
    let n = line.unicode_len();
    if n == 0 {
        return ReplLine::Empty;
    }
    if quit_word(line) {
        return ReplLine::Quit;
    }
    let cmd = line.get_char(0);
    if n == 1 {
        ReplLine::Command { cmd, state: None }
    } else if line.get_char(1) == '/' {
        let st = line.substring_char(2, n);
        proof {
            assert(st@ =~= line@.skip(2));
        }
        ReplLine::Command { cmd, state: Some(st.to_owned()) }
    } else {
        ReplLine::BadShape
    }
}

/// Classifies a confirmation line: declining words say no, an empty line or
/// an assenting word says yes, anything else asks again.
pub fn classify_confirmation(line: &str) -> (r: Answer)
    ensures
        r == Answer::No <==> is_no_word(line@),
        r == Answer::Yes <==> (!is_no_word(line@) && is_yes_word(line@)),
        r == Answer::Retry <==> (!is_no_word(line@) && !is_yes_word(line@)),
{
    let n = line.unicode_len();
    if n == 1 {
        let c = line.get_char(0);
        if c == 'n' || c == 'N' {
            return Answer::No;
        }
        if c == 'y' || c == 'Y' {
            return Answer::Yes;
        }
        return Answer::Retry;
    }
    if n == 2 {
        let a = line.get_char(0);
        let b = line.get_char(1);
        if (a == 'n' || a == 'N') && (b == 'o' || b == 'O') {
            return Answer::No;
        }
        return Answer::Retry;
    }
    if n == 0 {
        return Answer::Yes;
    }
    if n == 3 {
        let a = line.get_char(0);
        let b = line.get_char(1);
        let c = line.get_char(2);
        if (a == 'y' || a == 'Y') && (b == 'e' || b == 'E') && (c == 's' || c == 'S') {
            return Answer::Yes;
        }
        return Answer::Retry;
    }
    Answer::Retry
}

} // verus!
