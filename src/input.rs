//! What a line typed by the user asks for, and the handling of empty lines
//! and interrupts while reading one.
use vstd::prelude::*;
use vstd::string::*;

use crate::text::views;

verus! {

/// What `str::trim` returns for a text.
pub uninterp spec fn trimmed(s: Seq<char>) -> Seq<char>;

/// What `shlex::split` returns for a text: its words, or `None` where the
/// quoting is unbalanced.
pub uninterp spec fn shell_words(s: Seq<char>) -> Option<Seq<Seq<char>>>;

/// Relies on `str::trim`: the text without leading and trailing white
/// space; an empty text stays empty.
#[verifier::external_body]
pub fn trim_text(s: &str) -> (r: String)
    ensures
        r@ == trimmed(s@),
        s@.len() == 0 ==> r@.len() == 0,
{
    s.trim().to_owned()
}

/// Relies on `shlex::split`: the words of a text split as a POSIX shell
/// does, or `None` where it cannot be split.
#[verifier::external_body]
pub fn split_words(s: &str) -> (r: Option<Vec<String>>)
    ensures
        r is Some <==> shell_words(s@) is Some,
        r is Some ==> views(r->Some_0@) == shell_words(s@)->Some_0,
{
    shlex::split(s)
}

/// How the user's line is read: a command after `/`, a shell command after
/// `!`, or anything else.
#[derive(Debug)]
pub enum InputKind {
    /// The words of a command, preceded by the program name `q`.
    Command(Vec<String>),
    Shell(String),
    Plain,
}

pub open spec fn command_args(words: Seq<Seq<char>>) -> Seq<Seq<char>> {
    seq!["q"@] + words
}

/// Sorts a trimmed line. A `/` line whose words cannot be split counts as
/// plain text.
pub fn classify(trimmed_line: &str) -> (r: InputKind)
    ensures
        trimmed_line@.len() > 0 && trimmed_line@[0] == '/' && shell_words(trimmed_line@.drop_first())
            is Some ==> r is Command && views(r->Command_0@) == command_args(
            shell_words(trimmed_line@.drop_first())->Some_0,
        ),
        trimmed_line@.len() > 0 && trimmed_line@[0] == '!' ==> r is Shell && r->Shell_0@
            == trimmed_line@.drop_first(),
        r is Plain <==> !(trimmed_line@.len() > 0 && trimmed_line@[0] == '!') && !(
        trimmed_line@.len() > 0 && trimmed_line@[0] == '/' && shell_words(
            trimmed_line@.drop_first(),
        ) is Some),
{
    let n = trimmed_line.unicode_len();
    if n == 0 {
        return InputKind::Plain;
    }
    let first = trimmed_line.get_char(0);
    let rest = trimmed_line.substring_char(1, n);
    assert(rest@ =~= trimmed_line@.drop_first());
    if first == '/' {
        match split_words(rest) {
            Some(words) => {
                let mut args: Vec<String> = Vec::new();
                proof {
                    reveal_strlit("q");
                }
                args.push("q".to_owned());
                let mut words = words;
                let ghost w = words@;
                args.append(&mut words);
                assert(views(args@) =~= command_args(views(w)));
                InputKind::Command(args)
            },
            None => InputKind::Plain,
        }
    } else if first == '!' {
        InputKind::Shell(rest.to_owned())
    } else {
        InputKind::Plain
    }
}

/// Whether the trimmed line says yes (`y`, `Y`) or trust (`t`, `T`).
pub open spec fn is_yes(s: Seq<char>) -> bool {
    s == seq!['y'] || s == seq!['Y']
}

pub open spec fn is_trust(s: Seq<char>) -> bool {
    s == seq!['t'] || s == seq!['T']
}

fn single_char(s: &str, c: char) -> (r: bool)
    ensures
        r == (s@ == seq![c]),
{
    if s.unicode_len() != 1 {
        return false;
    }
    let r = s.get_char(0) == c;
    assert(r ==> s@ =~= seq![c]);
    r
}

pub fn answer_is_yes(s: &str) -> (r: bool)
    ensures
        r == is_yes(s@),
{
    single_char(s, 'y') || single_char(s, 'Y')
}

pub fn answer_is_trust(s: &str) -> (r: bool)
    ensures
        r == is_trust(s@),
{
    single_char(s, 't') || single_char(s, 'T')
}

/// One attempt to read a line.
#[derive(Debug)]
pub enum ReadResult {
    Line(String),
    /// Ctrl-C or Ctrl-D.
    Interrupted,
    Failed,
}

#[derive(Debug, PartialEq, Eq, Structural)]
pub enum ReadStep {
    /// The line to hand on.
    Accept,
    /// The line was blank: ask again.
    Reprompt,
    /// A first interrupt: tell the user how to leave, and ask again.
    Warn,
    Exit,
}

/// The reading loop's decision for one attempt: blank lines are asked again,
/// a first interrupt warns (unless a single one should end), a second one
/// or a failure ends the session.
pub fn read_step(result: &ReadResult, interrupted_before: bool, exit_on_single_ctrl_c: bool) -> (r:
    ReadStep)
    ensures
        result matches ReadResult::Line(l) ==> (r == ReadStep::Reprompt <==> trimmed(l@).len()
            == 0) && (r == ReadStep::Accept <==> trimmed(l@).len() > 0),
        result is Interrupted ==> (r == ReadStep::Exit <==> interrupted_before
            || exit_on_single_ctrl_c) && (r == ReadStep::Warn <==> !interrupted_before
            && !exit_on_single_ctrl_c),
        result is Failed ==> r == ReadStep::Exit,
{
    match result {
        ReadResult::Line(line) => {
            let t = trim_text(line.as_str());
            if t.unicode_len() == 0 {
                ReadStep::Reprompt
            } else {
                ReadStep::Accept
            }
        },
        ReadResult::Interrupted => {
            if interrupted_before || exit_on_single_ctrl_c {
                ReadStep::Exit
            } else {
                ReadStep::Warn
            }
        },
        ReadResult::Failed => ReadStep::Exit,
    }
}

} // verus!
