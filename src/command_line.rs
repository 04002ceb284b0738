//! Command lines for `cmd.exe /C`: quoting of single arguments and joining
//! of a program with its arguments.
use vstd::prelude::*;
use vstd::string::*;

use crate::text::{push_repeated, push_text, repeat_char};

verus! {

/// Characters that force an argument to be wrapped in double quotes.
pub open spec fn is_special(c: char) -> bool {
    c == ' ' || c == '\t' || c == '\n' || c == '\r' || c == '"'
}

pub open spec fn needs_quoting(s: Seq<char>) -> bool {
    exists|i: int| 0 <= i < s.len() && #[trigger] is_special(s[i])
}

/// Number of backslashes that end `s`.
pub open spec fn trailing_backslashes(s: Seq<char>) -> nat
    decreases s.len(),
{
    if s.len() == 0 {
        0
    } else if s.last() == '\\' {
        1 + trailing_backslashes(s.drop_last())
    } else {
        0
    }
}

/// The inside of a quoted argument: each quote is escaped, and so is every
/// backslash that immediately precedes a quote.
pub open spec fn escaped_body(s: Seq<char>) -> Seq<char>
    decreases s.len(),
{
    if s.len() == 0 {
        Seq::empty()
    } else {
        let prefix = s.drop_last();
        let c = s.last();
        if c == '"' {
            escaped_body(prefix) + repeat_char('\\', trailing_backslashes(prefix)) + seq!['\\', '"']
        } else {
            escaped_body(prefix).push(c)
        }
    }
}

/// An argument as `cmd.exe` reads it back: unchanged when it holds no
/// special character, else quoted, with the backslashes before the closing
/// quote doubled.
pub open spec fn quoted_arg(s: Seq<char>) -> Seq<char> {
    if !needs_quoting(s) {
        s
    } else {
        seq!['"'] + escaped_body(s) + repeat_char('\\', trailing_backslashes(s)) + seq!['"']
    }
}

/// The command line: the quoted program followed by each quoted argument,
/// separated by single spaces.
pub open spec fn joined_command(bin: Seq<char>, args: Seq<Seq<char>>) -> Seq<char>
    decreases args.len(),
{
    if args.len() == 0 {
        quoted_arg(bin)
    } else {
        joined_command(bin, args.drop_last()) + seq![' '] + quoted_arg(args.last())
    }
}

fn is_special_char(c: char) -> (r: bool)
    ensures
        r == is_special(c),
{
    c == ' ' || c == '\t' || c == '\n' || c == '\r' || c == '"'
}

fn arg_needs_quoting(arg: &str) -> (r: bool)
    ensures
        r == needs_quoting(arg@),
{
    let n = arg.unicode_len();
    let mut i: usize = 0;
    while i < n
        invariant
            n == arg@.len(),
            i <= n,
            forall|j: int| 0 <= j < i ==> !is_special(#[trigger] arg@[j]),
        decreases n - i,
    {
        if is_special_char(arg.get_char(i)) {
            return true;
        }
        i = i + 1;
    }
    false
}

/// Quotes one argument for a `cmd.exe /C` command line.
pub fn quote_windows_arg(arg: &str) -> (r: String)
    ensures
        r@ == quoted_arg(arg@),
{
    if !arg_needs_quoting(arg) {
        return arg.to_owned();
    }
    let ghost s = arg@;
    let n = arg.unicode_len();
    let mut result = String::new();
    result.push('"');
    let mut backslashes: usize = 0;
    let mut i: usize = 0;
    while i < n
        invariant
            n == s.len(),
            s == arg@,
            i <= n,
            backslashes == trailing_backslashes(s.take(i as int)),
            backslashes <= i,
            result@ == seq!['"'] + escaped_body(s.take(i as int)),
        decreases n - i,
    {
        let c = arg.get_char(i);
        let ghost prefix = s.take(i as int);
        assert(s.take(i + 1).drop_last() =~= prefix);
        assert(s.take(i + 1).last() == c);
        if c == '\\' {
            backslashes = backslashes + 1;
            result.push('\\');
        } else if c == '"' {
            push_repeated(&mut result, '\\', backslashes);
            push_text(&mut result, "\\\"");
            proof {
                reveal_strlit("\\\"");
            }
            backslashes = 0;
        } else {
            backslashes = 0;
            result.push(c);
        }
        i = i + 1;
        assert(result@ =~= seq!['"'] + escaped_body(s.take(i as int)));
    }
    assert(s.take(n as int) =~= s);
    push_repeated(&mut result, '\\', backslashes);
    result.push('"');
    assert(result@ =~= quoted_arg(s));
    result
}

/// Joins the program and its arguments into one `cmd.exe /C` command line,
/// quoting each part where needed.
pub fn build_windows_command(bin_path: &str, args: Vec<String>) -> (r: String)
    ensures
        r@ == joined_command(bin_path@, args@.map_values(|a: String| a@)),
{
    let ghost views = args@.map_values(|a: String| a@);
    let mut result = quote_windows_arg(bin_path);
    let mut i: usize = 0;
    while i < args.len()
        invariant
            i <= args.len(),
            views == args@.map_values(|a: String| a@),
            result@ == joined_command(bin_path@, views.take(i as int)),
        decreases args.len() - i,
    {
        let quoted = quote_windows_arg(args[i].as_str());
        result.push(' ');
        push_text(&mut result, quoted.as_str());
        proof {
            let t = views.take(i + 1);
            assert(t.drop_last() =~= views.take(i as int));
            assert(t.last() == args@[i as int]@);
        }
        i = i + 1;
    }
    assert(views.take(args.len() as int) =~= views);
    result
}

} // verus!
