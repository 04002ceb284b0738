use vstd::prelude::*;
use vstd::string::*;

verus! {

/// `String::push` appends one character.
pub assume_specification[ String::push ](s: &mut String, ch: char)
    ensures
        final(s)@ == old(s)@.push(ch),
;

/// Appends a string slice to `out`.
pub fn push_text(out: &mut String, piece: &str)
    ensures
        final(out)@ == old(out)@ + piece@,
{
    out.append(piece);
}

/// `n` copies of the character `c`.
pub open spec fn repeat_char(c: char, n: nat) -> Seq<char> {
    Seq::new(n, |_i: int| c)
}

/// Appends `n` copies of `c` to `out`.
pub fn push_repeated(out: &mut String, c: char, n: usize)
    ensures
        final(out)@ == old(out)@ + repeat_char(c, n as nat),
{
    let mut k: usize = 0;
    while k < n
        invariant
            k <= n,
            out@ == old(out)@ + repeat_char(c, k as nat),
        decreases n - k,
    {
        out.push(c);
        k = k + 1;
        assert(out@ =~= old(out)@ + repeat_char(c, k as nat));
    }
}

/// Whether two string slices hold the same characters.
pub fn same_text(a: &str, b: &str) -> (r: bool)
    ensures
        r == (a@ == b@),
{
    a.to_owned() == b.to_owned()
}

/// A new string holding `a` followed by `b`.
pub fn concat(a: &str, b: &str) -> (r: String)
    ensures
        r@ == a@ + b@,
{
    let mut out = a.to_owned();
    out.append(b);
    out
}

/// A copy of a string.
pub fn copy_string(s: &String) -> (r: String)
    ensures
        r@ == s@,
{
    s.as_str().to_owned()
}

/// The views of a sequence of strings.
pub open spec fn views(v: Seq<String>) -> Seq<Seq<char>> {
    v.map_values(|s: String| s@)
}

/// A copy of a vector of strings.
pub fn copy_strings(v: &Vec<String>) -> (r: Vec<String>)
    ensures
        views(r@) == views(v@),
{
    let mut out: Vec<String> = Vec::new();
    let mut i: usize = 0;
    while i < v.len()
        invariant
            i <= v.len(),
            out.len() == i,
            forall|j: int| 0 <= j < i ==> (#[trigger] out@[j])@ == v@[j]@,
        decreases v.len() - i,
    {
        out.push(copy_string(&v[i]));
        i = i + 1;
    }
    assert(views(out@) =~= views(v@));
    out
}

/// Decimal digits of a natural number, most significant first.
pub open spec fn decimal(n: nat) -> Seq<char>
    decreases n,
{
    if n < 10 {
        seq![digit_char(n)]
    } else {
        decimal(n / 10).push(digit_char(n % 10))
    }
}

pub open spec fn digit_char(d: nat) -> char {
    if d == 0 { '0' } else if d == 1 { '1' } else if d == 2 { '2' } else if d == 3 { '3' }
    else if d == 4 { '4' } else if d == 5 { '5' } else if d == 6 { '6' } else if d == 7 { '7' }
    else if d == 8 { '8' } else { '9' }
}

fn digit(d: u32) -> (c: char)
    requires
        d < 10,
    ensures
        c == digit_char(d as nat),
{
    if d == 0 { '0' } else if d == 1 { '1' } else if d == 2 { '2' } else if d == 3 { '3' }
    else if d == 4 { '4' } else if d == 5 { '5' } else if d == 6 { '6' } else if d == 7 { '7' }
    else if d == 8 { '8' } else { '9' }
}

/// Appends the decimal form of `n` to `out`.
pub fn push_decimal(out: &mut String, n: u32)
    ensures
        final(out)@ == old(out)@ + decimal(n as nat),
    decreases n,
{
    if n < 10 {
        out.push(digit(n));
        assert(decimal(n as nat) =~= seq![digit_char(n as nat)]);
    } else {
        push_decimal(out, n / 10);
        out.push(digit(n % 10));
        assert(final(out)@ =~= old(out)@ + decimal(n as nat)) by {
            assert(decimal(n as nat) == decimal((n / 10) as nat).push(digit_char((n % 10) as nat)));
        }
    }
}

pub open spec fn lower_ascii(c: char) -> char {
    if 'A' <= c && c <= 'Z' {
        (((c as u8) + 32) as u8) as char
    } else {
        c
    }
}

pub open spec fn lowercase_ascii(s: Seq<char>) -> Seq<char> {
    s.map_values(|c: char| lower_ascii(c))
}

/// The text with its ASCII capitals turned into small letters.
pub fn ascii_lowercase(s: &str) -> (r: String)
    ensures
        r@ == lowercase_ascii(s@),
{
    let n = s.unicode_len();
    let mut out = String::new();
    let mut i: usize = 0;
    while i < n
        invariant
            n == s@.len(),
            i <= n,
            out@ =~= lowercase_ascii(s@.take(i as int)),
        decreases n - i,
    {
        let c = s.get_char(i);
        let l = if 'A' <= c && c <= 'Z' {
            ((c as u8) + 32) as char
        } else {
            c
        };
        out.push(l);
        i = i + 1;
        assert(out@ =~= lowercase_ascii(s@.take(i as int)));
    }
    assert(s@.take(n as int) =~= s@);
    out
}

} // verus!
