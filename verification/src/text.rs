//! Small operations on text, stated over sequences of characters.

use vstd::prelude::*;
use vstd::string::StringExecFns;

verus! {

/// The texts of a list of strings.
pub open spec fn texts(items: Seq<String>) -> Seq<Seq<char>> {
    Seq::new(items.len(), |i: int| items[i]@)
}

/// The parts, each followed by the separator.
pub open spec fn terminated(parts: Seq<Seq<char>>, sep: Seq<char>) -> Seq<char>
    decreases parts.len(),
{
    if parts.len() == 0 {
        Seq::empty()
    } else {
        terminated(parts.drop_last(), sep) + parts.last() + sep
    }
}

/// The parts with the separator between each two.
pub open spec fn joined(parts: Seq<Seq<char>>, sep: Seq<char>) -> Seq<char> {
    if parts.len() == 0 {
        Seq::empty()
    } else {
        terminated(parts.drop_last(), sep) + parts.last()
    }
}

/// Joins `parts` with `sep` between each two.
pub fn join(parts: &Vec<String>, sep: &str) -> (text: String)
    ensures
        text@ == joined(texts(parts@), sep@),
{
    let mut text = String::new();
    let mut i: usize = 0;
    while i < parts.len()
        invariant
            i <= parts.len(),
            text@ == if i == 0 {
                Seq::<char>::empty()
            } else {
                joined(texts(parts@).take(i as int), sep@)
            },
        decreases parts.len() - i,
    {
        let ghost all = texts(parts@);
        proof {
            assert(all.take(i as int + 1).drop_last() =~= all.take(i as int));
            assert(all.take(i as int + 1).last() == parts@[i as int]@);
            if i > 0 {
                assert(all.take(i as int).drop_last() =~= all.take(i as int - 1));
                assert(terminated(all.take(i as int), sep@) == terminated(
                    all.take(i as int).drop_last(),
                    sep@,
                ) + all.take(i as int).last() + sep@);
            } else {
                assert(all.take(0).len() == 0);
            }
        }
        if i > 0 {
            text.append(sep);
        }
        text.append(parts[i].as_str());
        i += 1;
    }
    proof {
        assert(texts(parts@).take(parts@.len() as int) =~= texts(parts@));
    }
    text
}

/// The decimal digit for `d`.
pub open spec fn digit(d: int) -> char {
    if d == 0 {
        '0'
    } else if d == 1 {
        '1'
    } else if d == 2 {
        '2'
    } else if d == 3 {
        '3'
    } else if d == 4 {
        '4'
    } else if d == 5 {
        '5'
    } else if d == 6 {
        '6'
    } else if d == 7 {
        '7'
    } else if d == 8 {
        '8'
    } else {
        '9'
    }
}

/// A number in decimal, without leading zeros.
pub open spec fn decimal(n: nat) -> Seq<char>
    decreases n,
{
    if n < 10 {
        seq![digit(n as int)]
    } else {
        decimal(n / 10).push(digit((n % 10) as int))
    }
}

/// `usize::to_string`: the number in decimal, without sign or leading
/// zeros.
#[verifier::external_body]
pub(crate) fn decimal_string(n: usize) -> (text: String)
    ensures
        text@ == decimal(n as nat),
{
    n.to_string()
}

/// The text `s` with every match of `from` replaced by `to`, as
/// `str::replace` finds the matches.
pub uninterp spec fn replaced(s: Seq<char>, from: Seq<char>, to: Seq<char>) -> Seq<char>;

/// `str::replace` with a string pattern: a new string in which every match
/// of `from` in `s` is replaced by `to`.
#[verifier::external_body]
pub(crate) fn str_replace(s: &str, from: &str, to: &str) -> (text: String)
    ensures
        text@ == replaced(s@, from@, to@),
{
    s.replace(from, to)
}

/// Whether `s` begins with `prefix`.
pub open spec fn starts_with(s: Seq<char>, prefix: Seq<char>) -> bool {
    prefix.len() <= s.len() && s.subrange(0, prefix.len() as int) == prefix
}

/// `str::starts_with` with a string pattern: whether `prefix` matches a
/// prefix of `s`.
#[verifier::external_body]
pub(crate) fn str_starts_with(s: &str, prefix: &str) -> (found: bool)
    ensures
        found == starts_with(s@, prefix@),
{
    s.starts_with(prefix)
}

/// `str::strip_prefix` with a string pattern: what follows `prefix` in `s`,
/// if `s` begins with it.
#[verifier::external_body]
pub(crate) fn strip_prefix<'a>(s: &'a str, prefix: &str) -> (rest: Option<&'a str>)
    ensures
        rest is Some <==> starts_with(s@, prefix@),
        rest is Some ==> rest.unwrap()@ == s@.subrange(prefix@.len() as int, s@.len() as int),
{
    s.strip_prefix(prefix)
}

/// The lines of a text, as `str::lines` splits it: at each line feed, with
/// the line feed and a carriage return before it left out.
pub uninterp spec fn lines_of(s: Seq<char>) -> Seq<Seq<char>>;

/// The texts of a list of string slices.
pub open spec fn slice_texts(items: Seq<&str>) -> Seq<Seq<char>> {
    Seq::new(items.len(), |i: int| items[i]@)
}

/// `str::lines`, collected: the lines of `s` in order.
#[verifier::external_body]
pub(crate) fn lines<'a>(s: &'a str) -> (all: Vec<&'a str>)
    ensures
        slice_texts(all@) == lines_of(s@),
{
    s.lines().collect()
}

/// A text without the white space at its ends, as `str::trim` cuts it.
pub uninterp spec fn trimmed(s: Seq<char>) -> Seq<char>;

/// `str::trim`: `s` without leading and trailing white space.
#[verifier::external_body]
pub(crate) fn trim<'a>(s: &'a str) -> (cut: &'a str)
    ensures
        cut@ == trimmed(s@),
{
    s.trim()
}

} // verus!
