//! Text handling: the few std string operations the interface relies on, each given the
//! behaviour its documentation states, and verified helpers built on them.

use vstd::prelude::*;
use vstd::string::*;

verus! {

/// Unicode `White_Space` (the set `char::is_whitespace` tests).
pub open spec fn is_whitespace(c: char) -> bool {
    let u = c as u32;
    ||| 0x9 <= u <= 0xd
    ||| u == 0x20
    ||| u == 0x85
    ||| u == 0xa0
    ||| u == 0x1680
    ||| 0x2000 <= u <= 0x200a
    ||| u == 0x2028
    ||| u == 0x2029
    ||| u == 0x202f
    ||| u == 0x205f
    ||| u == 0x3000
}

/// `s` without its trailing whitespace.
pub open spec fn trim_end_spec(s: Seq<char>) -> Seq<char>
    decreases s.len(),
{
    if s.len() > 0 && is_whitespace(s.last()) {
        trim_end_spec(s.drop_last())
    } else {
        s
    }
}

/// `s` without its leading whitespace.
pub open spec fn trim_start_spec(s: Seq<char>) -> Seq<char>
    decreases s.len(),
{
    if s.len() > 0 && is_whitespace(s[0]) {
        trim_start_spec(s.drop_first())
    } else {
        s
    }
}

/// `s` without leading and trailing whitespace.
pub open spec fn trim_spec(s: Seq<char>) -> Seq<char> {
    trim_end_spec(trim_start_spec(s))
}

/// `s` holds something other than whitespace.
pub open spec fn has_content(s: Seq<char>) -> bool {
    trim_spec(s).len() > 0
}

/// The lowercase form of `s`, by Unicode's case mapping (what `str::to_lowercase` returns).
pub uninterp spec fn lowercase(s: Seq<char>) -> Seq<char>;

/// `needle` occurs in `hay` as a contiguous run of characters.
pub open spec fn occurs_in(hay: Seq<char>, needle: Seq<char>) -> bool {
    exists|i: int|
        0 <= i && i + needle.len() <= hay.len() && #[trigger] hay.subrange(i, i + needle.len())
            == needle
}

/// The decimal digit for `d` (0..=9).
pub open spec fn digit(d: nat) -> char {
    seq!['0', '1', '2', '3', '4', '5', '6', '7', '8', '9'][d as int]
}

/// The decimal representation of `n`, without sign or padding.
pub open spec fn decimal(n: nat) -> Seq<char>
    decreases n,
{
    if n < 10 {
        seq![digit(n)]
    } else {
        decimal(n / 10) + seq![digit(n % 10)]
    }
}

/// `"{n} {word}"`, with an `s` appended to the word unless `n` is one.
pub open spec fn counted(n: nat, word: Seq<char>) -> Seq<char> {
    decimal(n) + " "@ + word + (if n == 1 {
        Seq::<char>::empty()
    } else {
        "s"@
    })
}

/// The parts joined with `sep` between consecutive ones.
pub open spec fn joined(parts: Seq<Seq<char>>, sep: Seq<char>) -> Seq<char>
    decreases parts.len(),
{
    if parts.len() == 0 {
        Seq::empty()
    } else if parts.len() == 1 {
        parts[0]
    } else {
        joined(parts.drop_last(), sep) + sep + parts.last()
    }
}

/// `str::trim`: the slice without leading and trailing Unicode whitespace.
#[verifier::external_body]
pub(crate) fn trim(s: &str) -> (r: &str)
    ensures
        r@ == trim_spec(s@),
{
    s.trim()
}

/// `str::trim_end`: the slice without trailing Unicode whitespace.
#[verifier::external_body]
pub(crate) fn trim_end(s: &str) -> (r: &str)
    ensures
        r@ == trim_end_spec(s@),
{
    s.trim_end()
}

/// `str::to_lowercase`: the string's Unicode lowercase form (which, for Greek capital sigma,
/// depends on the neighbouring characters); named by `lowercase`, not spelled out.
#[verifier::external_body]
pub(crate) fn to_lowercase(s: &str) -> (r: String)
    ensures
        r@ == lowercase(s@),
{
    s.to_lowercase()
}

/// `str::contains` with a string pattern: whether `needle` occurs in `hay`.
#[verifier::external_body]
pub(crate) fn contains(hay: &str, needle: &str) -> (r: bool)
    ensures
        r == occurs_in(hay@, needle@),
{
    hay.contains(needle)
}

/// The one-digit text of `d`.
fn digit_text(d: u64) -> (r: &'static str)
    requires
        d < 10,
    ensures
        r@ == seq![digit(d as nat)],
{
    proof {
        reveal_strlit("0");
        reveal_strlit("1");
        reveal_strlit("2");
        reveal_strlit("3");
        reveal_strlit("4");
        reveal_strlit("5");
        reveal_strlit("6");
        reveal_strlit("7");
        reveal_strlit("8");
        reveal_strlit("9");
    }
    let r = if d == 0 {
        "0"
    } else if d == 1 {
        "1"
    } else if d == 2 {
        "2"
    } else if d == 3 {
        "3"
    } else if d == 4 {
        "4"
    } else if d == 5 {
        "5"
    } else if d == 6 {
        "6"
    } else if d == 7 {
        "7"
    } else if d == 8 {
        "8"
    } else {
        "9"
    };
    proof {
        assert(r@ =~= seq![digit(d as nat)]);
    }
    r
}

/// The decimal text of `n`.
fn decimal_text(n: u64) -> (r: String)
    ensures
        r@ == decimal(n as nat),
    decreases n,
{
    if n < 10 {
        digit_text(n).to_owned()
    } else {
        let mut r = decimal_text(n / 10);
        r.append(digit_text(n % 10));
        r
    }
}

/// The decimal text of a `usize`.
pub(crate) fn usize_text(n: usize) -> (r: String)
    ensures
        r@ == decimal(n as nat),
{
    decimal_text(n as u64)
}

/// The decimal text of a `u32`.
pub(crate) fn u32_text(n: u32) -> (r: String)
    ensures
        r@ == decimal(n as nat),
{
    decimal_text(n as u64)
}

/// The trimmed text, owned.
pub fn trimmed(s: &String) -> (r: String)
    ensures
        r@ == trim_spec(s@),
{
    trim(s.as_str()).to_owned()
}

/// Whether the text holds something other than whitespace.
pub fn is_blank(s: &String) -> (r: bool)
    ensures
        r == !has_content(s@),
{
    trim(s.as_str()).is_empty()
}

/// `"{n} {word}"`, pluralised with `s` unless `n` is one.
pub fn count_label(n: usize, word: &str) -> (r: String)
    ensures
        r@ == counted(n as nat, word@),
{
    let mut r = usize_text(n);
    r.append(" ");
    r.append(word);
    if n != 1 {
        r.append("s");
    }
    proof {
        assert(r@ =~= counted(n as nat, word@));
    }
    r
}

/// The parts joined with `sep` between consecutive ones.
pub fn join(parts: &Vec<String>, sep: &str) -> (r: String)
    ensures
        r@ == joined(parts@.map_values(|p: String| p@), sep@),
{
    let ghost views = parts@.map_values(|p: String| p@);
    let mut r = String::new();
    let mut i: usize = 0;
    while i < parts.len()
        invariant
            i <= parts.len(),
            views == parts@.map_values(|p: String| p@),
            r@ == joined(views.take(i as int), sep@),
        decreases parts.len() - i,
    {
        if i > 0 {
            r.append(sep);
        }
        r.append(parts[i].as_str());
        proof {
            assert(views.take(i + 1).drop_last() =~= views.take(i as int));
            if i == 0 {
                assert(r@ =~= views[0]);
            }
        }
        i = i + 1;
    }
    proof {
        assert(views.take(i as int) =~= views);
    }
    r
}

} // verus!
