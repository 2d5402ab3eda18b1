//! Low-level helpers for assembling wire text: quoting, joining and
//! rendering decimal numbers.

use vstd::prelude::*;
use vstd::string::StringExecFns;

verus! {

/// The wire text of one identifier in double quotes: `"name"`.
pub open spec fn quoted(name: Seq<char>) -> Seq<char> {
    "\""@ + name + "\""@
}

/// Renders one identifier in double quotes.
pub fn quote(name: &str) -> (r: String)
    ensures
        r@ == quoted(name@),
{
    let mut s = String::new();
    s.append("\"");
    s.append(name);
    s.append("\"");
    proof {
        assert(s@ =~= quoted(name@));
    }
    s
}

/// The elements of `names` joined with `sep` between each adjacent pair;
/// empty for an empty list.
pub open spec fn connected(names: Seq<Seq<char>>, sep: Seq<char>) -> Seq<char>
    decreases names.len(),
{
    if names.len() == 0 {
        Seq::<char>::empty()
    } else if names.len() == 1 {
        names[0]
    } else {
        connected(names.drop_last(), sep) + sep + names.last()
    }
}

/// Joins `names` with `sep` between each adjacent pair.
pub fn connect(names: &Vec<String>, sep: &str) -> (r: String)
    ensures
        r@ == connected(names.deep_view(), sep@),
{
    let mut s = String::new();
    if names.len() > 0 {
        s.append(names[0].as_str());
        let mut i: usize = 1;
        proof {
            assert(s@ =~= connected(names.deep_view().take(1), sep@));
        }
        while i < names.len()
            invariant
                1 <= i <= names@.len(),
                s@ == connected(names.deep_view().take(i as int), sep@),
            decreases names@.len() - i,
        {
            s.append(sep);
            s.append(names[i].as_str());
            i = i + 1;
            proof {
                let full = names.deep_view();
                assert(full.take(i as int).drop_last() =~= full.take(i - 1));
                assert(s@ =~= connected(full.take(i as int), sep@));
            }
        }
        proof {
            assert(names.deep_view().take(names@.len() as int) =~= names.deep_view());
        }
    }
    s
}

/// The wire text of a quoted identifier list without brackets:
/// `"a","b"` (a quoted empty token for an empty list).
pub open spec fn quoted_list(names: Seq<Seq<char>>) -> Seq<char> {
    "\""@ + connected(names, "\",\""@) + "\""@
}

/// Renders a quoted identifier list without brackets.
pub fn quote_list(names: &Vec<String>) -> (r: String)
    ensures
        r@ == quoted_list(names.deep_view()),
{
    let mut s = String::from_str("\"");
    let joined = connect(names, "\",\"");
    s.append(joined.as_str());
    s.append("\"");
    proof {
        assert(s@ =~= quoted_list(names.deep_view()));
    }
    s
}

/// The wire text of a bracketed identifier list: `["a","b"]`.
pub open spec fn bracketed_list(names: Seq<Seq<char>>) -> Seq<char> {
    "[\""@ + connected(names, "\",\""@) + "\"]"@
}

/// Renders a bracketed identifier list.
pub fn bracket_list(names: &Vec<String>) -> (r: String)
    ensures
        r@ == bracketed_list(names.deep_view()),
{
    let mut s = String::from_str("[\"");
    let joined = connect(names, "\",\"");
    s.append(joined.as_str());
    s.append("\"]");
    proof {
        assert(s@ =~= bracketed_list(names.deep_view()));
    }
    s
}

/// The decimal digit character for `d` (`d` under ten).
pub open spec fn dec_digit(d: nat) -> char {
    if d == 0 {
        '0'
    } else if d == 1 {
        '1'
    } else if d == 2 {
        '2'
    } else if d == 3 {
        '3'
    } else if d == 4 {
        '4'
    } else if d == 5 {
        '5'
    } else if d == 6 {
        '6'
    } else if d == 7 {
        '7'
    } else if d == 8 {
        '8'
    } else {
        '9'
    }
}

/// The decimal rendering of `n`, most significant digit first, no sign
/// and no leading zeros (a single `'0'` for zero).
pub open spec fn dec_str(n: nat) -> Seq<char>
    decreases n,
{
    if n < 10 {
        seq![dec_digit(n)]
    } else {
        dec_str(n / 10) + seq![dec_digit(n % 10)]
    }
}

/// Appends the digit character for `d` to `s`.
fn append_digit(s: &mut String, d: u64)
    requires
        d < 10,
    ensures
        final(s)@ == old(s)@ + seq![dec_digit(d as nat)],
{
    let digit: &str = if d == 0 {
        "0"
    } else if d == 1 {
        "1"
    } else if d == 2 {
        "2"
    } else if d == 3 {
        "3"
    } else if d == 4 {
        "4"
    } else if d == 5 {
        "5"
    } else if d == 6 {
        "6"
    } else if d == 7 {
        "7"
    } else {
        "8"
    };
    let digit: &str = if d == 9 {
        "9"
    } else {
        digit
    };
    s.append(digit);
    proof {
        reveal_strlit("0");
        reveal_strlit("1");
        reveal_strlit("2");
        reveal_strlit("3");
        reveal_strlit("4");
        reveal_strlit("5");
        reveal_strlit("6");
        reveal_strlit("7");
        reveal_strlit("8");
        reveal_strlit("9");
        assert(s@ =~= old(s)@ + seq![dec_digit(d as nat)]);
    }
}

/// Renders `n` in decimal.
pub fn u64_to_string(n: u64) -> (r: String)
    ensures
        r@ == dec_str(n as nat),
    decreases n,
{
    if n < 10 {
        let mut s = String::new();
        append_digit(&mut s, n);
        proof {
            assert(s@ =~= dec_str(n as nat));
        }
        s
    } else {
        assert(n / 10 < n);
        let mut s = u64_to_string(n / 10);
        append_digit(&mut s, n % 10);
        proof {
            assert(s@ =~= dec_str(n as nat));
        }
        s
    }
}

} // verus!
