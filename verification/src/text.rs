//! Text building blocks: decimal numerals, joined lines and container paths.

use vstd::prelude::*;
use vstd::string::*;

verus! {

/// The character that writes the digit `d` in base ten.
pub open spec fn digit_char(d: int) -> char {
    if d == 0 {
        '0'
    } else if d == 1 {
        '1'
    } else if d == 2 {
        '2'
    } else if d == 3 {
        '3'
    } else if d == 4 {
        '4'
    } else if d == 5 {
        '5'
    } else if d == 6 {
        '6'
    } else if d == 7 {
        '7'
    } else if d == 8 {
        '8'
    } else {
        '9'
    }
}

/// The digits of `n` in base ten, most significant first, with no leading zero
/// (zero itself is the single digit `0`).
pub open spec fn digits(n: nat) -> Seq<char>
    decreases n,
{
    if n < 10 {
        seq![digit_char(n as int)]
    } else {
        digits(n / 10) + seq![digit_char((n % 10) as int)]
    }
}

/// The decimal text of an integer: a minus sign in front of a negative number,
/// then the digits of its magnitude.
pub open spec fn decimal(n: int) -> Seq<char> {
    if n < 0 {
        seq!['-'] + digits((-n) as nat)
    } else {
        digits(n as nat)
    }
}

/// `parts` written one after another with `sep` between neighbours.
pub open spec fn joined(parts: Seq<Seq<char>>, sep: Seq<char>) -> Seq<char>
    decreases parts.len(),
{
    if parts.len() == 0 {
        Seq::empty()
    } else if parts.len() == 1 {
        parts[0]
    } else {
        joined(parts.drop_last(), sep) + sep + parts.last()
    }
}

/// The path of the member `name` below the group at `group`.
pub open spec fn member_path(group: Seq<char>, name: Seq<char>) -> Seq<char> {
    group + "/"@ + name
}

fn digit_text(d: u64) -> (s: &'static str)
    requires
        d < 10,
    ensures
        s@ == seq![digit_char(d as int)],
{
    proof {
        reveal_strlit("0");
        reveal_strlit("1");
        reveal_strlit("2");
        reveal_strlit("3");
        reveal_strlit("4");
        reveal_strlit("5");
        reveal_strlit("6");
        reveal_strlit("7");
        reveal_strlit("8");
        reveal_strlit("9");
    }
    let s = if d == 0 {
        "0"
    } else if d == 1 {
        "1"
    } else if d == 2 {
        "2"
    } else if d == 3 {
        "3"
    } else if d == 4 {
        "4"
    } else if d == 5 {
        "5"
    } else if d == 6 {
        "6"
    } else if d == 7 {
        "7"
    } else if d == 8 {
        "8"
    } else {
        "9"
    };
    assert(s@ =~= seq![digit_char(d as int)]);
    s
}

/// Writes an unsigned number in base ten.
pub fn unsigned_to_string(n: u64) -> (text: String)
    ensures
        text@ == digits(n as nat),
{
    let mut rest: u64 = n / 10;
    let mut text = String::from_str(digit_text(n % 10));
    while rest > 0
        invariant
            rest > 0 ==> digits(n as nat) == digits(rest as nat) + text@,
            rest == 0 ==> digits(n as nat) == text@,
        decreases rest,
    {
        let ghost before = text@;
        let ghost prev = rest;
        let digit = digit_text(rest % 10);
        text = String::from_str(digit).concat(text.as_str());
        rest = rest / 10;
        proof {
            assert(text@ == seq![digit_char((prev % 10) as int)] + before);
            if prev >= 10 {
                assert(digits(prev as nat) == digits(rest as nat) + seq![
                    digit_char((prev % 10) as int),
                ]);
                assert(digits(rest as nat) + seq![digit_char((prev % 10) as int)] + before
                    =~= digits(rest as nat) + text@);
            }
        }
    }
    text
}

/// Writes a row count or index in base ten.
pub fn index_to_string(n: usize) -> (text: String)
    ensures
        text@ == decimal(n as int),
{
    unsigned_to_string(n as u64)
}

/// Writes a signed number in base ten, as `decimal` describes it.
pub fn integer_to_string(n: i64) -> (text: String)
    ensures
        text@ == decimal(n as int),
{
    if n < 0 {
        let magnitude: u64 = (-(n + 1)) as u64 + 1;
        let body = unsigned_to_string(magnitude);
        let text = String::from_str("-").concat(body.as_str());
        proof {
            reveal_strlit("-");
            assert(text@ =~= seq!['-'] + digits((-n) as nat));
        }
        text
    } else {
        unsigned_to_string(n as u64)
    }
}

/// Joins `parts` with `sep` between neighbours.
pub fn join(parts: &Vec<String>, sep: &str) -> (line: String)
    ensures
        line@ == joined(parts.deep_view(), sep@),
{
    let mut line = String::new();
    let mut i: usize = 0;
    while i < parts.len()
        invariant
            i <= parts.len(),
            line@ == joined(parts.deep_view().take(i as int), sep@),
        decreases parts.len() - i,
    {
        let ghost all = parts.deep_view();
        proof {
            assert(all.take(i as int + 1).drop_last() =~= all.take(i as int));
            assert(all.take(i as int + 1).last() == parts[i as int]@);
            if i == 0 {
                assert(line@ =~= Seq::<char>::empty());
                assert(Seq::<char>::empty() + parts[0]@ =~= parts[0]@);
            }
        }
        if i > 0 {
            line.append(sep);
        }
        line.append(parts[i].as_str());
        i = i + 1;
    }
    proof {
        assert(parts.deep_view().take(i as int) =~= parts.deep_view());
    }
    line
}

/// Builds the path of the member `name` below the group at `group`.
pub fn path_of(group: &str, name: &str) -> (path: String)
    ensures
        path@ == member_path(group@, name@),
{
    let mut path = String::from_str(group);
    path.append("/");
    path.append(name);
    path
}

} // verus!
