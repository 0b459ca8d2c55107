//! Text building blocks: decimal numbers and separated lists.

use vstd::prelude::*;

verus! {

/// The character of a decimal digit.
pub open spec fn digit_char(d: nat) -> char {
    (d + 48) as char
}

/// The value of a hexadecimal digit, in either case.
pub open spec fn hex_digit(c: char) -> Option<nat> {
    let u = c as u32;
    if 48 <= u <= 57 {
        Some((u - 48) as nat)
    } else if 97 <= u <= 102 {
        Some((u - 87) as nat)
    } else if 65 <= u <= 70 {
        Some((u - 55) as nat)
    } else {
        None
    }
}

/// The value of hexadecimal digits, the most significant first; nothing
/// when one of them is not a digit.
pub open spec fn hex_value(digits: Seq<char>) -> Option<nat>
    decreases digits.len(),
{
    if digits.len() == 0 {
        Some(0)
    } else {
        match (hex_value(digits.drop_last()), hex_digit(digits.last())) {
            (Some(v), Some(d)) => Some(v * 16 + d),
            _ => None,
        }
    }
}

/// The decimal representation of a natural number, without leading zeros.
pub open spec fn decimal(n: nat) -> Seq<char>
    decreases n,
{
    if n < 10 {
        seq![digit_char(n)]
    } else {
        decimal(n / 10).push(digit_char(n % 10))
    }
}

/// The items joined by the separator.
pub open spec fn joined(items: Seq<Seq<char>>, sep: Seq<char>) -> Seq<char>
    decreases items.len(),
{
    if items.len() == 0 {
        Seq::empty()
    } else if items.len() == 1 {
        items[0]
    } else {
        joined(items.drop_last(), sep) + sep + items.last()
    }
}

/// The text views of a sequence of strings.
pub open spec fn views(items: Seq<String>) -> Seq<Seq<char>> {
    items.map_values(|s: String| s@)
}

fn digit_str(d: usize) -> (r: &'static str)
    requires
        d < 10,
    ensures
        r@ == seq![digit_char(d as nat)],
{
    if d == 0 {
        proof { reveal_strlit("0"); }
        "0"
    } else if d == 1 {
        proof { reveal_strlit("1"); }
        "1"
    } else if d == 2 {
        proof { reveal_strlit("2"); }
        "2"
    } else if d == 3 {
        proof { reveal_strlit("3"); }
        "3"
    } else if d == 4 {
        proof { reveal_strlit("4"); }
        "4"
    } else if d == 5 {
        proof { reveal_strlit("5"); }
        "5"
    } else if d == 6 {
        proof { reveal_strlit("6"); }
        "6"
    } else if d == 7 {
        proof { reveal_strlit("7"); }
        "7"
    } else if d == 8 {
        proof { reveal_strlit("8"); }
        "8"
    } else {
        proof { reveal_strlit("9"); }
        "9"
    }
}

/// Appends the decimal representation of `n`.
pub fn push_decimal(s: &mut String, n: usize)
    ensures
        final(s)@ == old(s)@ + decimal(n as nat),
    decreases n,
{
    if n >= 10 {
        push_decimal(s, n / 10);
    }
    let ghost before = s@;
    s.append(digit_str(n % 10));
    proof {
        if n >= 10 {
            assert(s@ =~= old(s)@ + decimal(n as nat));
        } else {
            assert(s@ =~= old(s)@ + decimal(n as nat));
        }
    }
}

/// Appends the items joined by the separator.
pub fn push_joined(s: &mut String, items: &Vec<String>, sep: &str)
    ensures
        final(s)@ == old(s)@ + joined(views(items@), sep@),
{
    let ghost start = s@;
    let n = items.len();
    let mut i: usize = 0;
    while i < n
        invariant
            n == items.len(),
            i <= n,
            s@ == start + joined(views(items@).take(i as int), sep@),
        decreases n - i,
    {
        let ghost vs = views(items@);
        assert(vs.take(i + 1).drop_last() =~= vs.take(i as int));
        if i > 0 {
            s.append(sep);
        }
        s.append(items[i].as_str());
        assert(s@ =~= start + joined(vs.take(i + 1), sep@));
        i = i + 1;
    }
    assert(views(items@).take(n as int) =~= views(items@));
}

/// The text views of a sequence of string slices.
pub open spec fn str_views(items: Seq<&str>) -> Seq<Seq<char>> {
    items.map_values(|s: &str| s@)
}

/// Appends the string slices joined by the separator.
pub fn push_joined_strs(s: &mut String, items: &Vec<&str>, sep: &str)
    ensures
        final(s)@ == old(s)@ + joined(str_views(items@), sep@),
{
    let ghost start = s@;
    let n = items.len();
    let mut i: usize = 0;
    while i < n
        invariant
            n == items.len(),
            i <= n,
            s@ == start + joined(str_views(items@).take(i as int), sep@),
        decreases n - i,
    {
        let ghost vs = str_views(items@);
        assert(vs.take(i + 1).drop_last() =~= vs.take(i as int));
        if i > 0 {
            s.append(sep);
        }
        s.append(items[i]);
        assert(s@ =~= start + joined(vs.take(i + 1), sep@));
        i = i + 1;
    }
    assert(str_views(items@).take(n as int) =~= str_views(items@));
}

} // verus!
