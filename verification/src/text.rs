//! Building blocks for text: joining parts with a separator and writing an
//! integer in decimal.

use vstd::prelude::*;
use vstd::string::*;

verus! {

/// The first `n` parts in order, with `sep` between each two neighbours.
pub open spec fn joined_prefix(parts: Seq<Seq<char>>, sep: Seq<char>, n: nat) -> Seq<char>
    decreases n,
{
    if n == 0 {
        Seq::empty()
    } else if n == 1 {
        parts[0]
    } else {
        joined_prefix(parts, sep, (n - 1) as nat) + sep + parts[n - 1]
    }
}

/// All the parts in order, with `sep` between each two neighbours. Nothing
/// stands before the first part or after the last.
pub open spec fn joined(parts: Seq<Seq<char>>, sep: Seq<char>) -> Seq<char> {
    joined_prefix(parts, sep, parts.len())
}

/// The contents of each string, in order.
pub open spec fn contents(parts: Seq<String>) -> Seq<Seq<char>> {
    Seq::new(parts.len(), |i: int| parts[i]@)
}

/// The character that stands for a single decimal digit.
pub open spec fn digit(d: int) -> char
    recommends
        0 <= d < 10,
{
    if d == 0 {
        '0'
    } else if d == 1 {
        '1'
    } else if d == 2 {
        '2'
    } else if d == 3 {
        '3'
    } else if d == 4 {
        '4'
    } else if d == 5 {
        '5'
    } else if d == 6 {
        '6'
    } else if d == 7 {
        '7'
    } else if d == 8 {
        '8'
    } else {
        '9'
    }
}

/// The decimal digits of a natural number, most significant first. Zero is
/// the single digit `0`; no other number starts with `0`.
pub open spec fn decimal_nat(n: nat) -> Seq<char>
    decreases n,
{
    if n < 10 {
        seq![digit(n as int)]
    } else {
        decimal_nat(n / 10).push(digit((n % 10) as int))
    }
}

/// The decimal text of an integer: a minus sign in front of the digits of a
/// negative number, the bare digits otherwise.
pub open spec fn decimal(n: int) -> Seq<char> {
    if n < 0 {
        seq!['-'] + decimal_nat((-n) as nat)
    } else {
        decimal_nat(n as nat)
    }
}

/// The digit that a character stands for; zero for any other character.
pub open spec fn digit_value(c: char) -> int {
    if c == '1' {
        1
    } else if c == '2' {
        2
    } else if c == '3' {
        3
    } else if c == '4' {
        4
    } else if c == '5' {
        5
    } else if c == '6' {
        6
    } else if c == '7' {
        7
    } else if c == '8' {
        8
    } else if c == '9' {
        9
    } else {
        0
    }
}

/// The natural number that a sequence of digits denotes, read in base ten.
pub open spec fn digits_value(digits: Seq<char>) -> int
    decreases digits.len(),
{
    if digits.len() == 0 {
        0
    } else {
        10 * digits_value(digits.drop_last()) + digit_value(digits.last())
    }
}

/// The integer that a decimal text denotes: the value of its digits, negated
/// when a minus sign stands in front.
pub open spec fn number_value(text: Seq<char>) -> int {
    if text.len() > 0 && text[0] == '-' {
        -digits_value(text.skip(1))
    } else {
        digits_value(text)
    }
}

/// The digits of a natural number are at least one, each is a digit, they
/// denote the number, and the first is `0` only for zero itself.
pub proof fn lemma_decimal_nat_is_canonical(n: nat)
    ensures
        decimal_nat(n).len() >= 1,
        forall|i: int|
            0 <= i < decimal_nat(n).len() ==> #[trigger] decimal_nat(n)[i] == digit(
                digit_value(decimal_nat(n)[i]),
            ),
        digits_value(decimal_nat(n)) == n,
        decimal_nat(n)[0] == '0' <==> n == 0,
    decreases n,
{
    if n < 10 {
        assert(decimal_nat(n).drop_last() =~= Seq::<char>::empty());
        assert(digits_value(decimal_nat(n)) == 10 * digits_value(Seq::<char>::empty())
            + digit_value(digit(n as int)));
    } else {
        lemma_decimal_nat_is_canonical(n / 10);
        let front = decimal_nat(n / 10);
        assert(decimal_nat(n).drop_last() =~= front);
        assert(decimal_nat(n).last() == digit((n % 10) as int));
        assert(decimal_nat(n)[0] == front[0]);
    }
}

/// The decimal text of an integer denotes that integer, starts with a minus
/// sign exactly when the integer is negative, and has no leading zero: after
/// the sign, if any, `0` comes first only in the text of zero.
pub proof fn lemma_decimal_is_canonical(n: int)
    ensures
        number_value(decimal(n)) == n,
        decimal(n).len() >= 1,
        decimal(n)[0] == '-' <==> n < 0,
        n > 0 ==> decimal(n)[0] != '0',
        n < 0 ==> decimal(n).len() >= 2 && decimal(n)[1] != '0',
{
    if n < 0 {
        let digits = decimal_nat((-n) as nat);
        lemma_decimal_nat_is_canonical((-n) as nat);
        assert(decimal(n).skip(1) =~= digits);
        assert(decimal(n)[1] == digits[0]);
    } else {
        lemma_decimal_nat_is_canonical(n as nat);
        let first = decimal_nat(n as nat)[0];
        assert(first == digit(digit_value(first)));
    }
}

/// The prefix of a join does not depend on the parts that come after it.
pub proof fn lemma_joined_prefix_agrees(
    a: Seq<Seq<char>>,
    b: Seq<Seq<char>>,
    sep: Seq<char>,
    n: nat,
)
    requires
        n <= a.len(),
        n <= b.len(),
        forall|i: int| 0 <= i < n ==> a[i] == b[i],
    ensures
        joined_prefix(a, sep, n) == joined_prefix(b, sep, n),
    decreases n,
{
    if n > 1 {
        lemma_joined_prefix_agrees(a, b, sep, (n - 1) as nat);
    }
}

/// Joining one more part: alone if it is the first, otherwise after the
/// others and one separator.
pub proof fn lemma_joined_push(parts: Seq<Seq<char>>, sep: Seq<char>, last: Seq<char>)
    ensures
        parts.len() == 0 ==> joined(parts.push(last), sep) == last,
        parts.len() > 0 ==> joined(parts.push(last), sep) == joined(parts, sep) + sep + last,
{
    if parts.len() > 0 {
        lemma_joined_prefix_agrees(parts.push(last), parts, sep, parts.len());
    }
}

/// Joins `parts` with `sep` between each two neighbours.
pub fn join_strings(parts: &Vec<String>, sep: &str) -> (out: String)
    ensures
        out@ == joined(contents(parts@), sep@),
{
    let mut out = String::new();
    let mut i: usize = 0;
    while i < parts.len()
        invariant
            i <= parts.len(),
            out@ == joined_prefix(contents(parts@), sep@, i as nat),
        decreases parts.len() - i,
    {
        if i > 0 {
            out.append(sep);
        }
        out.append(parts[i].as_str());
        i += 1;
    }
    out
}

/// The one-character text of a decimal digit.
fn digit_text(d: u32) -> (s: &'static str)
    requires
        d < 10,
    ensures
        s@ == seq![digit(d as int)],
{
    proof {
        reveal_strlit("0");
        reveal_strlit("1");
        reveal_strlit("2");
        reveal_strlit("3");
        reveal_strlit("4");
        reveal_strlit("5");
        reveal_strlit("6");
        reveal_strlit("7");
        reveal_strlit("8");
        reveal_strlit("9");
    }
    let s = if d == 0 {
        "0"
    } else if d == 1 {
        "1"
    } else if d == 2 {
        "2"
    } else if d == 3 {
        "3"
    } else if d == 4 {
        "4"
    } else if d == 5 {
        "5"
    } else if d == 6 {
        "6"
    } else if d == 7 {
        "7"
    } else if d == 8 {
        "8"
    } else {
        "9"
    };
    assert(s@ =~= seq![digit(d as int)]);
    s
}

/// Appends the decimal digits of `n` to `out`.
fn append_decimal(out: &mut String, n: u32)
    ensures
        final(out)@ == old(out)@ + decimal_nat(n as nat),
    decreases n,
{
    if n >= 10 {
        append_decimal(out, n / 10);
    }
    out.append(digit_text(n % 10));
    assert(final(out)@ =~= old(out)@ + decimal_nat(n as nat));
}

/// Writes `n` in decimal: no leading zeros, and a minus sign in front of a
/// negative number.
pub fn format_integer(n: i32) -> (out: String)
    ensures
        out@ == decimal(n as int),
{
    let mut out = String::new();
    if n < 0 {
        let magnitude: u32 = (0 - (n as i64)) as u32;
        proof {
            reveal_strlit("-");
        }
        out.append("-");
        append_decimal(&mut out, magnitude);
        assert(out@ =~= decimal(n as int));
    } else {
        append_decimal(&mut out, n as u32);
        assert(out@ =~= decimal(n as int));
    }
    out
}

} // verus!
