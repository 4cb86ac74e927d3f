//! Numbers in text.
use vstd::prelude::*;

verus! {

/// The character of a decimal digit.
pub open spec fn digit(d: nat) -> char
    recommends
        d < 10,
{
    ('0' as nat + d) as char
}

/// A number in decimal, without leading zeros.
pub open spec fn decimal(n: nat) -> Seq<char>
    decreases n,
{
    if n < 10 {
        seq![digit(n)]
    } else {
        decimal(n / 10).push(digit(n % 10))
    }
}

/// The number that a sequence of decimal digits stands for.
pub open spec fn decimal_value(text: Seq<char>) -> int
    decreases text.len(),
{
    if text.len() == 0 {
        0
    } else {
        10 * decimal_value(text.drop_last()) + (text.last() as int - '0' as int)
    }
}

/// A decimal is read back as the number it was made of, so no two numbers
/// share one.
pub proof fn law_decimal_reads_back(n: nat)
    ensures
        decimal_value(decimal(n)) == n,
    decreases n,
{
    reveal_with_fuel(decimal_value, 2);
    if n >= 10 {
        law_decimal_reads_back(n / 10);
        assert(decimal(n).drop_last() =~= decimal(n / 10));
    } else {
        assert(decimal(n).drop_last() =~= Seq::empty());
    }
}

/// Whether `text` is how `n` is written: in decimal digits, and with no zero in
/// front.
pub open spec fn reads_as(text: Seq<char>, n: int) -> bool {
    &&& text.len() > 0
    &&& forall|i: int| 0 <= i < text.len() ==> '0' <= #[trigger] text[i] <= '9'
    &&& text.len() > 1 ==> text[0] != '0'
    &&& decimal_value(text) == n
}

/// Digits count by their place: a digit that is written behind a number adds
/// its own value to ten times the number.
pub proof fn law_digits_count_by_place(text: Seq<char>, c: char)
    requires
        '0' <= c <= '9',
    ensures
        decimal_value(Seq::empty()) == 0,
        decimal_value(text.push(c)) == 10 * decimal_value(text) + (c as int - 48),
{
    assert(text.push(c).drop_last() =~= text);
}

/// A decimal is how its number is written.
pub proof fn law_decimal_is_how_a_number_is_written(n: nat)
    ensures
        reads_as(decimal(n), n as int),
        n > 0 ==> decimal(n)[0] != '0',
    decreases n,
{
    law_decimal_reads_back(n);
    if n >= 10 {
        law_decimal_is_how_a_number_is_written(n / 10);
    }
}

proof fn lemma_value_of_digits(text: Seq<char>)
    requires
        text.len() > 0,
        forall|i: int| 0 <= i < text.len() ==> '0' <= #[trigger] text[i] <= '9',
    ensures
        decimal_value(text) >= 0,
        text[0] != '0' ==> decimal_value(text) > 0,
    decreases text.len(),
{
    if text.len() > 1 {
        lemma_value_of_digits(text.drop_last());
    } else {
        assert(text.drop_last() =~= Seq::empty());
        assert(decimal_value(text.drop_last()) == 0);
    }
}

/// There is one way to write a number.
pub proof fn law_a_number_is_written_in_one_way(one: Seq<char>, other: Seq<char>, n: int)
    requires
        reads_as(one, n),
        reads_as(other, n),
    ensures
        one == other,
    decreases one.len(),
{
    let a = one.drop_last();
    let b = other.drop_last();
    assert(decimal_value(Seq::empty()) == 0);
    if a.len() > 0 {
        lemma_value_of_digits(a);
    } else {
        assert(a =~= Seq::empty());
    }
    if b.len() > 0 {
        lemma_value_of_digits(b);
    } else {
        assert(b =~= Seq::empty());
    }
    assert(decimal_value(a) == decimal_value(b) && one.last() == other.last());
    if a.len() > 0 {
        law_a_number_is_written_in_one_way(a, b, decimal_value(a));
    }
    assert(one =~= a.push(one.last()));
    assert(other =~= b.push(other.last()));
}

/// The character of a decimal digit, as text.
fn digit_text(d: u64) -> (text: &'static str)
    requires
        d < 10,
    ensures
        text@ == seq![digit(d as nat)],
{
    proof {
        reveal_strlit("0");
        reveal_strlit("1");
        reveal_strlit("2");
        reveal_strlit("3");
        reveal_strlit("4");
        reveal_strlit("5");
        reveal_strlit("6");
        reveal_strlit("7");
        reveal_strlit("8");
        reveal_strlit("9");
    }
    match d {
        0 => "0",
        1 => "1",
        2 => "2",
        3 => "3",
        4 => "4",
        5 => "5",
        6 => "6",
        7 => "7",
        8 => "8",
        _ => "9",
    }
}

/// Writes a number in decimal.
pub fn decimal_text(n: u64) -> (text: String)
    ensures
        text@ == decimal(n as nat),
    decreases n,
{
    if n < 10 {
        digit_text(n).to_owned()
    } else {
        decimal_text(n / 10).concat(digit_text(n % 10))
    }
}

} // verus!
