//! Text built by the library: decimal numerals and quoted names.

use vstd::prelude::*;

verus! {

/// The numeral of a single decimal digit.
pub open spec fn digit(d: nat) -> char {
    if d == 0 {
        '0'
    } else if d == 1 {
        '1'
    } else if d == 2 {
        '2'
    } else if d == 3 {
        '3'
    } else if d == 4 {
        '4'
    } else if d == 5 {
        '5'
    } else if d == 6 {
        '6'
    } else if d == 7 {
        '7'
    } else if d == 8 {
        '8'
    } else {
        '9'
    }
}

/// The decimal numeral of a number, most significant digit first and without leading zeros.
pub open spec fn decimal(n: nat) -> Seq<char>
    decreases n,
{
    if n < 10 {
        seq![digit(n)]
    } else {
        decimal(n / 10).push(digit(n % 10))
    }
}

/// The text that `{:?}` prints for a string.
pub uninterp spec fn debug_quoted(text: Seq<char>) -> Seq<char>;

/// Whether a text holds a character.
pub open spec fn mentions(text: Seq<char>, c: char) -> bool {
    exists|i: int| 0 <= i < text.len() && #[trigger] text[i] == c
}

/// `std::fmt::Debug` of `str`, through `format!`: the result is the quoted and escaped text, which
/// depends on the text alone. The escaping rules themselves are not restated.
#[verifier::external_body]
pub(crate) fn quoted(text: &str) -> (r: String)
    ensures
        r@ == debug_quoted(text@),
{
    format!("{text:?}")
}

fn digit_text(d: u64) -> (r: &'static str)
    requires
        d < 10,
    ensures
        r@ == seq![digit(d as nat)],
{
    proof {
        reveal_strlit("0");
        reveal_strlit("1");
        reveal_strlit("2");
        reveal_strlit("3");
        reveal_strlit("4");
        reveal_strlit("5");
        reveal_strlit("6");
        reveal_strlit("7");
        reveal_strlit("8");
        reveal_strlit("9");
    }
    match d {
        0 => "0",
        1 => "1",
        2 => "2",
        3 => "3",
        4 => "4",
        5 => "5",
        6 => "6",
        7 => "7",
        8 => "8",
        _ => "9",
    }
}

/// Writes a number in decimal.
pub fn decimal_text(n: u64) -> (r: String)
    ensures
        r@ == decimal(n as nat),
    decreases n,
{
    if n < 10 {
        digit_text(n).to_owned()
    } else {
        let mut text = decimal_text(n / 10);
        text.append(digit_text(n % 10));
        proof {
            assert(text@ =~= decimal(n as nat));
        }
        text
    }
}

/// Compares two texts character by character.
pub fn same_text(left: &str, right: &str) -> (r: bool)
    ensures
        r == (left@ == right@),
{
    let left: String = left.to_owned();
    let right: String = right.to_owned();
    left == right
}

/// Joins two texts.
pub fn joined(left: &str, right: &str) -> (r: String)
    ensures
        r@ == left@ + right@,
{
    let mut text = left.to_owned();
    text.append(right);
    text
}

proof fn lemma_digit_injective(a: nat, b: nat)
    requires
        a < 10,
        b < 10,
        digit(a) == digit(b),
    ensures
        a == b,
{
}

proof fn lemma_digit_is_not_a_separator(d: nat)
    ensures
        digit(d) != ':',
{
}

proof fn lemma_decimal_nonempty(n: nat)
    ensures
        decimal(n).len() >= 1,
    decreases n,
{
    if n >= 10 {
        lemma_decimal_nonempty(n / 10);
    }
}

proof fn lemma_decimal_length(n: nat)
    ensures
        decimal(n).len() == 1 <==> n < 10,
{
    if n >= 10 {
        lemma_decimal_nonempty(n / 10);
    }
}

/// Different numbers have different numerals.
pub proof fn law_decimal_is_injective(a: nat, b: nat)
    requires
        decimal(a) == decimal(b),
    ensures
        a == b,
    decreases a,
{
    lemma_decimal_length(a);
    lemma_decimal_length(b);
    if a < 10 {
        assert(decimal(a)[0] == digit(a));
        assert(decimal(b)[0] == digit(b));
        lemma_digit_injective(a, b);
    } else {
        assert(decimal(a).last() == digit(a % 10));
        assert(decimal(b).last() == digit(b % 10));
        lemma_digit_injective(a % 10, b % 10);
        assert(decimal(a).drop_last() =~= decimal(a / 10));
        assert(decimal(b).drop_last() =~= decimal(b / 10));
        law_decimal_is_injective(a / 10, b / 10);
    }
}

/// A numeral holds no colon.
pub proof fn lemma_decimal_has_no_separator(n: nat)
    ensures
        !mentions(decimal(n), ':'),
    decreases n,
{
    lemma_digit_is_not_a_separator(n);
    lemma_digit_is_not_a_separator(n % 10);
    if n >= 10 {
        lemma_decimal_has_no_separator(n / 10);
        let prefix = decimal(n / 10);
        assert forall|i: int| 0 <= i < decimal(n).len() implies #[trigger] decimal(n)[i] != ':' by {
            if i < prefix.len() {
                assert(decimal(n)[i] == prefix[i]);
            }
        }
    }
}

/// Two texts that end in a colon-free tail behind a colon agree only if their heads and their
/// tails agree.
pub proof fn lemma_split_at_last_separator(
    left_head: Seq<char>,
    left_tail: Seq<char>,
    right_head: Seq<char>,
    right_tail: Seq<char>,
)
    requires
        !mentions(left_tail, ':'),
        !mentions(right_tail, ':'),
        left_head + seq![':'] + left_tail == right_head + seq![':'] + right_tail,
    ensures
        left_head == right_head,
        left_tail == right_tail,
{
    let left = left_head + seq![':'] + left_tail;
    let right = right_head + seq![':'] + right_tail;
    assert(left.len() == left_head.len() + 1 + left_tail.len());
    assert(right.len() == right_head.len() + 1 + right_tail.len());
    if left_tail.len() < right_tail.len() {
        let i = left_head.len() as int;
        assert(left[i] == ':');
        assert(right[i] == right_tail[i - right_head.len() - 1]);
        assert(false);
    }
    if right_tail.len() < left_tail.len() {
        let i = right_head.len() as int;
        assert(right[i] == ':');
        assert(left[i] == left_tail[i - left_head.len() - 1]);
        assert(false);
    }
    assert(left_head =~= left.take(left_head.len() as int));
    assert(right_head =~= right.take(right_head.len() as int));
    assert(left_tail =~= left.skip(left_head.len() as int + 1));
    assert(right_tail =~= right.skip(right_head.len() as int + 1));
}

} // verus!
