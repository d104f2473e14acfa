//! The text of the lines a run prints.

use vstd::prelude::*;
use vstd::string::StringExecFns;

verus! {

/// The character that writes the digit `d`.
pub open spec fn digit_char(d: nat) -> char
    recommends
        d < 10,
{
    if d == 0 {
        '0'
    } else if d == 1 {
        '1'
    } else if d == 2 {
        '2'
    } else if d == 3 {
        '3'
    } else if d == 4 {
        '4'
    } else if d == 5 {
        '5'
    } else if d == 6 {
        '6'
    } else if d == 7 {
        '7'
    } else if d == 8 {
        '8'
    } else {
        '9'
    }
}

/// The number `n` written in base ten, without leading zeros.
pub open spec fn decimal(n: nat) -> Seq<char>
    decreases n,
{
    if n < 10 {
        seq![digit_char(n)]
    } else {
        decimal(n / 10).push(digit_char(n % 10))
    }
}

/// The line that reports an elapsed time of `millis` milliseconds.
pub open spec fn elapsed_text(millis: nat) -> Seq<char> {
    decimal(millis) + " milliseconds elapsed."@
}

/// The line that shows a preview whose drawing is `drawing`.
pub open spec fn shown_text(drawing: Seq<char>) -> Seq<char> {
    "Ok("@ + drawing + ")"@
}

fn digit_text(d: u128) -> (text: &'static str)
    requires
        d < 10,
    ensures
        text@ == seq![digit_char(d as nat)],
{
    proof {
        reveal_strlit("0");
        reveal_strlit("1");
        reveal_strlit("2");
        reveal_strlit("3");
        reveal_strlit("4");
        reveal_strlit("5");
        reveal_strlit("6");
        reveal_strlit("7");
        reveal_strlit("8");
        reveal_strlit("9");
    }
    let text = if d == 0 {
        "0"
    } else if d == 1 {
        "1"
    } else if d == 2 {
        "2"
    } else if d == 3 {
        "3"
    } else if d == 4 {
        "4"
    } else if d == 5 {
        "5"
    } else if d == 6 {
        "6"
    } else if d == 7 {
        "7"
    } else if d == 8 {
        "8"
    } else {
        "9"
    };
    assert(text@ =~= seq![digit_char(d as nat)]);
    text
}

/// Writes `n` in base ten.
pub fn render_decimal(n: u128) -> (text: String)
    ensures
        text@ == decimal(n as nat),
    decreases n,
{
    if n < 10 {
        String::from_str(digit_text(n))
    } else {
        let head = render_decimal(n / 10);
        let text = head.concat(digit_text(n % 10));
        assert(text@ =~= decimal(n as nat));
        text
    }
}

/// Writes the line that reports an elapsed time.
pub fn elapsed_line(millis: u128) -> (line: String)
    ensures
        line@ == elapsed_text(millis as nat),
{
    render_decimal(millis).concat(" milliseconds elapsed.")
}

/// Writes the line that shows a preview, around the drawing of its frame.
pub fn shown_line(drawing: &str) -> (line: String)
    ensures
        line@ == shown_text(drawing@),
{
    String::from_str("Ok(").concat(drawing).concat(")")
}

/// The digit that the character `c` writes.
pub open spec fn digit_value(c: char) -> nat
    recommends
        '0' <= c <= '9',
{
    if c == '0' {
        0
    } else if c == '1' {
        1
    } else if c == '2' {
        2
    } else if c == '3' {
        3
    } else if c == '4' {
        4
    } else if c == '5' {
        5
    } else if c == '6' {
        6
    } else if c == '7' {
        7
    } else if c == '8' {
        8
    } else {
        9
    }
}

/// The number that a string of digits writes in base ten.
pub open spec fn denoted(text: Seq<char>) -> nat
    decreases text.len(),
{
    if text.len() == 0 {
        0
    } else {
        10 * denoted(text.drop_last()) + digit_value(text.last())
    }
}

/// A number in base ten is made of digits only, at least one of them: no sign
/// and no separator. Only zero begins with the digit zero.
pub proof fn lemma_decimal_is_digits(n: nat)
    ensures
        decimal(n).len() >= 1,
        forall|i: int| 0 <= i < decimal(n).len() ==> '0' <= (#[trigger] decimal(n)[i]) <= '9',
        decimal(n)[0] == '0' ==> n == 0,
    decreases n,
{
    if n >= 10 {
        lemma_decimal_is_digits(n / 10);
    }
}

/// Reading back what was written gives the number again, so two numbers are
/// never written alike.
pub proof fn lemma_decimal_denotes(n: nat)
    ensures
        denoted(decimal(n)) == n,
    decreases n,
{
    if n < 10 {
        assert(decimal(n).drop_last() =~= Seq::<char>::empty());
        assert(denoted(decimal(n).drop_last()) == 0);
    } else {
        lemma_decimal_denotes(n / 10);
        assert(decimal(n).drop_last() =~= decimal(n / 10));
    }
}

/// The line for an elapsed time begins with the amount and ends with the same
/// words whatever the amount.
pub proof fn lemma_elapsed_text_shape(millis: nat)
    ensures
        elapsed_text(millis).len() == decimal(millis).len() + " milliseconds elapsed."@.len(),
        elapsed_text(millis).subrange(0, decimal(millis).len() as int) == decimal(millis),
        elapsed_text(millis).subrange(
            decimal(millis).len() as int,
            elapsed_text(millis).len() as int,
        ) == " milliseconds elapsed."@,
{
    let amount = decimal(millis);
    let words = " milliseconds elapsed."@;
    assert((amount + words).subrange(0, amount.len() as int) =~= amount);
    assert((amount + words).subrange(amount.len() as int, (amount + words).len() as int) =~= words);
}

} // verus!
