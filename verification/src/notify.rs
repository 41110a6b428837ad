//! Building the outbound notification text for notable swaps.

use vstd::prelude::*;
use vstd::string::StringExecFns;

verus! {

/// A plain-text payload for the outbound channel, with an optional
/// destination override; the dispatcher's configured destination is used
/// when none is given.
pub struct NotificationMessage {
    pub text: String,
    pub destination: Option<i64>,
}

/// The decimal digit character for one digit value.
pub open spec fn digit_char(d: nat) -> char
    recommends
        d < 10,
{
    if d == 0 { '0' }
    else if d == 1 { '1' }
    else if d == 2 { '2' }
    else if d == 3 { '3' }
    else if d == 4 { '4' }
    else if d == 5 { '5' }
    else if d == 6 { '6' }
    else if d == 7 { '7' }
    else if d == 8 { '8' }
    else { '9' }
}

/// The decimal rendering of a number, most significant digit first,
/// without leading zeros (a single zero digit for zero).
pub open spec fn dec_seq(n: nat) -> Seq<char>
    decreases n,
{
    if n < 10 {
        seq![digit_char(n)]
    } else {
        dec_seq(n / 10) + seq![digit_char(n % 10)]
    }
}

/// The one-character string for one decimal digit value.
fn digit_str(d: u64) -> (r: &'static str)
    requires
        d < 10,
    ensures
        r@ =~= seq![digit_char(d as nat)],
{
    proof {
        reveal_strlit("0");
        reveal_strlit("1");
        reveal_strlit("2");
        reveal_strlit("3");
        reveal_strlit("4");
        reveal_strlit("5");
        reveal_strlit("6");
        reveal_strlit("7");
        reveal_strlit("8");
        reveal_strlit("9");
    }
    match d {
        0 => "0",
        1 => "1",
        2 => "2",
        3 => "3",
        4 => "4",
        5 => "5",
        6 => "6",
        7 => "7",
        8 => "8",
        _ => "9",
    }
}

/// Renders a number in decimal.
pub fn u64_to_dec(n: u64) -> (r: String)
    ensures
        r@ == dec_seq(n as nat),
    decreases n,
{
    let last = digit_str(n % 10);
    if n < 10 {
        String::from_str(last)
    } else {
        let mut prefix = u64_to_dec(n / 10);
        prefix.append(last);
        prefix
    }
}

/// The full notification text for a notable swap: both resolved token
/// symbols and both amounts, each on its own labelled line.
pub open spec fn swap_message_seq(
    symbol_x: Seq<char>,
    symbol_y: Seq<char>,
    amount_in: u64,
    min_amount_out: u64,
) -> Seq<char> {
    "Swap Instruction:\nToken X: "@ + symbol_x + "\nToken Y: "@ + symbol_y + "\nAmount In: "@
        + dec_seq(amount_in as nat) + "\nMin Amount Out: "@ + dec_seq(min_amount_out as nat)
}

/// Builds the notification text for a notable swap.
pub fn swap_message(symbol_x: &str, symbol_y: &str, amount_in: u64, min_amount_out: u64) -> (r:
    String)
    ensures
        r@ == swap_message_seq(symbol_x@, symbol_y@, amount_in, min_amount_out),
{
    let mut text = String::from_str("Swap Instruction:\nToken X: ");
    text.append(symbol_x);
    text.append("\nToken Y: ");
    text.append(symbol_y);
    text.append("\nAmount In: ");
    let amount_in_text = u64_to_dec(amount_in);
    text.append(amount_in_text.as_str());
    text.append("\nMin Amount Out: ");
    let min_out_text = u64_to_dec(min_amount_out);
    text.append(min_out_text.as_str());
    text
}

} // verus!
