//! The checks behind the fields of a form. Each field has two: one that says
//! whether a text may be typed into it, and one that reads its value.

use vstd::prelude::*;
use crate::types::{
    all_digits, all_fee_rate_chars, all_recipient_chars, amount_from_str, amount_of_text,
    fee_rate_from_str, fee_rate_of_text, is_amount_input, is_fee_rate_input, is_recipient_input,
    recipient_from_str, Amount, FeeRate,
};

verus! {

/// Whether the recipient field may hold `s`.
pub fn recipient_chars(s: &str) -> (ok: bool)
    ensures
        ok == all_recipient_chars(s@),
{
    is_recipient_input(s)
}

/// The recipient that the field holds: its text, unless it is empty.
pub fn recipient_value(s: &str) -> (r: Option<String>)
    ensures
        r is Some <==> s@.len() > 0,
        r matches Some(text) ==> text@ == s@,
{
    recipient_from_str(s)
}

/// Whether the amount field may hold `s`.
pub fn amount_chars(s: &str) -> (ok: bool)
    ensures
        ok == all_digits(s@),
{
    is_amount_input(s)
}

/// The amount that the field holds, in satoshi.
pub fn amount_value(s: &str) -> (r: Option<Amount>)
    ensures
        r == amount_of_text(s@),
{
    amount_from_str(s)
}

/// Whether the fee-rate field may hold `s`.
pub fn fee_rate_chars(s: &str) -> (ok: bool)
    ensures
        ok == all_fee_rate_chars(s@),
{
    is_fee_rate_input(s)
}

/// The fee rate that the field holds; an empty field leaves the rate open.
pub fn fee_rate_value(s: &str) -> (r: Option<Option<FeeRate>>)
    ensures
        r == fee_rate_of_text(s@),
{
    fee_rate_from_str(s)
}

} // verus!
