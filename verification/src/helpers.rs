//! How long until a block height is reached, in words.

use vstd::prelude::*;
use crate::text::{decimal, push_decimal};

verus! {

/// Blocks that still have to be mined before `block_height`, seen from
/// `tip_height`; zero once the tip has reached it.
pub open spec fn remaining_blocks(block_height: u32, tip_height: u32) -> nat {
    if block_height <= tip_height {
        0
    } else {
        (block_height - tip_height) as nat
    }
}

/// The estimate for a number of remaining blocks, at ten minutes a block, six
/// blocks an hour and 144 blocks a day. Up to five blocks are given in
/// minutes, up to a day in hours with the minutes left over, anything longer
/// in days with the whole hours left over. A part that is zero is left out.
pub open spec fn estimate_for(remaining: nat) -> Seq<char> {
    if remaining == 0 {
        "now"@
    } else if remaining <= 5 {
        "in "@ + decimal(remaining * 10) + " minutes"@
    } else if remaining <= 144 {
        let hours = remaining / 6;
        let minutes = (remaining % 6) * 10;
        if minutes == 0 {
            "in "@ + decimal(hours) + " hours"@
        } else {
            "in "@ + decimal(hours) + " hours "@ + decimal(minutes) + " minutes"@
        }
    } else {
        let days = remaining / 144;
        let hours = (remaining % 144) / 6;
        if hours == 0 {
            "in "@ + decimal(days) + " days"@
        } else {
            "in "@ + decimal(days) + " days "@ + decimal(hours) + " hours"@
        }
    }
}

/// The estimate that `height_to_est` gives for a target height and a tip.
pub open spec fn estimate_text(block_height: u32, tip_height: u32) -> Seq<char> {
    estimate_for(remaining_blocks(block_height, tip_height))
}

/// Says when `block_height` will be reached, given the current `tip_height`.
pub fn height_to_est(block_height: u32, tip_height: u32) -> (est: String)
    ensures
        est@ == estimate_text(block_height, tip_height),
{
    if block_height <= tip_height {
        return String::from_str("now");
    }
    let remaining: u32 = block_height - tip_height;
    let mut est = String::from_str("in ");
    if remaining <= 5 {
        push_decimal(&mut est, (remaining * 10) as u64);
        est.append(" minutes");
    } else if remaining <= 144 {
        let hours: u32 = remaining / 6;
        let minutes: u32 = (remaining % 6) * 10;
        push_decimal(&mut est, hours as u64);
        if minutes == 0 {
            est.append(" hours");
        } else {
            est.append(" hours ");
            push_decimal(&mut est, minutes as u64);
            est.append(" minutes");
        }
    } else {
        let days: u32 = remaining / 144;
        let hours: u32 = (remaining % 144) / 6;
        push_decimal(&mut est, days as u64);
        if hours == 0 {
            est.append(" days");
        } else {
            est.append(" days ");
            push_decimal(&mut est, hours as u64);
            est.append(" hours");
        }
    }
    assert(est@ =~= estimate_text(block_height, tip_height));
    est
}

/// A height that the tip has reached or passed is due now.
pub proof fn lemma_estimate_now(block_height: u32, tip_height: u32)
    requires
        block_height <= tip_height,
    ensures
        estimate_text(block_height, tip_height) == "now"@,
{
}

/// The block after the tip is ten minutes away.
pub proof fn lemma_estimate_next_block(tip_height: u32)
    requires
        tip_height < u32::MAX,
    ensures
        estimate_text((tip_height + 1) as u32, tip_height) == "in 10 minutes"@,
{
    reveal_strlit("in ");
    reveal_strlit(" minutes");
    reveal_strlit("in 10 minutes");
    reveal_with_fuel(decimal, 3);
    assert(decimal(10) =~= seq!['1', '0']);
    assert("in "@ + decimal(10) + " minutes"@ =~= "in 10 minutes"@);
}

/// Past a day the estimate counts days of 144 blocks and, of what is left,
/// whole hours of six blocks; minutes are dropped.
pub proof fn lemma_estimate_days(block_height: u32, tip_height: u32)
    requires
        block_height > tip_height,
        block_height - tip_height > 144,
    ensures
        ({
            let remaining = (block_height - tip_height) as nat;
            let days = remaining / 144;
            let hours = (remaining % 144) / 6;
            &&& days >= 1
            &&& hours < 24
            &&& days * 144 + hours * 6 <= remaining < days * 144 + hours * 6 + 6
            &&& hours == 0 ==> estimate_text(block_height, tip_height) == "in "@ + decimal(days)
                + " days"@
            &&& hours != 0 ==> estimate_text(block_height, tip_height) == "in "@ + decimal(days)
                + " days "@ + decimal(hours) + " hours"@
        }),
{
}

/// A hundred and fifty blocks are one day and one hour.
pub proof fn lemma_estimate_150_blocks(tip_height: u32)
    requires
        tip_height + 150 <= u32::MAX,
    ensures
        estimate_text((tip_height + 150) as u32, tip_height) == "in 1 days 1 hours"@,
{
    reveal_strlit("in ");
    reveal_strlit(" days ");
    reveal_strlit(" hours");
    reveal_strlit("in 1 days 1 hours");
    reveal_with_fuel(decimal, 2);
    assert(decimal(1) =~= seq!['1']);
    assert("in "@ + decimal(1) + " days "@ + decimal(1) + " hours"@ =~= "in 1 days 1 hours"@);
}

} // verus!
