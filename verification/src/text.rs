//! Verified text building: decimal rendering of counters, the generated
//! entity identifiers, the composite earnings key, and the memo and
//! receipt lines that accompany transfers.

use vstd::prelude::*;

verus! {

/// The decimal digit character for `d` (meaningful for `d < 10`).
pub open spec fn digit_char(d: nat) -> char {
    if d == 0 {
        '0'
    } else if d == 1 {
        '1'
    } else if d == 2 {
        '2'
    } else if d == 3 {
        '3'
    } else if d == 4 {
        '4'
    } else if d == 5 {
        '5'
    } else if d == 6 {
        '6'
    } else if d == 7 {
        '7'
    } else if d == 8 {
        '8'
    } else {
        '9'
    }
}

/// The decimal rendering of `n`: most significant digit first, no leading
/// zeros (zero itself renders as a single `'0'`).
pub open spec fn dec_digits(n: nat) -> Seq<char>
    decreases n,
{
    if n < 10 {
        seq![digit_char(n)]
    } else {
        dec_digits(n / 10) + seq![digit_char(n % 10)]
    }
}

fn digit_str(d: u64) -> (s: String)
    requires
        d < 10,
    ensures
        s@ == seq![digit_char(d as nat)],
{
    if d == 0 {
        proof {
            reveal_strlit("0");
            assert("0"@ =~= seq![digit_char(0)]);
        }
        String::from_str("0")
    } else if d == 1 {
        proof {
            reveal_strlit("1");
            assert("1"@ =~= seq![digit_char(1)]);
        }
        String::from_str("1")
    } else if d == 2 {
        proof {
            reveal_strlit("2");
            assert("2"@ =~= seq![digit_char(2)]);
        }
        String::from_str("2")
    } else if d == 3 {
        proof {
            reveal_strlit("3");
            assert("3"@ =~= seq![digit_char(3)]);
        }
        String::from_str("3")
    } else if d == 4 {
        proof {
            reveal_strlit("4");
            assert("4"@ =~= seq![digit_char(4)]);
        }
        String::from_str("4")
    } else if d == 5 {
        proof {
            reveal_strlit("5");
            assert("5"@ =~= seq![digit_char(5)]);
        }
        String::from_str("5")
    } else if d == 6 {
        proof {
            reveal_strlit("6");
            assert("6"@ =~= seq![digit_char(6)]);
        }
        String::from_str("6")
    } else if d == 7 {
        proof {
            reveal_strlit("7");
            assert("7"@ =~= seq![digit_char(7)]);
        }
        String::from_str("7")
    } else if d == 8 {
        proof {
            reveal_strlit("8");
            assert("8"@ =~= seq![digit_char(8)]);
        }
        String::from_str("8")
    } else {
        proof {
            reveal_strlit("9");
            assert("9"@ =~= seq![digit_char(9)]);
        }
        String::from_str("9")
    }
}

/// Renders `n` in decimal.
pub fn dec_str(n: u64) -> (s: String)
    ensures
        s@ == dec_digits(n as nat),
    decreases n,
{
    if n < 10 {
        digit_str(n)
    } else {
        let pre = dec_str(n / 10);
        let last = digit_str(n % 10);
        pre.concat(last.as_str())
    }
}

/// The campaign identifier issued for counter value `n`.
pub open spec fn campaign_id_seq(n: nat) -> Seq<char> {
    "campaign_"@ + dec_digits(n)
}

/// The provider identifier issued for counter value `n`.
pub open spec fn provider_id_seq(n: nat) -> Seq<char> {
    "provider_"@ + dec_digits(n)
}

pub fn campaign_id_string(n: u64) -> (s: String)
    ensures
        s@ == campaign_id_seq(n as nat),
{
    String::from_str("campaign_").concat(dec_str(n).as_str())
}

pub fn provider_id_string(n: u64) -> (s: String)
    ensures
        s@ == provider_id_seq(n as nat),
{
    String::from_str("provider_").concat(dec_str(n).as_str())
}

/// The key of the earnings record for a provider/campaign pair.
pub open spec fn earnings_key_seq(provider_id: Seq<char>, campaign_id: Seq<char>) -> Seq<char> {
    provider_id + ":"@ + campaign_id
}

pub fn earnings_key(provider_id: &String, campaign_id: &String) -> (s: String)
    ensures
        s@ == earnings_key_seq(provider_id@, campaign_id@),
{
    provider_id.clone().concat(":").concat(campaign_id.as_str())
}

/// Memo attached to the transfer that funds a campaign.
pub open spec fn fund_memo_seq(campaign_id: Seq<char>) -> Seq<char> {
    "Fund campaign: "@ + campaign_id
}

pub fn fund_memo(campaign_id: &String) -> (s: String)
    ensures
        s@ == fund_memo_seq(campaign_id@),
{
    String::from_str("Fund campaign: ").concat(campaign_id.as_str())
}

/// Memo attached to the transfer that pays out a provider's earnings.
pub open spec fn provider_withdrawal_memo_seq(provider_id: Seq<char>) -> Seq<char> {
    "Provider withdrawal: "@ + provider_id
}

pub fn provider_withdrawal_memo(provider_id: &String) -> (s: String)
    ensures
        s@ == provider_withdrawal_memo_seq(provider_id@),
{
    String::from_str("Provider withdrawal: ").concat(provider_id.as_str())
}

/// Memo attached to the transfer that returns campaign funds to the owner.
pub open spec fn campaign_withdrawal_memo_seq(campaign_id: Seq<char>) -> Seq<char> {
    "Campaign withdrawal: "@ + campaign_id
}

pub fn campaign_withdrawal_memo(campaign_id: &String) -> (s: String)
    ensures
        s@ == campaign_withdrawal_memo_seq(campaign_id@),
{
    String::from_str("Campaign withdrawal: ").concat(campaign_id.as_str())
}

/// Receipt returned after a successful campaign funding.
pub open spec fn fund_receipt_seq(block_index: nat) -> Seq<char> {
    "Campaign funded successfully. Transfer block index: "@ + dec_digits(block_index)
}

pub fn fund_receipt(block_index: u64) -> (s: String)
    ensures
        s@ == fund_receipt_seq(block_index as nat),
{
    String::from_str("Campaign funded successfully. Transfer block index: ").concat(
        dec_str(block_index).as_str(),
    )
}

/// Receipt returned after a successful earnings withdrawal.
pub open spec fn provider_withdrawal_receipt_seq(block_index: nat) -> Seq<char> {
    "Withdrawal successful. Transfer block index: "@ + dec_digits(block_index)
}

pub fn provider_withdrawal_receipt(block_index: u64) -> (s: String)
    ensures
        s@ == provider_withdrawal_receipt_seq(block_index as nat),
{
    String::from_str("Withdrawal successful. Transfer block index: ").concat(
        dec_str(block_index).as_str(),
    )
}

/// Receipt returned after a successful campaign funds withdrawal.
pub open spec fn campaign_withdrawal_receipt_seq(block_index: nat) -> Seq<char> {
    "Campaign funds withdrawal successful. Transfer block index: "@ + dec_digits(block_index)
}

pub fn campaign_withdrawal_receipt(block_index: u64) -> (s: String)
    ensures
        s@ == campaign_withdrawal_receipt_seq(block_index as nat),
{
    String::from_str("Campaign funds withdrawal successful. Transfer block index: ").concat(
        dec_str(block_index).as_str(),
    )
}

/// Receipt returned after a payment from a campaign to a provider.
pub open spec fn payment_receipt_seq(amount: nat, provider_id: Seq<char>) -> Seq<char> {
    "Payment of "@ + dec_digits(amount) + " tokens made to provider "@ + provider_id
}

pub fn payment_receipt(amount: u64, provider_id: &String) -> (s: String)
    ensures
        s@ == payment_receipt_seq(amount as nat, provider_id@),
{
    String::from_str("Payment of ").concat(dec_str(amount).as_str()).concat(
        " tokens made to provider ",
    ).concat(provider_id.as_str())
}

} // verus!
