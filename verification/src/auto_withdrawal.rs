use vstd::prelude::*;
use crate::errors::ContractError;
use crate::events::ShadeEvent;
use crate::types::{Address, AutoWithdrawalThreshold, Merchant};

verus! {

/// The threshold of the first entry of `s` for `token`, if any.
pub open spec fn threshold_for(s: Seq<AutoWithdrawalThreshold>, token: Address) -> Option<i128>
    decreases s.len(),
{
    if s.len() == 0 {
        None
    } else {
        match threshold_for(s.drop_last(), token) {
            Some(t) => Some(t),
            None => if s.last().token == token {
                Some(s.last().threshold)
            } else {
                None
            },
        }
    }
}

/// Entry `e`, with its threshold replaced when it is `token`'s.
pub open spec fn replaced_threshold(e: AutoWithdrawalThreshold, token: Address, threshold: i128) -> AutoWithdrawalThreshold {
    if e.token == token {
        AutoWithdrawalThreshold { token, threshold }
    } else {
        e
    }
}

/// `s` with `token`'s threshold set to `threshold`: every entry for `token` is replaced in
/// place, and a new entry is appended when there was none.
pub open spec fn thresholds_with(
    s: Seq<AutoWithdrawalThreshold>,
    token: Address,
    threshold: i128,
) -> Seq<AutoWithdrawalThreshold> {
    if exists|i: int| 0 <= i < s.len() && s[i].token == token {
        Seq::new(s.len(), |i: int| replaced_threshold(s[i], token, threshold))
    } else {
        s.push(AutoWithdrawalThreshold { token, threshold })
    }
}

/// A first match stays the first match whatever follows it.
proof fn lemma_threshold_for_prefix(
    p: Seq<AutoWithdrawalThreshold>,
    q: Seq<AutoWithdrawalThreshold>,
    token: Address,
)
    requires
        threshold_for(p, token).is_some(),
    ensures
        threshold_for(p + q, token) == threshold_for(p, token),
    decreases q.len(),
{
    if q.len() == 0 {
        assert(p + q =~= p);
    } else {
        lemma_threshold_for_prefix(p, q.drop_last(), token);
        assert((p + q).drop_last() =~= p + q.drop_last());
    }
}

/// Without any entry for `token` there is no threshold for it.
pub proof fn lemma_threshold_for_none(s: Seq<AutoWithdrawalThreshold>, token: Address)
    requires
        forall|i: int| 0 <= i < s.len() ==> s[i].token != token,
    ensures
        threshold_for(s, token).is_none(),
    decreases s.len(),
{
    if s.len() > 0 {
        lemma_threshold_for_none(s.drop_last(), token);
    }
}

/// The threshold for `token` is that of its first entry.
pub proof fn lemma_threshold_for_first(s: Seq<AutoWithdrawalThreshold>, token: Address, k: int)
    requires
        0 <= k < s.len(),
        s[k].token == token,
        forall|j: int| 0 <= j < k ==> s[j].token != token,
    ensures
        threshold_for(s, token) == Some(s[k].threshold),
{
    let p = s.take(k + 1);
    assert(p.drop_last() =~= s.take(k));
    lemma_threshold_for_none(s.take(k), token);
    assert(threshold_for(p, token) == Some(s[k].threshold));
    lemma_threshold_for_prefix(p, s.skip(k + 1), token);
    assert(p + s.skip(k + 1) =~= s);
}

/// Sets `merchant`'s auto-withdrawal threshold for `token` (not negative; 0 turns
/// auto-withdrawal off). The merchant must be active.
pub fn set_auto_withdrawal_threshold(merchant: &mut Merchant, token: Address, threshold: i128) -> (r:
    Result<ShadeEvent, ContractError>)
    ensures
        threshold < 0 ==> r == Err::<ShadeEvent, ContractError>(ContractError::InvalidAmount),
        threshold >= 0 && !old(merchant).active ==> r == Err::<ShadeEvent, ContractError>(
            ContractError::MerchantNotActive,
        ),
        threshold >= 0 && old(merchant).active ==> r == Ok::<ShadeEvent, ContractError>(
            ShadeEvent::AutoWithdrawalThresholdSet { merchant_id: old(merchant).id, token, threshold },
        ),
        final(merchant).auto_withdrawal_thresholds@ == if r is Ok {
            thresholds_with(old(merchant).auto_withdrawal_thresholds@, token, threshold)
        } else {
            old(merchant).auto_withdrawal_thresholds@
        },
        final(merchant).id == old(merchant).id,
        final(merchant).address == old(merchant).address,
        final(merchant).active == old(merchant).active,
        final(merchant).auto_withdrawal_recipient == old(merchant).auto_withdrawal_recipient,
{
    if threshold < 0 {
        return Err(ContractError::InvalidAmount);
    }
    if !merchant.active {
        return Err(ContractError::MerchantNotActive);
    }
    let ghost s = merchant.auto_withdrawal_thresholds@;
    let mut updated: Vec<AutoWithdrawalThreshold> = Vec::new();
    let mut found = false;
    let n = merchant.auto_withdrawal_thresholds.len();
    let mut i: usize = 0;
    while i < n
        invariant
            i <= n,
            n == s.len(),
            s == merchant.auto_withdrawal_thresholds@,
            updated@.len() == i,
            forall|j: int| 0 <= j < i ==> updated@[j] == replaced_threshold(s[j], token, threshold),
            found <==> exists|j: int| 0 <= j < i && s[j].token == token,
        decreases n - i,
    {
        let entry = merchant.auto_withdrawal_thresholds[i];
        assert(entry == s[i as int]);
        if entry.token == token {
            updated.push(AutoWithdrawalThreshold { token, threshold });
            found = true;
        } else {
            updated.push(entry);
        }
        i = i + 1;
    }
    if !found {
        updated.push(AutoWithdrawalThreshold { token, threshold });
    }
    merchant.auto_withdrawal_thresholds = updated;
    assert(merchant.auto_withdrawal_thresholds@ =~= thresholds_with(s, token, threshold));
    Ok(ShadeEvent::AutoWithdrawalThresholdSet { merchant_id: merchant.id, token, threshold })
}

/// `merchant`'s auto-withdrawal threshold for `token`, if one is set.
pub fn get_auto_withdrawal_threshold(merchant: &Merchant, token: Address) -> (r: Option<i128>)
    ensures
        r == threshold_for(merchant.auto_withdrawal_thresholds@, token),
{
    let ghost s = merchant.auto_withdrawal_thresholds@;
    let n = merchant.auto_withdrawal_thresholds.len();
    let mut i: usize = 0;
    while i < n
        invariant
            i <= n,
            n == s.len(),
            s == merchant.auto_withdrawal_thresholds@,
            forall|j: int| 0 <= j < i ==> s[j].token != token,
        decreases n - i,
    {
        let entry = merchant.auto_withdrawal_thresholds[i];
        if entry.token == token {
            proof {
                lemma_threshold_for_first(s, token, i as int);
            }
            return Some(entry.threshold);
        }
        i = i + 1;
    }
    proof {
        lemma_threshold_for_none(s, token);
    }
    None
}

/// Sets the account that `merchant`'s auto-withdrawals go to. The merchant must be active.
pub fn set_auto_withdrawal_recipient(merchant: &mut Merchant, recipient: Address) -> (r: Result<
    ShadeEvent,
    ContractError,
>)
    ensures
        !old(merchant).active ==> r == Err::<ShadeEvent, ContractError>(
            ContractError::MerchantNotActive,
        ),
        old(merchant).active ==> r == Ok::<ShadeEvent, ContractError>(
            ShadeEvent::AutoWithdrawalRecipientSet { merchant_id: old(merchant).id, recipient },
        ),
        final(merchant).auto_withdrawal_recipient == if r is Ok {
            Some(recipient)
        } else {
            old(merchant).auto_withdrawal_recipient
        },
        final(merchant).id == old(merchant).id,
        final(merchant).address == old(merchant).address,
        final(merchant).active == old(merchant).active,
        final(merchant).auto_withdrawal_thresholds@ == old(merchant).auto_withdrawal_thresholds@,
{
    if !merchant.active {
        return Err(ContractError::MerchantNotActive);
    }
    merchant.auto_withdrawal_recipient = Some(recipient);
    Ok(ShadeEvent::AutoWithdrawalRecipientSet { merchant_id: merchant.id, recipient })
}

/// The account `merchant`'s auto-withdrawals go to, if one is set.
pub fn get_auto_withdrawal_recipient(merchant: &Merchant) -> (r: Option<Address>)
    ensures
        r == merchant.auto_withdrawal_recipient,
{
    merchant.auto_withdrawal_recipient
}

/// Decides whether `merchant`'s account, holding `balance` of `token`, is withdrawn: only when
/// a nonzero threshold is set for `token` and the balance exceeds it. The whole balance
/// then goes to the merchant's auto-withdrawal recipient, or to the merchant itself when none
/// is set; the event describes the withdrawal to make. `None` means nothing is withdrawn.
pub fn check_and_trigger_auto_withdrawal(merchant: &Merchant, token: Address, balance: i128) -> (r:
    Option<ShadeEvent>)
    ensures
        r == match threshold_for(merchant.auto_withdrawal_thresholds@, token) {
            None => None,
            Some(t) => if t == 0 || balance <= t {
                None
            } else {
                Some(
                    ShadeEvent::AutoWithdrawalTriggered {
                        merchant_id: merchant.id,
                        token,
                        amount: balance,
                        recipient: match merchant.auto_withdrawal_recipient {
                            Some(a) => a,
                            None => merchant.address,
                        },
                    },
                )
            },
        },
{
    let threshold = match get_auto_withdrawal_threshold(merchant, token) {
        Some(t) => t,
        None => return None,
    };
    if threshold == 0 {
        return None;
    }
    if balance <= threshold {
        return None;
    }
    let recipient = match get_auto_withdrawal_recipient(merchant) {
        Some(a) => a,
        None => merchant.address,
    };
    Some(
        ShadeEvent::AutoWithdrawalTriggered {
            merchant_id: merchant.id,
            token,
            amount: balance,
            recipient,
        },
    )
}

} // verus!
