//! Double-entry ledger drafts and balancing rules.
//!
//! A completed transfer produces one debit (sender) and one credit
//! (recipient) of equal magnitude; debits count negative, credits positive,
//! and the signed sum of a transfer's entries is zero.

use vstd::prelude::*;
use crate::currency::Currency;
use crate::errors::DomainError;
use crate::money::Money;

verus! {

/// Direction of a ledger entry.
#[derive(Debug, Clone, Copy, PartialEq, Eq, Structural)]
pub enum LedgerDirection {
    /// Outflow from the account (sender side).
    Debit,
    /// Inflow to the account (recipient side).
    Credit,
}

/// Draft ledger entry before persistence. Identifiers are the 128-bit
/// values of the account and transfer UUIDs.
#[derive(Debug, Clone, Copy, PartialEq, Eq, Structural)]
pub struct LedgerEntryDraft {
    /// Account this entry posts against.
    pub account_id: u128,
    /// Transfer that produced this entry.
    pub transfer_id: u128,
    /// Absolute amount in minor units.
    pub amount_minor: i64,
    /// Debit or credit.
    pub direction: LedgerDirection,
    /// Currency of the posting.
    pub currency: Currency,
}

/// Signed amount of an entry: debits negative, credits positive.
pub open spec fn signed(e: LedgerEntryDraft) -> int {
    match e.direction {
        LedgerDirection::Debit => -(e.amount_minor as int),
        LedgerDirection::Credit => e.amount_minor as int,
    }
}

/// Signed sum of a sequence of entries.
pub open spec fn signed_sum(s: Seq<LedgerEntryDraft>) -> int
    decreases s.len(),
{
    if s.len() == 0 {
        0
    } else {
        signed_sum(s.drop_last()) + signed(s.last())
    }
}

/// Signed sum of the entries that post against `account_id`.
pub open spec fn account_sum(account_id: u128, s: Seq<LedgerEntryDraft>) -> int
    decreases s.len(),
{
    if s.len() == 0 {
        0
    } else {
        account_sum(account_id, s.drop_last()) + if s.last().account_id == account_id {
            signed(s.last())
        } else {
            0
        }
    }
}

/// The signed amount of the entry can be computed without overflow.
pub open spec fn negatable(e: LedgerEntryDraft) -> bool {
    e.direction == LedgerDirection::Credit || e.amount_minor > i64::MIN
}

/// Every running signed sum fits in an `i64` (so summing does not overflow).
pub open spec fn running_sums_fit(s: Seq<LedgerEntryDraft>) -> bool {
    &&& forall|i: int| 0 <= i < s.len() ==> negatable(#[trigger] s[i])
    &&& forall|k: int|
        0 <= k <= s.len() ==> i64::MIN <= #[trigger] signed_sum(s.take(k)) <= i64::MAX
}

/// The entries of the account can be negated and every running
/// per-account sum fits in an `i64`; entries of other accounts are not
/// read.
pub open spec fn running_account_sums_fit(account_id: u128, s: Seq<LedgerEntryDraft>) -> bool {
    &&& forall|i: int| 0 <= i < s.len() && s[i].account_id == account_id ==> negatable(#[trigger] s[i])
    &&& forall|k: int|
        0 <= k <= s.len() ==> i64::MIN <= #[trigger] account_sum(account_id, s.take(k))
            <= i64::MAX
}

/// The debit/credit pair of a transfer.
pub open spec fn transfer_pair(
    transfer_id: u128,
    sender_account_id: u128,
    recipient_account_id: u128,
    amount: i64,
    currency: Currency,
) -> Seq<LedgerEntryDraft> {
    seq![
        LedgerEntryDraft {
            account_id: sender_account_id,
            transfer_id,
            amount_minor: amount,
            direction: LedgerDirection::Debit,
            currency,
        },
        LedgerEntryDraft {
            account_id: recipient_account_id,
            transfer_id,
            amount_minor: amount,
            direction: LedgerDirection::Credit,
            currency,
        },
    ]
}

impl LedgerEntryDraft {
    /// Signed amount for balancing: debits negative, credits positive.
    pub fn signed_amount(&self) -> (r: i64)
        requires
            negatable(*self),
        ensures
            r == signed(*self),
    {
        match self.direction {
            LedgerDirection::Debit => -self.amount_minor,
            LedgerDirection::Credit => self.amount_minor,
        }
    }
}

/// Builds the balanced debit/credit pair for a transfer: the sender gets a
/// debit and the recipient a credit of the same magnitude. The pair is
/// checked with [`validate_balanced`] before it is returned, which never
/// fails for such a pair.
pub fn build_transfer_entries(
    transfer_id: u128,
    sender_account_id: u128,
    recipient_account_id: u128,
    amount: &Money,
) -> (r: Result<[LedgerEntryDraft; 2], DomainError>)
    ensures
        r matches Ok(entries) && entries@ == transfer_pair(
            transfer_id,
            sender_account_id,
            recipient_account_id,
            amount.amount() as i64,
            amount.cur(),
        ),
        amount.amount() >= 0,
{
    let minor = amount.amount_minor();
    let currency = amount.currency();
    let debit = LedgerEntryDraft {
        account_id: sender_account_id,
        transfer_id,
        amount_minor: minor,
        direction: LedgerDirection::Debit,
        currency,
    };
    let credit = LedgerEntryDraft {
        account_id: recipient_account_id,
        transfer_id,
        amount_minor: minor,
        direction: LedgerDirection::Credit,
        currency,
    };
    let pair = [debit, credit];
    proof {
        let s = pair@;
        assert(s =~= transfer_pair(transfer_id, sender_account_id, recipient_account_id, minor, currency));
        lemma_pair_sums(transfer_id, sender_account_id, recipient_account_id, minor, currency);
    }
    validate_balanced(&pair)?;
    Ok(pair)
}

/// Checks that entries sum to zero under signed-amount semantics; otherwise
/// `UnbalancedLedger`.
pub fn validate_balanced(entries: &[LedgerEntryDraft]) -> (r: Result<(), DomainError>)
    requires
        running_sums_fit(entries@),
    ensures
        signed_sum(entries@) == 0 ==> r is Ok,
        signed_sum(entries@) != 0 ==> r == Err::<(), DomainError>(DomainError::UnbalancedLedger),
{
    let mut sum: i64 = 0;
    let mut i: usize = 0;
    while i < entries.len()
        invariant
            i <= entries@.len(),
            running_sums_fit(entries@),
            sum == signed_sum(entries@.take(i as int)),
        decreases entries@.len() - i,
    {
        let e = entries[i];
        assert(entries@.take(i + 1).drop_last() =~= entries@.take(i as int));
        assert(negatable(entries@[i as int]));
        let v = e.signed_amount();
        assert(i64::MIN <= signed_sum(entries@.take(i + 1)) <= i64::MAX);
        sum = sum + v;
        i += 1;
    }
    assert(entries@.take(entries@.len() as int) =~= entries@);
    if sum != 0 {
        return Err(DomainError::UnbalancedLedger);
    }
    Ok(())
}

/// Reconstructs an account balance by summing the signed amounts of the
/// entries that post against it.
pub fn reconstruct_balance(account_id: u128, entries: &[LedgerEntryDraft]) -> (r: i64)
    requires
        running_account_sums_fit(account_id, entries@),
    ensures
        r == account_sum(account_id, entries@),
{
    let mut sum: i64 = 0;
    let mut i: usize = 0;
    while i < entries.len()
        invariant
            i <= entries@.len(),
            running_account_sums_fit(account_id, entries@),
            sum == account_sum(account_id, entries@.take(i as int)),
        decreases entries@.len() - i,
    {
        let e = entries[i];
        assert(entries@.take(i + 1).drop_last() =~= entries@.take(i as int));
        assert(i64::MIN <= account_sum(account_id, entries@.take(i + 1)) <= i64::MAX);
        if e.account_id == account_id {
            assert(negatable(entries@[i as int]));
            let v = e.signed_amount();
            sum = sum + v;
        }
        i += 1;
    }
    assert(entries@.take(entries@.len() as int) =~= entries@);
    sum
}

proof fn lemma_pair_sums(
    transfer_id: u128,
    sender_account_id: u128,
    recipient_account_id: u128,
    amount: i64,
    currency: Currency,
)
    requires
        amount >= 0,
    ensures
        running_sums_fit(
            transfer_pair(transfer_id, sender_account_id, recipient_account_id, amount, currency),
        ),
        signed_sum(
            transfer_pair(transfer_id, sender_account_id, recipient_account_id, amount, currency),
        ) == 0,
{
    let s = transfer_pair(transfer_id, sender_account_id, recipient_account_id, amount, currency);
    let s0 = s.take(0);
    let s1 = s.take(1);
    assert(s0 =~= Seq::<LedgerEntryDraft>::empty());
    assert(signed_sum(s0) == 0);
    assert(s1.drop_last() =~= s0);
    assert(s1.last() == s[0]);
    assert(signed_sum(s1) == -amount);
    assert(s.drop_last() =~= s1);
    assert(s.take(2) =~= s);
    assert(signed_sum(s) == 0);
    assert forall|k: int| 0 <= k <= s.len() implies i64::MIN <= #[trigger] signed_sum(s.take(k))
        <= i64::MAX by {
        if k == 0 {
            assert(s.take(k) == s0);
        } else if k == 1 {
            assert(s.take(k) == s1);
        } else {
            assert(s.take(k) == s);
        }
    }
}

/// Reconstruction is additive: the entries of two lists together post to
/// an account the sum of what each list posts to it.
pub proof fn law_account_sum_additive(account_id: u128, xs: Seq<LedgerEntryDraft>, ys: Seq<
    LedgerEntryDraft,
>)
    ensures
        account_sum(account_id, xs + ys) == account_sum(account_id, xs) + account_sum(
            account_id,
            ys,
        ),
    decreases ys.len(),
{
    if ys.len() == 0 {
        assert(xs + ys =~= xs);
    } else {
        law_account_sum_additive(account_id, xs, ys.drop_last());
        assert((xs + ys).drop_last() =~= xs + ys.drop_last());
        assert((xs + ys).last() == ys.last());
    }
}

/// The signed sum is additive over concatenated entry lists, so joining
/// balanced lists gives a balanced list.
pub proof fn law_signed_sum_additive(xs: Seq<LedgerEntryDraft>, ys: Seq<LedgerEntryDraft>)
    ensures
        signed_sum(xs + ys) == signed_sum(xs) + signed_sum(ys),
    decreases ys.len(),
{
    if ys.len() == 0 {
        assert(xs + ys =~= xs);
    } else {
        law_signed_sum_additive(xs, ys.drop_last());
        assert((xs + ys).drop_last() =~= xs + ys.drop_last());
        assert((xs + ys).last() == ys.last());
    }
}

/// The two entries of a transfer always balance.
pub proof fn law_transfer_pair_balances(
    transfer_id: u128,
    sender_account_id: u128,
    recipient_account_id: u128,
    amount: i64,
    currency: Currency,
)
    requires
        amount >= 0,
    ensures
        signed_sum(
            transfer_pair(transfer_id, sender_account_id, recipient_account_id, amount, currency),
        ) == 0,
{
    lemma_pair_sums(transfer_id, sender_account_id, recipient_account_id, amount, currency);
}

/// The pair of a transfer between two accounts moves exactly the amount:
/// the sender's reconstructed balance drops by it, the recipient's rises
/// by it, and every other account is untouched.
pub proof fn law_transfer_pair_moves_amount(
    transfer_id: u128,
    sender_account_id: u128,
    recipient_account_id: u128,
    amount: i64,
    currency: Currency,
    other: u128,
)
    requires
        sender_account_id != recipient_account_id,
    ensures
        account_sum(
            sender_account_id,
            transfer_pair(transfer_id, sender_account_id, recipient_account_id, amount, currency),
        ) == -amount,
        account_sum(
            recipient_account_id,
            transfer_pair(transfer_id, sender_account_id, recipient_account_id, amount, currency),
        ) == amount,
        other != sender_account_id && other != recipient_account_id ==> account_sum(
            other,
            transfer_pair(transfer_id, sender_account_id, recipient_account_id, amount, currency),
        ) == 0,
{
    let s = transfer_pair(transfer_id, sender_account_id, recipient_account_id, amount, currency);
    let s1 = s.drop_last();
    let s0 = s1.drop_last();
    assert(s0 =~= Seq::<LedgerEntryDraft>::empty());
    assert(s1.last() == s[0]);
    assert(account_sum(sender_account_id, s0) == 0);
    assert(account_sum(recipient_account_id, s0) == 0);
    assert(account_sum(other, s0) == 0);
    assert(account_sum(sender_account_id, s1) == -amount);
    assert(account_sum(recipient_account_id, s1) == 0);
    assert(account_sum(sender_account_id, s) == -amount);
    assert(account_sum(recipient_account_id, s) == amount);
    if other != sender_account_id && other != recipient_account_id {
        assert(account_sum(other, s1) == 0);
    }
}

} // verus!
