use vstd::prelude::*;

use crate::error::AccountError;

verus! {

/// One entry of an account: a credit (positive amount) or a debit
/// (negative amount), labelled by an opaque identifier.
pub struct Transaction {
    pub id: String,
    pub amount: i64,
}

/// A ledger: an opaque identifier and the transactions it owns, in order.
pub struct Account {
    pub id: String,
    pub transactions: Vec<Transaction>,
}

/// The sum of the amounts of `txs`, as a mathematical integer.
pub open spec fn sum_amounts(txs: Seq<Transaction>) -> int
    decreases txs.len(),
{
    if txs.len() == 0 {
        0
    } else {
        sum_amounts(txs.drop_last()) + txs.last().amount
    }
}

/// Each amount lies in `i64`, so a sum of `n` amounts lies within `n` times
/// the bounds of `i64`.
proof fn lemma_sum_bounds(txs: Seq<Transaction>)
    ensures
        txs.len() * i64::MIN <= sum_amounts(txs) <= txs.len() * i64::MAX,
    decreases txs.len(),
{
    if txs.len() > 0 {
        lemma_sum_bounds(txs.drop_last());
        let n = txs.len() as int;
        assert((n - 1) * i64::MIN + i64::MIN == n * i64::MIN) by (nonlinear_arith);
        assert((n - 1) * i64::MAX + i64::MAX == n * i64::MAX) by (nonlinear_arith);
    }
}

/// The sum over a concatenation is the sum of the sums of its parts.
proof fn lemma_sum_append(a: Seq<Transaction>, b: Seq<Transaction>)
    ensures
        sum_amounts(a + b) == sum_amounts(a) + sum_amounts(b),
    decreases b.len(),
{
    if b.len() == 0 {
        assert(a + b =~= a);
    } else {
        assert((a + b).drop_last() =~= a + b.drop_last());
        lemma_sum_append(a, b.drop_last());
    }
}

/// Taking out the transaction at `j` takes its amount out of the sum.
proof fn lemma_sum_remove(txs: Seq<Transaction>, j: int)
    requires
        0 <= j < txs.len(),
    ensures
        sum_amounts(txs) == sum_amounts(txs.remove(j)) + txs[j].amount,
{
    let front = txs.subrange(0, j);
    let back = txs.subrange(j + 1, txs.len() as int);
    assert(txs =~= front + seq![txs[j]] + back);
    assert(txs.remove(j) =~= front + back);
    lemma_sum_append(front + seq![txs[j]], back);
    lemma_sum_append(front, seq![txs[j]]);
    lemma_sum_append(front, back);
    let single = seq![txs[j]];
    assert(single.drop_last() =~= Seq::<Transaction>::empty());
    assert(sum_amounts(single) == sum_amounts(single.drop_last()) + txs[j].amount);
}

/// Order independence: two transaction lists that hold the same
/// transactions, each as often, in any order, have the same sum.
pub proof fn lemma_sum_permutation(a: Seq<Transaction>, b: Seq<Transaction>)
    requires
        a.to_multiset() =~= b.to_multiset(),
    ensures
        sum_amounts(a) == sum_amounts(b),
    decreases a.len(),
{
    broadcast use vstd::seq_lib::group_to_multiset_ensures;

    if a.len() == 0 {
        assert(b.to_multiset().len() == 0);
        assert(b.len() == 0);
    } else {
        let x = a.last();
        let rest = a.drop_last();
        assert(a =~= rest.push(x));
        assert(a.to_multiset() =~= rest.to_multiset().insert(x));
        assert(a.to_multiset().count(x) > 0);
        assert(b.contains(x));
        let j = b.index_of(x);
        assert(b.remove(j).to_multiset() =~= b.to_multiset().remove(x));
        assert(rest.to_multiset() =~= a.to_multiset().remove(x));
        lemma_sum_permutation(rest, b.remove(j));
        lemma_sum_remove(b, j);
    }
}

/// Order independence for accounts: reordering an account's transactions
/// does not change its balance.
pub proof fn lemma_balance_order_independent(a: &Account, b: &Account)
    requires
        a.transactions@.to_multiset() =~= b.transactions@.to_multiset(),
    ensures
        a.sum() == b.sum(),
{
    lemma_sum_permutation(a.transactions@, b.transactions@);
}

/// An account without transactions has balance zero.
pub proof fn lemma_empty_account_sum(a: &Account)
    requires
        a.transactions@.len() == 0,
    ensures
        a.sum() == 0,
{
}

impl Transaction {
    pub fn new(id: String, amount: i64) -> (r: Transaction)
        ensures
            r.id == id,
            r.amount == amount,
    {
        Transaction { id, amount }
    }
}

impl Account {
    pub fn new(id: String, transactions: Vec<Transaction>) -> (r: Account)
        ensures
            r.id == id,
            r.transactions == transactions,
    {
        Account { id, transactions }
    }

    /// The exact sum of this account's transaction amounts.
    pub open spec fn sum(&self) -> int {
        sum_amounts(self.transactions@)
    }

    /// The exact sum of the amounts; with at most `usize::MAX` amounts of
    /// `i64`, it always lies within `i128`.
    fn sum_wide(&self) -> (r: i128)
        ensures
            r == self.sum(),
    {
        let txs = &self.transactions;
        let mut acc: i128 = 0;
        let mut i: usize = 0;
        while i < txs.len()
            invariant
                i <= txs@.len(),
                acc == sum_amounts(txs@.subrange(0, i as int)),
            decreases txs@.len() - i,
        {
            proof {
                let prefix = txs@.subrange(0, i as int + 1);
                assert(prefix.drop_last() =~= txs@.subrange(0, i as int));
                lemma_sum_bounds(prefix);
                let n = prefix.len() as int;
                assert(n <= usize::MAX);
                assert(n * i64::MIN >= i128::MIN && n * i64::MAX <= i128::MAX) by (nonlinear_arith)
                    requires
                        0 <= n <= 0xffff_ffff_ffff_ffff,
                ;
            }
            acc = acc + txs[i].amount as i128;
            i = i + 1;
        }
        assert(txs@.subrange(0, i as int) =~= txs@);
        acc
    }

    /// The sum of all transaction amounts, negative or not.
    pub fn total(&self) -> (r: i64)
        requires
            i64::MIN <= self.sum() <= i64::MAX,
        ensures
            r == self.sum(),
    {
        self.sum_wide() as i64
    }

    /// The sum of all transaction amounts, or `None` when it does not fit
    /// in `i64`.
    pub fn checked_total(&self) -> (r: Option<i64>)
        ensures
            r == (if i64::MIN <= self.sum() <= i64::MAX {
                Some(self.sum() as i64)
            } else {
                None::<i64>
            }),
    {
        let wide = self.sum_wide();
        if i64::MIN as i128 <= wide && wide <= i64::MAX as i128 {
            Some(wide as i64)
        } else {
            None
        }
    }

    /// The balance, refused when it is negative: the sum of all transaction
    /// amounts if that is at least zero, else `NegativeBalance` carrying it.
    pub fn balance(&self) -> (r: Result<i64, AccountError>)
        requires
            i64::MIN <= self.sum() <= i64::MAX,
        ensures
            self.sum() >= 0 ==> r == Ok::<i64, AccountError>(self.sum() as i64),
            self.sum() < 0 ==> r == Err::<i64, AccountError>(AccountError::NegativeBalance(self.sum() as i64)),
    {
        let balance = self.total();
        if balance < 0 {
            return Err(AccountError::NegativeBalance(balance));
        }
        Ok(balance)
    }
}

} // verus!
