use vstd::prelude::*;

use crate::errors::ErrorCode;

verus! {

// ---------------------------------------------------------------------------
// The pool of outstanding shares for one listing.
//
// Shares move between the treasury pool and individual holders when
// fractions trade, and leave a holder only by burning at redemption. The
// conservation law says the total outstanding — treasury plus every holder —
// never changes under any sequence of trades.
// ---------------------------------------------------------------------------

/// The sum of the first `n` balances of `s`.
pub open spec fn sum_prefix(s: Seq<u64>, n: int) -> int
    decreases n,
{
    if n <= 0 {
        0
    } else {
        sum_prefix(s, n - 1) + s[n - 1]
    }
}

/// The sum of all balances of `s`.
pub open spec fn sum_balances(s: Seq<u64>) -> int {
    sum_prefix(s, s.len() as int)
}

/// Changing one balance changes a prefix sum by exactly the difference, and
/// only where the prefix covers the change.
pub proof fn lemma_sum_update(s: Seq<u64>, i: int, v: u64, n: int)
    requires
        0 <= i < s.len(),
        n <= s.len(),
    ensures
        sum_prefix(s.update(i, v), n) == if i < n {
            sum_prefix(s, n) + v - s[i]
        } else {
            sum_prefix(s, n)
        },
    decreases n,
{
    if n > 0 {
        lemma_sum_update(s, i, v, n - 1);
    }
}

/// Two balance sequences that agree on a prefix have the same prefix sum.
pub proof fn lemma_sum_prefix_agree(s1: Seq<u64>, s2: Seq<u64>, n: int)
    requires
        n <= s1.len(),
        n <= s2.len(),
        forall|i: int| 0 <= i < n ==> s1[i] == s2[i],
    ensures
        sum_prefix(s1, n) == sum_prefix(s2, n),
    decreases n,
{
    if n > 0 {
        lemma_sum_prefix_agree(s1, s2, n - 1);
    }
}

/// The share pool of one listing: the treasury's balance and each holder's
/// balance, indexed by holder.
pub struct ShareLedger {
    pub treasury: u64,
    pub holders: Vec<u64>,
}

/// The pool as the conservation law sees it, over unbounded integers.
pub struct PoolModel {
    pub treasury: int,
    pub holders: Seq<int>,
}

/// The total number of shares a pool model holds.
pub open spec fn sum_prefix_int(s: Seq<int>, n: int) -> int
    decreases n,
{
    if n <= 0 {
        0
    } else {
        sum_prefix_int(s, n - 1) + s[n - 1]
    }
}

/// The total outstanding in a pool model: treasury plus every holder.
pub open spec fn pool_total(m: PoolModel) -> int {
    m.treasury + sum_prefix_int(m.holders, m.holders.len() as int)
}

/// One trade against the pool, as the conservation law sees it.
pub enum ShareTrade {
    Buy { holder: int, amount: int },
    Sell { holder: int, amount: int },
}

/// Whether the pool can honour a trade: the named holder exists and the
/// paying side covers the amount.
pub open spec fn trade_allowed(m: PoolModel, t: ShareTrade) -> bool {
    match t {
        ShareTrade::Buy { holder, amount } => 0 <= holder < m.holders.len() && 0 <= amount
            <= m.treasury,
        ShareTrade::Sell { holder, amount } => 0 <= holder < m.holders.len() && 0 <= amount
            <= m.holders[holder],
    }
}

/// The pool after a trade: an allowed trade moves `amount` between the
/// treasury and the holder, a disallowed one aborts and moves nothing.
pub open spec fn apply_trade(m: PoolModel, t: ShareTrade) -> PoolModel {
    if !trade_allowed(m, t) {
        m
    } else {
        match t {
            ShareTrade::Buy { holder, amount } => PoolModel {
                treasury: m.treasury - amount,
                holders: m.holders.update(holder, m.holders[holder] + amount),
            },
            ShareTrade::Sell { holder, amount } => PoolModel {
                treasury: m.treasury + amount,
                holders: m.holders.update(holder, m.holders[holder] - amount),
            },
        }
    }
}

/// The pool after a whole sequence of trades, applied in order.
pub open spec fn apply_trades(m: PoolModel, ts: Seq<ShareTrade>) -> PoolModel
    decreases ts.len(),
{
    if ts.len() == 0 {
        m
    } else {
        apply_trades(apply_trade(m, ts[0]), ts.subrange(1, ts.len() as int))
    }
}

/// Changing one model balance changes a prefix sum by exactly the
/// difference, and only where the prefix covers the change.
proof fn lemma_sum_update_int(s: Seq<int>, i: int, v: int, n: int)
    requires
        0 <= i < s.len(),
        n <= s.len(),
    ensures
        sum_prefix_int(s.update(i, v), n) == if i < n {
            sum_prefix_int(s, n) + v - s[i]
        } else {
            sum_prefix_int(s, n)
        },
    decreases n,
{
    if n > 0 {
        lemma_sum_update_int(s, i, v, n - 1);
    }
}

/// One trade, allowed or not, leaves the total outstanding unchanged.
pub proof fn lemma_trade_conserves_total(m: PoolModel, t: ShareTrade)
    ensures
        pool_total(apply_trade(m, t)) == pool_total(m),
{
    if trade_allowed(m, t) {
        match t {
            ShareTrade::Buy { holder, amount } => {
                lemma_sum_update_int(
                    m.holders,
                    holder,
                    m.holders[holder] + amount,
                    m.holders.len() as int,
                );
            },
            ShareTrade::Sell { holder, amount } => {
                lemma_sum_update_int(
                    m.holders,
                    holder,
                    m.holders[holder] - amount,
                    m.holders.len() as int,
                );
            },
        }
    }
}

/// Conservation: no sequence of buys and sells changes the total number of
/// shares outstanding. Shares only ever move between the treasury pool and
/// holders; trades neither create nor destroy them.
pub proof fn lemma_trades_conserve_total(m: PoolModel, ts: Seq<ShareTrade>)
    ensures
        pool_total(apply_trades(m, ts)) == pool_total(m),
    decreases ts.len(),
{
    if ts.len() > 0 {
        lemma_trade_conserves_total(m, ts[0]);
        lemma_trades_conserve_total(apply_trade(m, ts[0]), ts.subrange(1, ts.len() as int));
    }
}

impl ShareLedger {
    /// The pool as the conservation law sees it.
    pub open spec fn model(self) -> PoolModel {
        PoolModel {
            treasury: self.treasury as int,
            holders: self.holders@.map_values(|b: u64| b as int),
        }
    }

    /// The total number of shares outstanding across the treasury pool and
    /// every holder.
    pub open spec fn total(self) -> int {
        self.treasury + sum_balances(self.holders@)
    }

    /// A fresh pool: the whole minted supply sits with the treasury and
    /// every holder starts at zero.
    pub fn new(treasury: u64, holder_count: usize) -> (l: ShareLedger)
        ensures
            l.treasury == treasury,
            l.holders@.len() == holder_count,
            forall|i: int| 0 <= i < holder_count ==> l.holders@[i] == 0,
            l.total() == treasury,
    {
        let mut holders: Vec<u64> = Vec::new();
        let mut k: usize = 0;
        while k < holder_count
            invariant
                k <= holder_count,
                holders@.len() == k,
                forall|i: int| 0 <= i < k ==> holders@[i] == 0,
                sum_prefix(holders@, k as int) == 0,
            decreases holder_count - k,
        {
            let ghost prev = holders@;
            holders.push(0);
            proof {
                lemma_sum_prefix_agree(prev, holders@, k as int);
            }
            k = k + 1;
        }
        ShareLedger { treasury, holders }
    }

    /// One holder's current balance.
    pub fn holder_balance(&self, holder: usize) -> (b: u64)
        requires
            holder < self.holders@.len(),
        ensures
            b == self.holders@[holder as int],
    {
        self.holders[holder]
    }

    /// Moves `amount` shares from the treasury pool to `holder`: the share
    /// leg of a fraction buy. Fails, moving nothing, when the treasury holds
    /// too few shares or the holder's balance would leave the representable
    /// range. The total outstanding never changes.
    pub fn buy_shares(&mut self, holder: usize, amount: u64) -> (r: Result<(), ErrorCode>)
        requires
            holder < old(self).holders@.len(),
        ensures
            final(self).holders@.len() == old(self).holders@.len(),
            match r {
                Ok(()) => {
                    &&& amount <= old(self).treasury
                    &&& old(self).holders@[holder as int] + amount <= u64::MAX
                    &&& final(self).treasury == old(self).treasury - amount
                    &&& final(self).holders@ == old(self).holders@.update(
                        holder as int,
                        (old(self).holders@[holder as int] + amount) as u64,
                    )
                    &&& final(self).total() == old(self).total()
                    &&& final(self).model() == apply_trade(
                        old(self).model(),
                        ShareTrade::Buy { holder: holder as int, amount: amount as int },
                    )
                },
                Err(e) => {
                    &&& *final(self) == *old(self)
                    &&& e == ErrorCode::ArithmeticOverflow
                    &&& (amount > old(self).treasury || old(self).holders@[holder as int] + amount
                        > u64::MAX)
                },
            },
    {
        if amount > self.treasury {
            return Err(ErrorCode::ArithmeticOverflow);
        }
        let current = self.holders[holder];
        if amount > u64::MAX - current {
            return Err(ErrorCode::ArithmeticOverflow);
        }
        self.treasury = self.treasury - amount;
        self.holders.set(holder, current + amount);
        proof {
            lemma_sum_update(
                old(self).holders@,
                holder as int,
                (current + amount) as u64,
                old(self).holders@.len() as int,
            );
            assert(final(self).model().holders =~= apply_trade(
                old(self).model(),
                ShareTrade::Buy { holder: holder as int, amount: amount as int },
            ).holders);
        }
        Ok(())
    }

    /// Moves `amount` shares from `holder` back to the treasury pool: the
    /// share leg of a fraction sell. Fails, moving nothing, when the holder
    /// holds too few shares or the treasury's balance would leave the
    /// representable range. The total outstanding never changes.
    pub fn sell_shares(&mut self, holder: usize, amount: u64) -> (r: Result<(), ErrorCode>)
        requires
            holder < old(self).holders@.len(),
        ensures
            final(self).holders@.len() == old(self).holders@.len(),
            match r {
                Ok(()) => {
                    &&& amount <= old(self).holders@[holder as int]
                    &&& old(self).treasury + amount <= u64::MAX
                    &&& final(self).treasury == old(self).treasury + amount
                    &&& final(self).holders@ == old(self).holders@.update(
                        holder as int,
                        (old(self).holders@[holder as int] - amount) as u64,
                    )
                    &&& final(self).total() == old(self).total()
                    &&& final(self).model() == apply_trade(
                        old(self).model(),
                        ShareTrade::Sell { holder: holder as int, amount: amount as int },
                    )
                },
                Err(e) => {
                    &&& *final(self) == *old(self)
                    &&& e == ErrorCode::ArithmeticOverflow
                    &&& (amount > old(self).holders@[holder as int] || old(self).treasury + amount
                        > u64::MAX)
                },
            },
    {
        let current = self.holders[holder];
        if amount > current {
            return Err(ErrorCode::ArithmeticOverflow);
        }
        if amount > u64::MAX - self.treasury {
            return Err(ErrorCode::ArithmeticOverflow);
        }
        self.treasury = self.treasury + amount;
        self.holders.set(holder, current - amount);
        proof {
            lemma_sum_update(
                old(self).holders@,
                holder as int,
                (current - amount) as u64,
                old(self).holders@.len() as int,
            );
            assert(final(self).model().holders =~= apply_trade(
                old(self).model(),
                ShareTrade::Sell { holder: holder as int, amount: amount as int },
            ).holders);
        }
        Ok(())
    }

    /// Burns a holder's entire balance: the share leg of redemption. Returns
    /// the number burnt; the total outstanding drops by exactly that number,
    /// and a repeated redemption finds a zero balance.
    pub fn burn_all(&mut self, holder: usize) -> (b: u64)
        requires
            holder < old(self).holders@.len(),
        ensures
            b == old(self).holders@[holder as int],
            final(self).treasury == old(self).treasury,
            final(self).holders@ == old(self).holders@.update(holder as int, 0u64),
            final(self).total() == old(self).total() - b,
    {
        let b = self.holders[holder];
        self.holders.set(holder, 0);
        proof {
            lemma_sum_update(old(self).holders@, holder as int, 0u64, old(self).holders@.len() as int);
        }
        b
    }
}

} // verus!
