//! The two totals of a vault as unbounded numbers, and the arithmetic that
//! converts between underlying tokens and shares.

use vstd::prelude::*;

verus! {

/// What a vault has on record: the shares outstanding and the underlying
/// tokens that back them. One share is worth `staked / minted` underlying
/// tokens.
pub struct Pool {
    /// Shares outstanding.
    pub minted: nat,
    /// Underlying tokens owed to the holders of the shares.
    pub staked: nat,
}

impl Pool {
    /// The pool of a vault that nobody has deposited into.
    pub open spec fn empty() -> Pool {
        Pool { minted: 0, staked: 0 }
    }

    /// Either nothing on both sides or something on both.
    pub open spec fn balanced(self) -> bool {
        (self.minted == 0) == (self.staked == 0)
    }

    /// Both totals can be stored in 64 bits.
    pub open spec fn fits(self) -> bool {
        self.minted <= u64::MAX && self.staked <= u64::MAX
    }

    /// Shares minted for a deposit of `amount` underlying tokens: one for one
    /// while nothing is staked, else the deposit's part of the shares
    /// outstanding, rounded down.
    pub open spec fn shares_for_deposit(self, amount: nat) -> nat {
        if self.staked == 0 {
            amount
        } else {
            amount * self.minted / self.staked
        }
    }

    /// Underlying tokens that `shares` are worth: one for one while no share
    /// is outstanding, else their part of the staked total, rounded down.
    pub open spec fn underlying_for_shares(self, shares: nat) -> nat {
        if self.minted == 0 {
            shares
        } else {
            shares * self.staked / self.minted
        }
    }

    /// The pool after a deposit of `amount` for which `shares` were minted.
    pub open spec fn stake(self, amount: nat, shares: nat) -> Pool {
        Pool { minted: self.minted + shares, staked: self.staked + amount }
    }

    /// The pool has at least `shares` outstanding and `amount` staked.
    pub open spec fn covers(self, shares: nat, amount: nat) -> bool {
        shares <= self.minted && amount <= self.staked
    }

    /// The pool after `shares` were redeemed for `amount` underlying tokens.
    /// Meant for a pool that `covers` both.
    pub open spec fn unstake(self, shares: nat, amount: nat) -> Pool {
        Pool { minted: (self.minted - shares) as nat, staked: (self.staked - amount) as nat }
    }

    /// The pool after a reward of `amount` underlying tokens: the shares
    /// stay as they are, so each is worth more.
    pub open spec fn add_reward(self, amount: nat) -> Pool {
        Pool { minted: self.minted, staked: self.staked + amount }
    }

    /// Underlying tokens that come back when `amount` is deposited and the
    /// shares minted for it are redeemed at once.
    pub open spec fn round_trip_payout(self, amount: nat) -> nat {
        let shares = self.shares_for_deposit(amount);
        self.stake(amount, shares).underlying_for_shares(shares)
    }

    /// The pool after `amount` was deposited and the shares minted for it
    /// were redeemed at once.
    pub open spec fn round_trip(self, amount: nat) -> Pool {
        let shares = self.shares_for_deposit(amount);
        self.stake(amount, shares).unstake(shares, self.round_trip_payout(amount))
    }

    /// Underlying tokens that come back in all when the round trip with
    /// `amount` is made `rounds` times in a row.
    pub open spec fn churn_payout(self, amount: nat, rounds: nat) -> nat
        decreases rounds,
    {
        if rounds == 0 {
            0
        } else {
            self.round_trip_payout(amount) + self.round_trip(amount).churn_payout(
                amount,
                (rounds - 1) as nat,
            )
        }
    }
}

/// Rounding down loses less than one unit: for a positive divisor the
/// quotient times the divisor is at most the dividend and misses it by less
/// than the divisor.
pub proof fn lemma_floor_bounds(x: nat, d: nat)
    requires
        d > 0,
    ensures
        (x / d) * d <= x,
        x < (x / d) * d + d,
        (x / d) * d == x - x % d,
{
    assert((x / d) * d == x - x % d && 0 <= x % d < d) by (nonlinear_arith)
        requires
            d > 0,
    ;
}

/// The product of two 64-bit numbers fits in 128 bits.
pub proof fn lemma_product_fits(a: u64, b: u64)
    ensures
        a * b <= u128::MAX,
{
    assert(a * b <= 0xffff_ffff_ffff_ffff * 0xffff_ffff_ffff_ffff) by (nonlinear_arith)
        requires
            a <= 0xffff_ffff_ffff_ffff,
            b <= 0xffff_ffff_ffff_ffff,
    ;
}

/// A quotient of a multiple by its factor is the other factor.
pub proof fn lemma_multiple_divides(x: nat, d: nat)
    requires
        d > 0,
    ensures
        (x * d) / d == x,
{
    vstd::arithmetic::div_mod::lemma_div_by_multiple(x as int, d as int);
}

/// A larger dividend gives no smaller quotient.
pub proof fn lemma_floor_is_monotonic(x: nat, y: nat, d: nat)
    requires
        d > 0,
        x <= y,
    ensures
        x / d <= y / d,
{
    vstd::arithmetic::div_mod::lemma_div_is_ordered(x as int, y as int, d as int);
}

/// Bootstrap symmetry: against an empty pool both conversions hand back
/// the amount they were given.
pub proof fn lemma_bootstrap_symmetry(x: nat)
    ensures
        Pool::empty().shares_for_deposit(x) == x,
        Pool::empty().underlying_for_shares(x) == x,
{
}

/// Conservation under a deposit at the present price: both totals grow by
/// exactly what was deposited and minted, the price of a share does not
/// fall, a pool at one for one stays there, a deposit that divides without
/// remainder leaves the price as it was, and a balanced pool stays balanced.
pub proof fn lemma_stake_at_rate(p: Pool, amount: nat)
    ensures
        ({
            let shares = p.shares_for_deposit(amount);
            let q = p.stake(amount, shares);
            &&& q.minted == p.minted + shares
            &&& q.staked == p.staked + amount
            &&& p.staked * q.minted <= q.staked * p.minted
            &&& (p.minted == p.staked ==> q.minted == q.staked)
            &&& (p.staked > 0 && (amount * p.minted) % p.staked == 0 ==> p.staked * q.minted
                == q.staked * p.minted)
            &&& (p.balanced() ==> q.balanced())
        }),
{
    let shares = p.shares_for_deposit(amount);
    let q = p.stake(amount, shares);
    if p.staked > 0 {
        lemma_floor_bounds(amount * p.minted, p.staked);
        let (m, s, a) = (p.minted, p.staked, amount);
        assert(shares * s <= a * m);
        assert(s * (m + shares) <= (s + a) * m) by (nonlinear_arith)
            requires
                shares * s <= a * m,
        ;
        if (a * m) % s == 0 {
            assert(s * (m + shares) == (s + a) * m) by (nonlinear_arith)
                requires
                    shares * s == a * m,
            ;
        }
        if m == s {
            lemma_multiple_divides(a, s);
        }
    } else {
        assert(p.staked * q.minted == 0) by (nonlinear_arith)
            requires
                p.staked == 0,
        ;
    }
}

/// The ledger alone: a deposit of any two amounts keeps a balanced pool
/// balanced exactly when the pool was funded or the two amounts are both
/// zero or both positive.
pub proof fn lemma_stake_keeps_balance(p: Pool, amount: nat, shares: nat)
    requires
        p.balanced(),
    ensures
        p.stake(amount, shares).balanced() <==> p.minted > 0 || (amount == 0) == (shares == 0),
{
}

/// Redeeming every share outstanding pays out everything staked, to the
/// last unit.
pub proof fn lemma_full_redemption_is_exact(p: Pool)
    requires
        p.minted > 0,
    ensures
        p.underlying_for_shares(p.minted) == p.staked,
        p.unstake(p.minted, p.staked) == Pool::empty(),
{
    assert(p.minted * p.staked == p.staked * p.minted) by (nonlinear_arith);
    lemma_multiple_divides(p.staked, p.minted);
}

/// Round trip with a reward: a first deposit into an empty pool is minted
/// one for one; after a reward, the redemption of all those shares pays the
/// deposit and the reward in full and leaves the pool empty.
pub proof fn lemma_round_trip_with_reward(amount: nat, reward: nat)
    requires
        amount > 0,
    ensures
        ({
            let shares = Pool::empty().shares_for_deposit(amount);
            let funded = Pool::empty().stake(amount, shares).add_reward(reward);
            &&& shares == amount
            &&& funded.underlying_for_shares(shares) == amount + reward
            &&& funded.unstake(shares, amount + reward) == Pool::empty()
        }),
{
    let funded = Pool::empty().stake(amount, amount).add_reward(reward);
    lemma_full_redemption_is_exact(funded);
}

/// A reward never lowers what a holding is worth: it leaves the shares
/// outstanding as they are, the price of a share does not fall, and any
/// number of shares is worth at least what it was worth before.
pub proof fn lemma_reward_never_lowers_value(p: Pool, reward: nat, shares: nat)
    ensures
        p.add_reward(reward).minted == p.minted,
        p.staked * p.add_reward(reward).minted <= p.add_reward(reward).staked * p.minted,
        p.underlying_for_shares(shares) <= p.add_reward(reward).underlying_for_shares(shares),
{
    let (m, s) = (p.minted, p.staked);
    assert(s * m <= (s + reward) * m) by (nonlinear_arith);
    if m > 0 {
        assert(shares * s <= shares * (s + reward)) by (nonlinear_arith);
        lemma_floor_is_monotonic(shares * s, shares * (s + reward), m);
    }
}

/// A reward keeps a balanced pool balanced exactly when the pool was
/// funded or the reward is zero.
pub proof fn lemma_reward_keeps_balance(p: Pool, reward: nat)
    requires
        p.balanced(),
    ensures
        p.add_reward(reward).balanced() <==> p.minted > 0 || reward == 0,
{
}

/// A redemption at the present price is covered by the pool and keeps a
/// balanced pool balanced.
pub proof fn lemma_unstake_at_rate(p: Pool, shares: nat)
    requires
        p.balanced(),
        shares <= p.minted,
    ensures
        p.covers(shares, p.underlying_for_shares(shares)),
        p.unstake(shares, p.underlying_for_shares(shares)).balanced(),
{
    let (m, s) = (p.minted, p.staked);
    if m > 0 {
        let out = p.underlying_for_shares(shares);
        lemma_floor_bounds(shares * s, m);
        assert(out * m <= shares * s);
        if shares < m {
            assert(out < s) by (nonlinear_arith)
                requires
                    out * m <= shares * s,
                    shares < m,
                    s > 0,
            ;
        } else {
            lemma_full_redemption_is_exact(p);
        }
    }
}

/// Rounding favours the pool: whoever deposits and redeems the minted
/// shares at once gets back no more than the deposit, whatever the pool
/// held before. The redemption is covered, and takes out exactly the shares
/// that the deposit put in.
pub proof fn lemma_round_trip_favors_pool(p: Pool, amount: nat)
    ensures
        p.round_trip_payout(amount) <= amount,
        p.stake(amount, p.shares_for_deposit(amount)).covers(
            p.shares_for_deposit(amount),
            p.round_trip_payout(amount),
        ),
        p.round_trip(amount).minted == p.minted,
        p.round_trip(amount).staked == p.staked + amount - p.round_trip_payout(amount),
{
    let shares = p.shares_for_deposit(amount);
    let q = p.stake(amount, shares);
    let out = p.round_trip_payout(amount);
    let (m, s, a) = (p.minted, p.staked, amount);
    if q.minted > 0 {
        if s > 0 {
            lemma_floor_bounds(a * m, s);
            assert(shares * s <= a * m);
        } else {
            assert(shares * s <= a * m) by (nonlinear_arith)
                requires
                    s == 0,
            ;
        }
        assert(shares * (s + a) <= a * (m + shares)) by (nonlinear_arith)
            requires
                shares * s <= a * m,
        ;
        lemma_floor_is_monotonic(shares * (s + a), a * (m + shares), m + shares);
        lemma_multiple_divides(a, m + shares);
    }
}

/// Rounding favours the pool however often the round trip is made: after
/// any number of rounds the depositor has got back no more than went in.
pub proof fn lemma_churn_favors_pool(p: Pool, amount: nat, rounds: nat)
    ensures
        p.churn_payout(amount, rounds) <= rounds * amount,
    decreases rounds,
{
    if rounds > 0 {
        lemma_round_trip_favors_pool(p, amount);
        lemma_churn_favors_pool(p.round_trip(amount), amount, (rounds - 1) as nat);
        assert((rounds - 1) * amount + amount == rounds * amount) by (nonlinear_arith);
    }
}

} // verus!
