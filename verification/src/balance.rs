//! Amounts of money and the balance of the wallet, in zatoshis.

use vstd::prelude::*;
use zcash_protocol::value::Zatoshis;

verus! {

/// The largest amount of money there can be: 21 million coins of 10^8
/// zatoshis each.
pub const MAX_MONEY: u64 = 2_100_000_000_000_000;

/// Zatoshis in one coin.
pub const ZATOSHIS_PER_COIN: u64 = 100_000_000;

/// Calls `Zatoshis::from_u64` of zcash_protocol and says whether it took the
/// amount. It takes exactly the amounts from 0 up to `MAX_MONEY`.
#[verifier::external_body]
fn zatoshis_accepts(amount: u64) -> (accepted: bool)
    ensures
        accepted == (amount <= MAX_MONEY),
{
    Zatoshis::from_u64(amount).is_ok()
}

/// Subtracts two amounts with the `Sub` of zcash_protocol's `Zatoshis`, which
/// gives the difference, or nothing where it would be below zero. Both
/// amounts must be valid: the conversion panics on any other.
#[verifier::external_body]
fn zatoshis_sub(amount: u64, less: u64) -> (rest: Option<u64>)
    requires
        amount <= MAX_MONEY,
        less <= MAX_MONEY,
    ensures
        rest == if amount >= less {
            Some((amount - less) as u64)
        } else {
            None
        },
{
    (Zatoshis::const_from_u64(amount) - Zatoshis::const_from_u64(less)).map(Zatoshis::into_u64)
}

/// Whether `amount` is a valid amount of money: at most `MAX_MONEY`.
pub fn is_valid_amount(amount: u64) -> (valid: bool)
    ensures
        valid == (amount <= MAX_MONEY),
{
    zatoshis_accepts(amount)
}

/// `amount - less` where both are valid amounts and the difference is not
/// negative; `None` otherwise.
pub fn checked_difference(amount: u64, less: u64) -> (rest: Option<u64>)
    ensures
        rest == if less <= amount <= MAX_MONEY {
            Some((amount - less) as u64)
        } else {
            None
        },
{
    if zatoshis_accepts(amount) && zatoshis_accepts(less) {
        zatoshis_sub(amount, less)
    } else {
        None
    }
}

/// What a `WalletBalance` holds, as plain values.
pub struct BalanceView {
    pub transparent: u64,
    pub sapling: u64,
    pub orchard: u64,
}

impl BalanceView {
    /// The sum of the three pools.
    pub open spec fn total(self) -> int {
        self.transparent + self.sapling + self.orchard
    }

    /// Every pool holds a valid amount.
    pub open spec fn valid(self) -> bool {
        &&& self.transparent <= MAX_MONEY
        &&& self.sapling <= MAX_MONEY
        &&& self.orchard <= MAX_MONEY
    }
}

/// The funds of the wallet, by pool. Each pool holds a valid amount, so the
/// total cannot overflow and is never below any one pool.
#[derive(Clone, Copy, Debug)]
pub struct WalletBalance {
    transparent: u64,
    sapling: u64,
    orchard: u64,
}

impl View for WalletBalance {
    type V = BalanceView;

    closed spec fn view(&self) -> BalanceView {
        BalanceView {
            transparent: self.transparent,
            sapling: self.sapling,
            orchard: self.orchard,
        }
    }
}

impl WalletBalance {
    #[verifier::type_invariant]
    spec fn in_range(self) -> bool {
        &&& self.transparent <= MAX_MONEY
        &&& self.sapling <= MAX_MONEY
        &&& self.orchard <= MAX_MONEY
    }

    /// A balance with these amounts, or `None` if one of them is more than
    /// `MAX_MONEY`.
    pub fn new(transparent: u64, sapling: u64, orchard: u64) -> (balance: Option<Self>)
        ensures
            balance is Some <==> (BalanceView { transparent, sapling, orchard }).valid(),
            balance matches Some(b) ==> b@ == (BalanceView { transparent, sapling, orchard }),
    {
        if zatoshis_accepts(transparent) && zatoshis_accepts(sapling) && zatoshis_accepts(orchard) {
            Some(WalletBalance { transparent, sapling, orchard })
        } else {
            None
        }
    }

    /// The balance of an empty wallet.
    pub fn zero() -> (balance: Self)
        ensures
            balance@ == (BalanceView { transparent: 0, sapling: 0, orchard: 0 }),
    {
        WalletBalance { transparent: 0, sapling: 0, orchard: 0 }
    }

    pub fn transparent(&self) -> (amount: u64)
        ensures
            amount == self@.transparent,
            self@.valid(),
    {
        proof {
            use_type_invariant(self);
        }
        self.transparent
    }

    pub fn sapling(&self) -> (amount: u64)
        ensures
            amount == self@.sapling,
            self@.valid(),
    {
        proof {
            use_type_invariant(self);
        }
        self.sapling
    }

    pub fn orchard(&self) -> (amount: u64)
        ensures
            amount == self@.orchard,
            self@.valid(),
    {
        proof {
            use_type_invariant(self);
        }
        self.orchard
    }

    /// The sum of the three pools; never below any one of them.
    pub fn total(&self) -> (sum: u64)
        ensures
            sum == self@.total(),
            sum >= self@.transparent,
            sum >= self@.sapling,
            sum >= self@.orchard,
    {
        proof {
            use_type_invariant(self);
        }
        self.transparent + self.sapling + self.orchard
    }

    /// Whether the wallet holds nothing at all.
    pub fn is_empty(&self) -> (empty: bool)
        ensures
            empty == (self@.total() == 0),
    {
        self.transparent == 0 && self.sapling == 0 && self.orchard == 0
    }
}

} // verus!
