//! The scholarship treasury: donors deposit tokens, every donor's total is
//! remembered, and only governance pays scholarships out of the pool.
use vstd::prelude::*;

use crate::table::Table;
use crate::{outcome, outcome_with, AccountId};

verus! {

#[derive(Clone, Copy, Debug, PartialEq, Eq, Structural)]
pub enum Error {
    AlreadyInitialized,
    NotInitialized,
    Unauthorized,
    InvalidAmount,
    InsufficientFunds,
}

/// The accounts a treasury is set up with: its admin, the token it holds and
/// the governance account that decides payouts.
#[derive(Clone, Copy, Debug, PartialEq, Eq, Structural)]
pub struct TreasuryConfig {
    pub admin: AccountId,
    pub token: AccountId,
    pub governance: AccountId,
}

/// The token movement that an accepted call asks the token contract to make.
#[derive(Clone, Copy, Debug, PartialEq, Eq, Structural)]
pub enum TokenMovement {
    /// `amount` of `token` moves from the donor `from` into the treasury.
    Collect { token: AccountId, from: AccountId, amount: i128 },
    /// `amount` of `token` moves from the treasury to the recipient `to`.
    Pay { token: AccountId, to: AccountId, amount: i128 },
}

#[verifier::ext_equal]
pub struct TreasuryModel {
    pub config: Option<TreasuryConfig>,
    /// Tokens held by the treasury.
    pub balance: i128,
    /// What each donor has deposited in all.
    pub donor_totals: Map<AccountId, i128>,
}

impl TreasuryModel {
    pub open spec fn donor_total(self, donor: AccountId) -> i128 {
        if self.donor_totals.contains_key(donor) {
            self.donor_totals[donor]
        } else {
            0
        }
    }

    pub open spec fn initialize(self, admin: AccountId, token: AccountId, governance: AccountId) -> Result<
        Self,
        Error,
    > {
        if self.config is Some {
            Err(Error::AlreadyInitialized)
        } else {
            Ok(TreasuryModel { config: Some(TreasuryConfig { admin, token, governance }), ..self })
        }
    }

    /// A deposit whose sums fit in the token's amount type.
    pub open spec fn deposit_fits(self, donor: AccountId, amount: i128) -> bool {
        amount > 0 ==> self.balance + amount <= i128::MAX && self.donor_total(donor) + amount
            <= i128::MAX
    }

    /// `donor` adds `amount` tokens to the pool; the tokens are collected
    /// from the donor.
    pub open spec fn deposit(self, donor: AccountId, amount: i128) -> Result<
        (Self, TokenMovement),
        Error,
    > {
        match self.config {
            None => Err(Error::NotInitialized),
            Some(config) => if amount <= 0 {
                Err(Error::InvalidAmount)
            } else {
                Ok(
                    (
                        TreasuryModel {
                            balance: (self.balance + amount) as i128,
                            donor_totals: self.donor_totals.insert(
                                donor,
                                (self.donor_total(donor) + amount) as i128,
                            ),
                            ..self
                        },
                        TokenMovement::Collect { token: config.token, from: donor, amount },
                    ),
                )
            },
        }
    }

    /// Governance pays `amount` out of the pool to `recipient`.
    pub open spec fn disburse(self, caller: AccountId, recipient: AccountId, amount: i128) -> Result<
        (Self, TokenMovement),
        Error,
    > {
        match self.config {
            None => Err(Error::NotInitialized),
            Some(config) => {
                if caller != config.governance {
                    Err(Error::Unauthorized)
                } else if amount <= 0 {
                    Err(Error::InvalidAmount)
                } else if amount > self.balance {
                    Err(Error::InsufficientFunds)
                } else {
                    Ok(
                        (
                            TreasuryModel { balance: (self.balance - amount) as i128, ..self },
                            TokenMovement::Pay { token: config.token, to: recipient, amount },
                        ),
                    )
                }
            },
        }
    }
}

pub struct ScholarshipTreasury {
    config: Option<TreasuryConfig>,
    balance: i128,
    donor_totals: Table<AccountId, i128>,
}

impl View for ScholarshipTreasury {
    type V = TreasuryModel;

    closed spec fn view(&self) -> TreasuryModel {
        TreasuryModel {
            config: self.config,
            balance: self.balance,
            donor_totals: self.donor_totals@,
        }
    }
}

impl ScholarshipTreasury {
    /// An uninitialized treasury with an empty pool.
    pub fn new() -> (t: Self)
        ensures
            t@.config is None,
            t@.balance == 0,
            t@.donor_totals == Map::<AccountId, i128>::empty(),
    {
        ScholarshipTreasury { config: None, balance: 0, donor_totals: Table::new() }
    }

    pub fn initialize(&mut self, admin: AccountId, token: AccountId, governance: AccountId) -> (r:
        Result<(), Error>)
        ensures
            outcome(old(self)@.initialize(admin, token, governance), old(self)@, final(self)@, r),
    {
        if self.config.is_some() {
            return Err(Error::AlreadyInitialized);
        }
        self.config = Some(TreasuryConfig { admin, token, governance });
        assert(self@ =~= old(self)@.initialize(admin, token, governance).unwrap());
        Ok(())
    }

    pub fn config(&self) -> (r: Option<TreasuryConfig>)
        ensures
            r == self@.config,
    {
        self.config
    }

    pub fn get_balance(&self) -> (r: i128)
        ensures
            r == self@.balance,
    {
        self.balance
    }

    pub fn get_donor_total(&self, donor: AccountId) -> (r: i128)
        ensures
            r == self@.donor_total(donor),
    {
        match self.donor_totals.get(&donor) {
            Some(total) => *total,
            None => 0,
        }
    }

    /// Records the deposit and returns the collection of the donor's tokens
    /// that the token contract is to make.
    pub fn deposit(&mut self, donor: AccountId, amount: i128) -> (r: Result<TokenMovement, Error>)
        requires
            old(self)@.deposit_fits(donor, amount),
        ensures
            outcome_with(old(self)@.deposit(donor, amount), old(self)@, final(self)@, r),
    {
        let token = match self.config {
            None => {
                return Err(Error::NotInitialized);
            },
            Some(config) => config.token,
        };
        if amount <= 0 {
            return Err(Error::InvalidAmount);
        }
        let total = self.get_donor_total(donor);
        self.balance = self.balance + amount;
        self.donor_totals.insert(donor, total + amount);
        assert(self@ =~= old(self)@.deposit(donor, amount).unwrap().0);
        Ok(TokenMovement::Collect { token, from: donor, amount })
    }

    /// Records the payout and returns the payment to `recipient` that the
    /// token contract is to make.
    pub fn disburse(&mut self, caller: AccountId, recipient: AccountId, amount: i128) -> (r: Result<
        TokenMovement,
        Error,
    >)
        ensures
            outcome_with(
                old(self)@.disburse(caller, recipient, amount),
                old(self)@,
                final(self)@,
                r,
            ),
    {
        let token = match self.config {
            None => {
                return Err(Error::NotInitialized);
            },
            Some(config) => {
                if caller != config.governance {
                    return Err(Error::Unauthorized);
                }
                config.token
            },
        };
        if amount <= 0 {
            return Err(Error::InvalidAmount);
        }
        if amount > self.balance {
            return Err(Error::InsufficientFunds);
        }
        self.balance = self.balance - amount;
        assert(self@ =~= old(self)@.disburse(caller, recipient, amount).unwrap().0);
        Ok(TokenMovement::Pay { token, to: recipient, amount })
    }
}

/// Every accepted deposit is added to the donor's running total and to the
/// pool; two deposits by one donor add up.
pub proof fn law_deposits_accumulate(s: TreasuryModel, donor: AccountId, a: i128, b: i128)
    requires
        s.deposit_fits(donor, a),
        s.deposit(donor, a) is Ok,
        s.deposit(donor, a).unwrap().0.deposit_fits(donor, b),
        s.deposit(donor, a).unwrap().0.deposit(donor, b) is Ok,
    ensures
        ({
            let t = s.deposit(donor, a).unwrap().0.deposit(donor, b).unwrap().0;
            &&& t.donor_total(donor) == s.donor_total(donor) + a + b
            &&& t.balance == s.balance + a + b
        }),
{
}

/// A deposit by one donor leaves every other donor's total unchanged.
pub proof fn law_deposit_is_per_donor(
    s: TreasuryModel,
    donor: AccountId,
    amount: i128,
    other: AccountId,
)
    requires
        s.deposit(donor, amount) is Ok,
        other != donor,
    ensures
        s.deposit(donor, amount).unwrap().0.donor_total(other) == s.donor_total(other),
{
}

/// Only governance can pay out: anyone else is refused and nothing changes.
pub proof fn law_only_governance_disburses(
    s: TreasuryModel,
    caller: AccountId,
    recipient: AccountId,
    amount: i128,
)
    requires
        s.config matches Some(c) && c.governance != caller,
    ensures
        s.disburse(caller, recipient, amount) == Err::<(TreasuryModel, TokenMovement), Error>(
            Error::Unauthorized,
        ),
{
}

/// Governance asking for more than the pool holds is refused with
/// `InsufficientFunds`.
pub proof fn law_disburse_beyond_balance(s: TreasuryModel, recipient: AccountId, amount: i128)
    requires
        s.config is Some,
        amount > s.balance,
        amount > 0,
    ensures
        s.disburse(s.config.unwrap().governance, recipient, amount) == Err::<
            (TreasuryModel, TokenMovement),
            Error,
        >(Error::InsufficientFunds),
{
}

/// The pool never goes negative: deposits only add and payouts never exceed
/// what is held.
pub proof fn law_balance_stays_nonnegative(
    s: TreasuryModel,
    caller: AccountId,
    donor: AccountId,
    recipient: AccountId,
    amount: i128,
)
    requires
        s.balance >= 0,
        s.deposit_fits(donor, amount),
    ensures
        s.deposit(donor, amount) matches Ok((t, _)) ==> t.balance >= 0,
        s.disburse(caller, recipient, amount) matches Ok((t, _)) ==> t.balance >= 0 && t.balance
            == s.balance - amount,
{
}

/// Every accepted deposit collects exactly the deposited amount of the
/// treasury's token from the donor, and every accepted payout pays exactly the
/// amount to the recipient.
pub proof fn law_token_movements(
    s: TreasuryModel,
    caller: AccountId,
    donor: AccountId,
    recipient: AccountId,
    amount: i128,
)
    requires
        s.config is Some,
    ensures
        s.deposit(donor, amount) matches Ok((_, m)) ==> (m == (TokenMovement::Collect {
            token: s.config.unwrap().token,
            from: donor,
            amount,
        })),
        s.disburse(caller, recipient, amount) matches Ok((_, m)) ==> (m == (TokenMovement::Pay {
            token: s.config.unwrap().token,
            to: recipient,
            amount,
        })),
{
}

/// When each call succeeds: a first initialization; a positive deposit into an
/// initialized treasury; a payout by governance of a positive amount the pool
/// holds.
pub proof fn law_treasury_success(
    s: TreasuryModel,
    caller: AccountId,
    donor: AccountId,
    recipient: AccountId,
    amount: i128,
    token: AccountId,
)
    ensures
        s.initialize(caller, token, recipient) is Ok <==> s.config is None,
        s.deposit(donor, amount) is Ok <==> (s.config is Some && amount > 0),
        s.disburse(caller, recipient, amount) is Ok <==> (s.config matches Some(c)
            && c.governance == caller && 0 < amount <= s.balance),
{
}

} // verus!
