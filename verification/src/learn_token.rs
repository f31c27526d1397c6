//! The LRN reward token: an admin-minted fungible token with balances per
//! account.
use vstd::prelude::*;

use crate::table::Table;
use crate::{outcome, AccountId};

verus! {

#[derive(Clone, Copy, Debug, PartialEq, Eq, Structural)]
pub enum TokenError {
    AlreadyInitialized,
    NotInitialized,
    Unauthorized,
    NegativeAmount,
    InsufficientBalance,
    Overflow,
}

/// What a token ledger holds: its admin, once initialized, and the balance
/// of every account that has ever held tokens.
#[verifier::ext_equal]
pub struct LearnTokenModel {
    pub admin: Option<AccountId>,
    pub balances: Map<AccountId, i128>,
}

impl LearnTokenModel {
    /// The balance of `id`; an account never credited holds nothing.
    pub open spec fn balance(self, id: AccountId) -> i128 {
        if self.balances.contains_key(id) {
            self.balances[id]
        } else {
            0
        }
    }

    pub open spec fn with_balance(self, id: AccountId, amount: i128) -> Self {
        LearnTokenModel { balances: self.balances.insert(id, amount), ..self }
    }

    pub open spec fn initialize(self, admin: AccountId) -> Result<Self, TokenError> {
        if self.admin is Some {
            Err(TokenError::AlreadyInitialized)
        } else {
            Ok(LearnTokenModel { admin: Some(admin), ..self })
        }
    }

    /// The admin credits `amount` new tokens to `to`.
    pub open spec fn mint(self, caller: AccountId, to: AccountId, amount: i128) -> Result<
        Self,
        TokenError,
    > {
        match self.admin {
            None => Err(TokenError::NotInitialized),
            Some(admin) => {
                if caller != admin {
                    Err(TokenError::Unauthorized)
                } else if amount < 0 {
                    Err(TokenError::NegativeAmount)
                } else if self.balance(to) + amount > i128::MAX {
                    Err(TokenError::Overflow)
                } else {
                    Ok(self.with_balance(to, (self.balance(to) + amount) as i128))
                }
            },
        }
    }

    /// `from` moves `amount` of its tokens to `to`.
    pub open spec fn transfer(self, from: AccountId, to: AccountId, amount: i128) -> Result<
        Self,
        TokenError,
    > {
        if amount < 0 {
            Err(TokenError::NegativeAmount)
        } else if self.balance(from) < amount {
            Err(TokenError::InsufficientBalance)
        } else {
            let debited = self.with_balance(from, (self.balance(from) - amount) as i128);
            if debited.balance(to) + amount > i128::MAX {
                Err(TokenError::Overflow)
            } else {
                Ok(debited.with_balance(to, (debited.balance(to) + amount) as i128))
            }
        }
    }

    /// No account holds a negative balance.
    pub open spec fn balances_nonnegative(self) -> bool {
        forall|id: AccountId| #[trigger] self.balances.contains_key(id) ==> self.balances[id] >= 0
    }
}

pub struct LearnToken {
    admin: Option<AccountId>,
    balances: Table<AccountId, i128>,
}

impl View for LearnToken {
    type V = LearnTokenModel;

    closed spec fn view(&self) -> LearnTokenModel {
        LearnTokenModel { admin: self.admin, balances: self.balances@ }
    }
}

impl LearnToken {
    /// A ledger that has not been initialized and holds no balances.
    pub fn new() -> (t: Self)
        ensures
            t@.admin is None,
            t@.balances == Map::<AccountId, i128>::empty(),
    {
        LearnToken { admin: None, balances: Table::new() }
    }

    pub fn initialize(&mut self, admin: AccountId) -> (r: Result<(), TokenError>)
        ensures
            outcome(old(self)@.initialize(admin), old(self)@, final(self)@, r),
    {
        if self.admin.is_some() {
            return Err(TokenError::AlreadyInitialized);
        }
        self.admin = Some(admin);
        assert(self@ =~= old(self)@.initialize(admin).unwrap());
        Ok(())
    }

    pub fn admin(&self) -> (r: Option<AccountId>)
        ensures
            r == self@.admin,
    {
        self.admin
    }

    pub fn balance(&self, id: AccountId) -> (r: i128)
        ensures
            r == self@.balance(id),
    {
        match self.balances.get(&id) {
            Some(b) => *b,
            None => 0,
        }
    }

    pub fn mint(&mut self, caller: AccountId, to: AccountId, amount: i128) -> (r: Result<
        (),
        TokenError,
    >)
        ensures
            outcome(old(self)@.mint(caller, to, amount), old(self)@, final(self)@, r),
    {
        match self.admin {
            None => {
                return Err(TokenError::NotInitialized);
            },
            Some(admin) => {
                if caller != admin {
                    return Err(TokenError::Unauthorized);
                }
            },
        }
        if amount < 0 {
            return Err(TokenError::NegativeAmount);
        }
        let current = self.balance(to);
        match current.checked_add(amount) {
            None => Err(TokenError::Overflow),
            Some(updated) => {
                self.balances.insert(to, updated);
                assert(self@ =~= old(self)@.mint(caller, to, amount).unwrap());
                Ok(())
            },
        }
    }

    pub fn transfer(&mut self, from: AccountId, to: AccountId, amount: i128) -> (r: Result<
        (),
        TokenError,
    >)
        ensures
            outcome(old(self)@.transfer(from, to, amount), old(self)@, final(self)@, r),
    {
        if amount < 0 {
            return Err(TokenError::NegativeAmount);
        }
        let from_balance = self.balance(from);
        if from_balance < amount {
            return Err(TokenError::InsufficientBalance);
        }
        let debited = from_balance - amount;
        let to_before = if from == to {
            debited
        } else {
            self.balance(to)
        };
        match to_before.checked_add(amount) {
            None => Err(TokenError::Overflow),
            Some(credited) => {
                self.balances.insert(from, debited);
                self.balances.insert(to, credited);
                assert(self@ =~= old(self)@.transfer(from, to, amount).unwrap());
                Ok(())
            },
        }
    }
}

/// Minting credits exactly the minted amount to the recipient and leaves every
/// other balance as it was.
pub proof fn law_mint_credits_recipient(
    s: LearnTokenModel,
    caller: AccountId,
    to: AccountId,
    amount: i128,
    other: AccountId,
)
    requires
        s.mint(caller, to, amount) is Ok,
    ensures
        s.mint(caller, to, amount).unwrap().balance(to) == s.balance(to) + amount,
        other != to ==> s.mint(caller, to, amount).unwrap().balance(other) == s.balance(other),
{
}

/// A transfer between two accounts keeps the sum of their balances and leaves
/// every third account as it was.
pub proof fn law_transfer_conserves(
    s: LearnTokenModel,
    from: AccountId,
    to: AccountId,
    amount: i128,
    other: AccountId,
)
    requires
        s.transfer(from, to, amount) is Ok,
    ensures
        ({
            let t = s.transfer(from, to, amount).unwrap();
            &&& t.balance(from) + t.balance(to) == s.balance(from) + s.balance(to)
            &&& from != to ==> t.balance(to) == s.balance(to) + amount
            &&& from != to ==> t.balance(from) == s.balance(from) - amount
            &&& other != from && other != to ==> t.balance(other) == s.balance(other)
        }),
{
}

/// No successful mint or transfer makes a balance negative.
pub proof fn law_balances_stay_nonnegative(
    s: LearnTokenModel,
    caller: AccountId,
    from: AccountId,
    to: AccountId,
    amount: i128,
)
    requires
        s.balances_nonnegative(),
    ensures
        s.mint(caller, to, amount) matches Ok(t) ==> t.balances_nonnegative(),
        s.transfer(from, to, amount) matches Ok(t) ==> t.balances_nonnegative(),
{
}

/// When each call succeeds: a first initialization; a mint by the admin of a
/// non-negative amount that the recipient's balance can hold; a transfer of a
/// non-negative amount the sender holds, which the receiver's balance can hold.
pub proof fn law_token_success(
    s: LearnTokenModel,
    caller: AccountId,
    from: AccountId,
    to: AccountId,
    amount: i128,
)
    ensures
        s.initialize(caller) is Ok <==> s.admin is None,
        s.mint(caller, to, amount) is Ok <==> (s.admin == Some(caller) && amount >= 0
            && s.balance(to) + amount <= i128::MAX),
        from != to ==> (s.transfer(from, to, amount) is Ok <==> (amount >= 0 && s.balance(from)
            >= amount && s.balance(to) + amount <= i128::MAX)),
        from == to ==> (s.transfer(from, to, amount) is Ok <==> (amount >= 0 && s.balance(from)
            >= amount)),
        from == to ==> (s.transfer(from, to, amount) matches Ok(t) ==> t.balance(from)
            == s.balance(from)),
{
}

} // verus!
