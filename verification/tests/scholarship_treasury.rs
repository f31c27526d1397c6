use scholar_contracts::learn_token::LearnToken;
use scholar_contracts::scholarship_treasury::{Error, ScholarshipTreasury, TokenMovement};
use scholar_contracts::AccountId;

const ADMIN: AccountId = 1;
const GOVERNANCE: AccountId = 2;
const DONOR: AccountId = 3;
const RECIPIENT: AccountId = 4;
const TOKEN: AccountId = 50;
const TREASURY: AccountId = 60;

/// A treasury together with the token it holds: the donor owns 1000.
struct World {
    client: ScholarshipTreasury,
    token: LearnToken,
}

impl World {
    /// What the host does with a movement the treasury asks for.
    fn perform(&mut self, movement: TokenMovement) {
        match movement {
            TokenMovement::Collect { token, from, amount } => {
                assert_eq!(token, TOKEN);
                self.token.transfer(from, TREASURY, amount).unwrap();
            }
            TokenMovement::Pay { token, to, amount } => {
                assert_eq!(token, TOKEN);
                self.token.transfer(TREASURY, to, amount).unwrap();
            }
        }
    }

    fn deposit(&mut self, donor: AccountId, amount: i128) -> Result<(), Error> {
        let movement = self.client.deposit(donor, amount)?;
        self.perform(movement);
        Ok(())
    }

    fn disburse(&mut self, caller: AccountId, recipient: AccountId, amount: i128) -> Result<(), Error> {
        let movement = self.client.disburse(caller, recipient, amount)?;
        self.perform(movement);
        Ok(())
    }
}

fn setup() -> World {
    let mut token = LearnToken::new();
    token.initialize(ADMIN).unwrap();
    token.mint(ADMIN, DONOR, 1_000).unwrap();
    let mut client = ScholarshipTreasury::new();
    client.initialize(ADMIN, TOKEN, GOVERNANCE).unwrap();
    World { client, token }
}

#[test]
fn deposits_are_tracked_per_donor() {
    let mut w = setup();

    w.deposit(DONOR, 150).unwrap();
    w.deposit(DONOR, 50).unwrap();

    assert_eq!(w.client.get_donor_total(DONOR), 200);
    assert_eq!(w.client.get_balance(), 200);
    assert_eq!(w.token.balance(TREASURY), 200);
    assert_eq!(w.token.balance(DONOR), 800);
}

#[test]
fn unauthorized_disburse_is_rejected() {
    let mut w = setup();
    w.deposit(DONOR, 250).unwrap();

    let attacker = 77;
    let unauthorized = w.disburse(attacker, RECIPIENT, 100);
    assert!(unauthorized.is_err());

    w.disburse(GOVERNANCE, RECIPIENT, 100).unwrap();

    assert_eq!(w.client.get_balance(), 150);
    assert_eq!(w.token.balance(RECIPIENT), 100);
    assert_eq!(w.token.balance(TREASURY), 150);
}

#[test]
fn disburse_more_than_balance_fails() {
    let mut w = setup();
    w.deposit(DONOR, 10).unwrap();

    let result = w.disburse(GOVERNANCE, RECIPIENT, 20);
    assert_eq!(result.err(), Some(Error::InsufficientFunds));
}

#[test]
fn deposit_before_initialize_is_refused() {
    let mut t = ScholarshipTreasury::new();
    assert_eq!(t.deposit(DONOR, 5), Err(Error::NotInitialized));
    assert_eq!(t.disburse(GOVERNANCE, RECIPIENT, 5), Err(Error::NotInitialized));
    assert_eq!(t.get_balance(), 0);
}

#[test]
fn non_positive_amounts_are_refused() {
    let mut w = setup();
    assert_eq!(w.client.deposit(DONOR, 0), Err(Error::InvalidAmount));
    assert_eq!(w.client.deposit(DONOR, -5), Err(Error::InvalidAmount));
    w.deposit(DONOR, 30).unwrap();
    assert_eq!(w.client.disburse(GOVERNANCE, RECIPIENT, 0), Err(Error::InvalidAmount));
    assert_eq!(w.client.get_balance(), 30);
}

#[test]
fn attacker_is_refused_with_unauthorized() {
    let mut w = setup();
    w.deposit(DONOR, 40).unwrap();
    assert_eq!(w.client.disburse(ADMIN, RECIPIENT, 10), Err(Error::Unauthorized));
    assert_eq!(w.client.get_balance(), 40);
}

#[test]
fn donor_totals_are_separate() {
    let mut w = setup();
    w.token.mint(ADMIN, 9, 500).unwrap();
    w.deposit(DONOR, 100).unwrap();
    w.deposit(9, 70).unwrap();
    assert_eq!(w.client.get_donor_total(DONOR), 100);
    assert_eq!(w.client.get_donor_total(9), 70);
    assert_eq!(w.client.get_donor_total(RECIPIENT), 0);
    assert_eq!(w.client.get_balance(), 170);
}

#[test]
fn initialize_twice_keeps_first_config() {
    let mut w = setup();
    assert_eq!(w.client.initialize(5, 6, 7), Err(Error::AlreadyInitialized));
    assert_eq!(w.client.config().unwrap().governance, GOVERNANCE);
}

#[test]
fn disbursing_whole_balance_empties_pool() {
    let mut w = setup();
    w.deposit(DONOR, 60).unwrap();
    w.disburse(GOVERNANCE, RECIPIENT, 60).unwrap();
    assert_eq!(w.client.get_balance(), 0);
    assert_eq!(w.disburse(GOVERNANCE, RECIPIENT, 1), Err(Error::InsufficientFunds));
}

#[test]
fn accepted_calls_name_the_token_movement() {
    let mut w = setup();
    assert_eq!(
        w.client.deposit(DONOR, 25),
        Ok(TokenMovement::Collect { token: TOKEN, from: DONOR, amount: 25 })
    );
    assert_eq!(
        w.client.disburse(GOVERNANCE, RECIPIENT, 10),
        Ok(TokenMovement::Pay { token: TOKEN, to: RECIPIENT, amount: 10 })
    );
    assert_eq!(w.client.get_balance(), 15);
}
